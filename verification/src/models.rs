//! The models a session can talk to, lookup of a model by its public name,
//! and the default model choice, which depends on the account's region and
//! kind.
use vstd::prelude::*;

use crate::text;

verus! {

/// One selectable model: its public name and its backend identifier.
#[derive(Debug, Clone)]
pub struct ModelOption {
    pub name: String,
    pub model_id: String,
}

/// The `/model` command; selection itself is interactive and happens in the
/// surrounding program, which then applies the choice to the session.
#[derive(Debug, PartialEq, Eq, Structural)]
pub struct ModelArgs;

/// The selectable models, by position: name and backend identifier.
pub open spec fn model_options_spec() -> Seq<(Seq<char>, Seq<char>)> {
    seq![
        ("sonnet-4"@, "CLAUDE_SONNET_4_20250514_V1_0"@),
        ("sonnet-3.7"@, "CLAUDE_3_7_SONNET_20250219_V1_0"@),
    ]
}

/// The selectable models.
pub fn model_options() -> (r: Vec<ModelOption>)
    ensures
        r@.len() == model_options_spec().len(),
        forall|i: int|
            0 <= i < r@.len() ==> (#[trigger] r@[i]).name@ == model_options_spec()[i].0
                && r@[i].model_id@ == model_options_spec()[i].1,
{
    let mut out: Vec<ModelOption> = Vec::new();
    let mut name = String::new();
    name.append("sonnet-4");
    let mut id = String::new();
    id.append("CLAUDE_SONNET_4_20250514_V1_0");
    out.push(ModelOption { name, model_id: id });
    let mut name2 = String::new();
    name2.append("sonnet-3.7");
    let mut id2 = String::new();
    id2.append("CLAUDE_3_7_SONNET_20250219_V1_0");
    out.push(ModelOption { name: name2, model_id: id2 });
    out
}

/// The backend identifier a user-supplied model name resolves to, compared
/// without regard to ASCII case.
pub open spec fn resolved_model_id(name: Seq<char>) -> Option<Seq<char>> {
    if text::seq_eq_ci(name, "sonnet-4"@) {
        Some("CLAUDE_SONNET_4_20250514_V1_0"@)
    } else if text::seq_eq_ci(name, "sonnet-3.7"@) {
        Some("CLAUDE_3_7_SONNET_20250219_V1_0"@)
    } else {
        None
    }
}

/// Resolves a user-supplied model name; `None` when no model of that name
/// exists.
pub fn resolve_model_id(name: &str) -> (r: Option<String>)
    ensures
        match r {
            Some(id) => resolved_model_id(name@) == Some(id@),
            None => resolved_model_id(name@) is None,
        },
{
    if text::eq_ignore_ascii_case(name, "sonnet-4") {
        let mut id = String::new();
        id.append("CLAUDE_SONNET_4_20250514_V1_0");
        Some(id)
    } else if text::eq_ignore_ascii_case(name, "sonnet-3.7") {
        let mut id = String::new();
        id.append("CLAUDE_3_7_SONNET_20250219_V1_0");
        Some(id)
    } else {
        None
    }
}

/// Index of the first colon, or the length when there is none.
pub open spec fn first_colon(s: Seq<char>) -> int
    decreases s.len(),
{
    if s.len() == 0 {
        0
    } else if s[0] == ':' {
        0
    } else {
        1 + first_colon(s.drop_first())
    }
}

/// The colon-separated fields of `s`.
pub open spec fn colon_fields(s: Seq<char>) -> Seq<Seq<char>>
    decreases s.len(),
    via colon_fields_decreases
{
    if first_colon(s) == s.len() {
        seq![s]
    } else {
        seq![s.take(first_colon(s))] + colon_fields(s.skip(first_colon(s) + 1))
    }
}

#[via_fn]
proof fn colon_fields_decreases(s: Seq<char>) {
    lemma_first_colon(s);
}

proof fn lemma_first_colon(s: Seq<char>)
    ensures
        0 <= first_colon(s) <= s.len(),
        forall|k: int| 0 <= k < first_colon(s) ==> s[k] != ':',
        first_colon(s) < s.len() ==> s[first_colon(s)] == ':',
    decreases s.len(),
{
    if s.len() == 0 {
    } else if s[0] == ':' {
    } else {
        lemma_first_colon(s.drop_first());
        assert forall|k: int| 0 <= k < first_colon(s) implies s[k] != ':' by {
            if k > 0 {
                assert(s.drop_first()[k - 1] == s[k]);
            }
        }
    }
}

proof fn lemma_first_colon_is(s: Seq<char>, i: int)
    requires
        0 <= i <= s.len(),
        forall|k: int| 0 <= k < i ==> s[k] != ':',
        i < s.len() ==> s[i] == ':',
    ensures
        first_colon(s) == i,
    decreases s.len(),
{
    if s.len() == 0 {
    } else if i == 0 {
    } else {
        assert(s[0] != ':');
        assert forall|k: int| 0 <= k < i - 1 implies s.drop_first()[k] != ':' by {
            assert(s.drop_first()[k] == s[k + 1]);
        }
        if i - 1 < s.drop_first().len() {
            assert(s.drop_first()[i - 1] == s[i]);
        }
        lemma_first_colon_is(s.drop_first(), i - 1);
    }
}

/// Splits `s` at colons.
pub fn split_colons(s: &str) -> (r: Vec<String>)
    ensures
        r.deep_view() =~= colon_fields(s@),
    decreases s@.len(),
{
    let n = s.unicode_len();
    let mut i: usize = 0;
    while i < n && s.get_char(i) != ':'
        invariant
            n == s@.len(),
            0 <= i <= n,
            forall|k: int| 0 <= k < i ==> s@[k] != ':',
        decreases n - i,
    {
        i = i + 1;
    }
    proof {
        lemma_first_colon_is(s@, i as int);
    }
    if i == n {
        let mut out: Vec<String> = Vec::new();
        out.push(String::from_str(s));
        proof {
            assert(out.deep_view() =~= seq![s@]);
        }
        out
    } else {
        let head = s.substring_char(0, i);
        let tail = s.substring_char(i + 1, n);
        proof {
            assert(tail@ =~= s@.skip(i + 1));
        }
        let mut rest = split_colons(tail);
        let mut out: Vec<String> = Vec::new();
        out.push(String::from_str(head));
        let ghost restv = rest.deep_view();
        out.append(&mut rest);
        proof {
            assert(out.deep_view() =~= seq![head@] + restv);
            assert(colon_fields(s@) =~= seq![s@.take(i as int)] + colon_fields(s@.skip(i + 1)));
        }
        out
    }
}

/// Which model a session starts on when none was chosen: accounts whose
/// authentication profile sits in the Frankfurt region, and Amazon identity
/// center users, start on the older model; everyone else starts on the
/// newer.
pub open spec fn default_model_id_spec(auth_profile_arn: Option<String>, is_amzn_idc_user: bool) -> Seq<char> {
    let fra = match auth_profile_arn {
        Some(arn) => colon_fields(arn@).len() > 3 && colon_fields(arn@)[3] == "eu-central-1"@,
        None => false,
    };
    if fra || is_amzn_idc_user {
        "CLAUDE_3_7_SONNET_20250219_V1_0"@
    } else {
        "CLAUDE_SONNET_4_20250514_V1_0"@
    }
}

/// The model a session starts on when none was chosen, from the
/// authentication profile's ARN and the kind of account.
pub fn default_model_id(auth_profile_arn: Option<String>, is_amzn_idc_user: bool) -> (r: String)
    ensures
        r@ == default_model_id_spec(auth_profile_arn, is_amzn_idc_user),
{
    let mut fra = false;
    match &auth_profile_arn {
        Some(arn) => {
            let fields = split_colons(arn.as_str());
            if fields.len() > 3 {
                proof {
                    assert(fields.deep_view()[3] == fields@[3]@);
                }
                if text::str_eq(fields[3].as_str(), "eu-central-1") {
                    fra = true;
                }
            }
        },
        None => {},
    }
    let mut id = String::new();
    if fra || is_amzn_idc_user {
        id.append("CLAUDE_3_7_SONNET_20250219_V1_0");
    } else {
        id.append("CLAUDE_SONNET_4_20250514_V1_0");
    }
    id
}

} // verus!
