//! The aws CLI tool: read-only classification, the policy evaluation with
//! per-service allow and deny lists, and the exact argument vector handed to
//! the CLI. Spawning the process is I/O and stays outside the library.
use vstd::prelude::*;

use convert_case::Casing;

use crate::agent::{Agent, PermissionEvalResult, name_in_list, list_contains};
use crate::message::ScalarValue;
use crate::text;

verus! {

/// What `convert_case` produces for the characters of its input when asked
/// for kebab case. The result depends on the characters alone.
pub uninterp spec fn kebab_of(s: Seq<char>) -> Seq<char>;

/// Relies on convert_case's `Casing::to_case` with `Case::Kebab`: lowercases
/// the words of the input and joins them with hyphens. The result depends on
/// the characters alone.
#[verifier::external_body]
fn to_kebab_case(s: &str) -> (r: String)
    ensures
        r@ == kebab_of(s@),
{
    s.to_case(convert_case::Case::Kebab)
}

/// Whether an operation only reads: it starts with one of the read-only
/// verbs.
pub open spec fn is_readonly_operation(op: Seq<char>) -> bool {
    ||| "get"@.is_prefix_of(op)
    ||| "describe"@.is_prefix_of(op)
    ||| "list"@.is_prefix_of(op)
    ||| "ls"@.is_prefix_of(op)
    ||| "search"@.is_prefix_of(op)
    ||| "batch_get"@.is_prefix_of(op)
}

/// The value text that one parameter contributes to the CLI invocation.
pub open spec fn scalar_cli_text(v: ScalarValue) -> Seq<char> {
    match v {
        ScalarValue::Str(s) => s@,
        ScalarValue::Bool(b) => if b {
            "true"@
        } else {
            "false"@
        },
        ScalarValue::Int(n) => text::dec_of_int(n as int),
        ScalarValue::Null => "null"@,
        ScalarValue::Json(t) => t@,
    }
}

/// The value text that one parameter contributes to the preview shown to the
/// user, rendered as it would appear in a JSON document.
pub open spec fn scalar_display_text(v: ScalarValue) -> Seq<char> {
    match v {
        ScalarValue::Str(s) => "\""@ + s@ + "\""@,
        ScalarValue::Bool(b) => if b {
            "true"@
        } else {
            "false"@
        },
        ScalarValue::Int(n) => text::dec_of_int(n as int),
        ScalarValue::Null => "null"@,
        ScalarValue::Json(t) => t@,
    }
}

fn scalar_cli_string(v: &ScalarValue) -> (r: String)
    ensures
        r@ == scalar_cli_text(*v),
{
    match v {
        ScalarValue::Str(s) => s.clone(),
        ScalarValue::Bool(b) => {
            let mut out = String::new();
            if *b {
                out.append("true");
            } else {
                out.append("false");
            }
            out
        },
        ScalarValue::Int(n) => text::i64_to_dec(*n),
        ScalarValue::Null => {
            let mut out = String::new();
            out.append("null");
            out
        },
        ScalarValue::Json(t) => t.clone(),
    }
}

/// The tool that runs one aws CLI operation.
#[derive(Debug, Clone)]
pub struct UseAws {
    pub service_name: String,
    pub operation_name: String,
    pub parameters: Option<Vec<(String, ScalarValue)>>,
    pub region: String,
    pub profile_name: Option<String>,
    pub label: Option<String>,
}

/// What the policy decides for the aws tool: an explicit per-service deny
/// wins, then a per-service allow, then the blanket allow-list entry, and
/// otherwise the intrinsic read-only classification.
pub open spec fn use_aws_eval_perm_spec(agent: Agent, tool: UseAws) -> PermissionEvalResult {
    let in_allowlist = name_in_list(agent.allowed_tools.deep_view(), "use_aws"@);
    match agent.use_aws_settings {
        Some(settings) => if in_allowlist {
            if name_in_list(settings.denied_services.deep_view(), tool.service_name@) {
                PermissionEvalResult::Deny
            } else if name_in_list(settings.allowed_services.deep_view(), tool.service_name@) {
                PermissionEvalResult::Allow
            } else {
                PermissionEvalResult::Ask
            }
        } else {
            if is_readonly_operation(tool.operation_name@) {
                PermissionEvalResult::Allow
            } else {
                PermissionEvalResult::Ask
            }
        },
        None => if in_allowlist {
            PermissionEvalResult::Allow
        } else {
            if is_readonly_operation(tool.operation_name@) {
                PermissionEvalResult::Allow
            } else {
                PermissionEvalResult::Ask
            }
        },
    }
}

/// A service named in both the per-service allow list and the per-service
/// deny list is denied: the deny list is consulted first.
pub proof fn lemma_service_deny_wins(agent: Agent, tool: UseAws)
    requires
        name_in_list(agent.allowed_tools.deep_view(), "use_aws"@),
        agent.use_aws_settings matches Some(settings) && name_in_list(
            settings.denied_services.deep_view(),
            tool.service_name@,
        ) && name_in_list(settings.allowed_services.deep_view(), tool.service_name@),
    ensures
        use_aws_eval_perm_spec(agent, tool) == PermissionEvalResult::Deny,
{
}

impl UseAws {
    /// Whether this operation needs the user's confirmation: read-only
    /// operations never do, every other operation always does.
    pub fn requires_acceptance(&self) -> (r: bool)
        ensures
            r == !is_readonly_operation(self.operation_name@),
    {
        let op = self.operation_name.as_str();
        !(text::starts_with(op, "get") || text::starts_with(op, "describe") || text::starts_with(
            op,
            "list",
        ) || text::starts_with(op, "ls") || text::starts_with(op, "search") || text::starts_with(
            op,
            "batch_get",
        ))
    }

    /// Argument check before execution; the aws tool has no further
    /// syntactic constraints here.
    pub fn validate(&mut self) -> (r: Result<(), String>)
        ensures
            r is Ok,
            *final(self) == *old(self),
    {
        Ok(())
    }

    /// The policy decision for this tool use.
    pub fn eval_perm(&self, agent: &Agent) -> (r: PermissionEvalResult)
        ensures
            r == use_aws_eval_perm_spec(*agent, *self),
    {
        let in_allowlist = list_contains(&agent.allowed_tools, "use_aws");
        match &agent.use_aws_settings {
            Some(settings) => {
                if in_allowlist {
                    if list_contains(&settings.denied_services, self.service_name.as_str()) {
                        PermissionEvalResult::Deny
                    } else if list_contains(&settings.allowed_services, self.service_name.as_str()) {
                        PermissionEvalResult::Allow
                    } else {
                        PermissionEvalResult::Ask
                    }
                } else {
                    if self.requires_acceptance() {
                        PermissionEvalResult::Ask
                    } else {
                        PermissionEvalResult::Allow
                    }
                }
            },
            None => {
                if in_allowlist {
                    PermissionEvalResult::Allow
                } else {
                    if self.requires_acceptance() {
                        PermissionEvalResult::Ask
                    } else {
                        PermissionEvalResult::Allow
                    }
                }
            },
        }
    }

    /// The `--name value` pairs handed to the CLI, one per parameter, with
    /// each name converted to kebab case.
    pub fn cli_parameters(&self) -> (r: Result<Vec<(String, String)>, String>)
        ensures
            r matches Ok(pairs) && ({
                let ps = match self.parameters {
                    Some(ps) => ps@,
                    None => Seq::empty(),
                };
                &&& pairs@.len() == ps.len()
                &&& forall|i: int|
                    0 <= i < ps.len() ==> (#[trigger] pairs@[i]).0@ == "--"@ + kebab_of(ps[i].0@)
                        && pairs@[i].1@ == scalar_cli_text(ps[i].1)
            }),
    {
        let mut pairs: Vec<(String, String)> = Vec::new();
        match &self.parameters {
            Some(ps) => {
                let ghost psv = ps@;
                let mut i: usize = 0;
                while i < ps.len()
                    invariant
                        psv == ps@,
                        0 <= i <= psv.len(),
                        pairs@.len() == i,
                        forall|k: int|
                            0 <= k < i ==> (#[trigger] pairs@[k]).0@ == "--"@ + kebab_of(
                                psv[k].0@,
                            ) && pairs@[k].1@ == scalar_cli_text(psv[k].1),
                    decreases psv.len() - i,
                {
                    let mut key = String::new();
                    key.append("--");
                    let kebab = to_kebab_case(ps[i].0.as_str());
                    key.append(kebab.as_str());
                    let value = scalar_cli_string(&ps[i].1);
                    pairs.push((key, value));
                    i = i + 1;
                }
            },
            None => {},
        }
        Ok(pairs)
    }

    /// The full argument vector of the CLI invocation: service, operation,
    /// the parameter pairs, the region, the profile when one is named, and
    /// the JSON output format.
    pub fn cli_args(&self) -> (r: Result<Vec<String>, String>)
        ensures
            r matches Ok(args) && ({
                let ps = match self.parameters {
                    Some(ps) => ps@,
                    None => Seq::empty(),
                };
                let tail = seq!["--region"@, self.region@] + (match self.profile_name {
                    Some(p) => seq!["--profile"@, p@],
                    None => Seq::empty(),
                }) + seq!["--output"@, "json"@];
                args.deep_view() =~= seq![self.service_name@, self.operation_name@] + param_args(ps)
                    + tail
            }),
    {
        let mut args: Vec<String> = Vec::new();
        args.push(self.service_name.clone());
        args.push(self.operation_name.clone());
        match &self.parameters {
            Some(ps) => {
                let ghost psv = ps@;
                let mut i: usize = 0;
                while i < ps.len()
                    invariant
                        psv == ps@,
                        0 <= i <= psv.len(),
                        args.deep_view() =~= seq![self.service_name@, self.operation_name@]
                            + param_args(psv.take(i as int)),
                    decreases psv.len() - i,
                {
                    let ghost pre = args.deep_view();
                    let mut key = String::new();
                    key.append("--");
                    let kebab = to_kebab_case(ps[i].0.as_str());
                    key.append(kebab.as_str());
                    let value = scalar_cli_string(&ps[i].1);
                    proof {
                        assert(key@ == "--"@ + kebab_of(psv[i as int].0@));
                        assert(value@ == scalar_cli_text(psv[i as int].1));
                    }
                    args.push(key);
                    args.push(value);
                    proof {
                        assert(args.deep_view() =~= pre + seq![
                            "--"@ + kebab_of(psv[i as int].0@),
                            scalar_cli_text(psv[i as int].1),
                        ]);
                        let next = psv.take(i + 1 as int);
                        assert(next.drop_last() =~= psv.take(i as int));
                        assert(next.last() == psv[i as int]);
                        assert(param_args(next) == param_args(psv.take(i as int)) + seq![
                            "--"@ + kebab_of(psv[i as int].0@),
                            scalar_cli_text(psv[i as int].1),
                        ]);
                        assert(args.deep_view() =~= seq![
                            self.service_name@,
                            self.operation_name@,
                        ] + param_args(next));
                    }
                    i = i + 1;
                }
                proof {
                    assert(psv.take(psv.len() as int) =~= psv);
                }
            },
            None => {},
        }
        let mut region_flag = String::new();
        region_flag.append("--region");
        args.push(region_flag);
        args.push(self.region.clone());
        match &self.profile_name {
            Some(p) => {
                let mut profile_flag = String::new();
                profile_flag.append("--profile");
                args.push(profile_flag);
                args.push(p.clone());
            },
            None => {},
        }
        let mut output_flag = String::new();
        output_flag.append("--output");
        args.push(output_flag);
        let mut json_word = String::new();
        json_word.append("json");
        args.push(json_word);
        Ok(args)
    }
}

/// The `--name value` argument pairs of a parameter list, flattened in
/// order.
pub open spec fn param_args(ps: Seq<(String, ScalarValue)>) -> Seq<Seq<char>>
    decreases ps.len(),
{
    if ps.len() == 0 {
        Seq::empty()
    } else {
        param_args(ps.drop_last()) + seq![
            "--"@ + kebab_of(ps.last().0@),
            scalar_cli_text(ps.last().1),
        ]
    }
}

/// Whether a trimmed confirmation answer affirms the operation.
pub fn is_affirmative(input: &str) -> (r: bool)
    ensures
        r == (text::seq_eq_ci(text::trimmed(input@), "y"@) || text::seq_eq_ci(
            text::trimmed(input@),
            "yes"@,
        )),
{
    let t = text::trim_ws(input);
    text::eq_ignore_ascii_case(t.as_str(), "y") || text::eq_ignore_ascii_case(t.as_str(), "yes")
}

/// The preview lines of a parameter list: one line per parameter, a bare
/// name for an empty string value and `name: value` otherwise.
pub open spec fn params_description(ps: Seq<(String, ScalarValue)>) -> Seq<char>
    decreases ps.len(),
{
    if ps.len() == 0 {
        Seq::empty()
    } else {
        params_description(ps.drop_last()) + (match ps.last().1 {
            ScalarValue::Str(s) => if s@.len() == 0 {
                "- "@ + ps.last().0@ + "\n"@
            } else {
                "- "@ + ps.last().0@ + ": "@ + scalar_display_text(ps.last().1) + "\n"@
            },
            _ => "- "@ + ps.last().0@ + ": "@ + scalar_display_text(ps.last().1) + "\n"@,
        })
    }
}

/// The whole human-readable preview of one aws invocation.
pub open spec fn use_aws_description(t: UseAws) -> Seq<char> {
    "Running aws cli command:\n\nService name: "@ + t.service_name@ + "\nOperation name: "@
        + t.operation_name@ + "\n"@ + (match t.parameters {
        Some(ps) => "Parameters: \n"@ + params_description(ps@),
        None => Seq::empty(),
    }) + (match t.profile_name {
        Some(p) => "Profile name: "@ + p@ + "\n"@,
        None => "Profile name: default\n"@,
    }) + "Region: "@ + t.region@ + (match t.label {
        Some(l) => "\nLabel: "@ + l@,
        None => Seq::empty(),
    })
}

fn scalar_display_string(v: &ScalarValue) -> (r: String)
    ensures
        r@ == scalar_display_text(*v),
{
    match v {
        ScalarValue::Str(s) => {
            let mut out = String::new();
            out.append("\"");
            out.append(s.as_str());
            out.append("\"");
            out
        },
        ScalarValue::Bool(b) => {
            let mut out = String::new();
            if *b {
                out.append("true");
            } else {
                out.append("false");
            }
            out
        },
        ScalarValue::Int(n) => text::i64_to_dec(*n),
        ScalarValue::Null => {
            let mut out = String::new();
            out.append("null");
            out
        },
        ScalarValue::Json(t) => t.clone(),
    }
}

impl UseAws {
    /// The human-readable preview rendered before execution or
    /// confirmation.
    pub fn queue_description(&self) -> (r: String)
        ensures
            r@ == use_aws_description(*self),
    {
        let mut out = String::new();
        out.append("Running aws cli command:\n\nService name: ");
        out.append(self.service_name.as_str());
        out.append("\nOperation name: ");
        out.append(self.operation_name.as_str());
        out.append("\n");
        match &self.parameters {
            Some(ps) => {
                out.append("Parameters: \n");
                let ghost psv = ps@;
                let ghost pre = out@;
                let mut i: usize = 0;
                while i < ps.len()
                    invariant
                        psv == ps@,
                        0 <= i <= psv.len(),
                        out@ == pre + params_description(psv.take(i as int)),
                    decreases psv.len() - i,
                {
                    let ghost before = out@;
                    out.append("- ");
                    out.append(ps[i].0.as_str());
                    let empty_str = match &ps[i].1 {
                        ScalarValue::Str(s) => s.as_str().unicode_len() == 0,
                        _ => false,
                    };
                    if !empty_str {
                        out.append(": ");
                        let rendered = scalar_display_string(&ps[i].1);
                        out.append(rendered.as_str());
                    }
                    out.append("\n");
                    proof {
                        assert(psv.take(i + 1 as int).drop_last() =~= psv.take(i as int));
                        assert(psv.take(i + 1 as int).last() == psv[i as int]);
                        assert(out@ =~= pre + params_description(psv.take(i + 1 as int)));
                    }
                    i = i + 1;
                }
                proof {
                    assert(psv.take(psv.len() as int) =~= psv);
                }
            },
            None => {},
        }
        match &self.profile_name {
            Some(p) => {
                out.append("Profile name: ");
                out.append(p.as_str());
                out.append("\n");
            },
            None => {
                out.append("Profile name: default\n");
            },
        }
        out.append("Region: ");
        out.append(self.region.as_str());
        match &self.label {
            Some(l) => {
                out.append("\nLabel: ");
                out.append(l.as_str());
            },
            None => {},
        }
        out
    }
}

} // verus!
