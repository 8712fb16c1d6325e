//! Verified helpers over `&str` and `String`: equality, prefix and substring
//! tests, whitespace trimming, and decimal rendering of integers. Contracts are
//! stated over the `Seq<char>` views of the strings involved.
use vstd::prelude::*;

verus! {

/// Holds when `needle` occurs contiguously somewhere in `hay`.
pub open spec fn seq_contains_seq(hay: Seq<char>, needle: Seq<char>) -> bool {
    exists|i: int| 0 <= i <= hay.len() - needle.len() && needle.is_prefix_of(hay.skip(i))
}

/// The ASCII whitespace characters that [`trim_ws`] removes.
pub open spec fn is_ws_char(c: char) -> bool {
    c == ' ' || c == '\t' || c == '\n' || c == '\r'
}

pub open spec fn drop_leading_ws(s: Seq<char>) -> Seq<char>
    decreases s.len(),
{
    if s.len() > 0 && is_ws_char(s[0]) {
        drop_leading_ws(s.drop_first())
    } else {
        s
    }
}

pub open spec fn drop_trailing_ws(s: Seq<char>) -> Seq<char>
    decreases s.len(),
{
    if s.len() > 0 && is_ws_char(s.last()) {
        drop_trailing_ws(s.drop_last())
    } else {
        s
    }
}

/// `s` with leading and trailing ASCII whitespace removed.
pub open spec fn trimmed(s: Seq<char>) -> Seq<char> {
    drop_trailing_ws(drop_leading_ws(s))
}

pub fn str_eq(a: &str, b: &str) -> (r: bool)
    ensures
        r == (a@ == b@),
{
    let alen = a.unicode_len();
    let blen = b.unicode_len();
    if alen != blen {
        return false;
    }
    let mut i: usize = 0;
    while i < alen
        invariant
            alen == a@.len(),
            alen == b@.len(),
            0 <= i <= alen,
            forall|k: int| 0 <= k < i ==> a@[k] == b@[k],
        decreases alen - i,
    {
        if a.get_char(i) != b.get_char(i) {
            return false;
        }
        i = i + 1;
    }
    proof {
        assert(a@ =~= b@);
    }
    true
}

pub fn starts_with(s: &str, p: &str) -> (r: bool)
    ensures
        r == p@.is_prefix_of(s@),
{
    let slen = s.unicode_len();
    let plen = p.unicode_len();
    if plen > slen {
        return false;
    }
    let mut i: usize = 0;
    while i < plen
        invariant
            slen == s@.len(),
            plen == p@.len(),
            plen <= slen,
            0 <= i <= plen,
            forall|k: int| 0 <= k < i ==> s@[k] == p@[k],
        decreases plen - i,
    {
        if s.get_char(i) != p.get_char(i) {
            return false;
        }
        i = i + 1;
    }
    proof {
        assert(p@ =~= s@.subrange(0, p@.len() as int));
    }
    true
}

/// Whether `p` occurs as a prefix of `s` starting at character `at`.
fn matches_at(s: &str, p: &str, at: usize) -> (r: bool)
    requires
        at + p@.len() <= s@.len(),
        s@.len() <= usize::MAX,
    ensures
        r == p@.is_prefix_of(s@.skip(at as int)),
{
    let plen = p.unicode_len();
    let mut i: usize = 0;
    while i < plen
        invariant
            plen == p@.len(),
            at + plen <= s@.len(),
            s@.len() <= usize::MAX,
            0 <= i <= plen,
            forall|k: int| 0 <= k < i ==> s@[at + k] == p@[k],
        decreases plen - i,
    {
        if s.get_char(at + i) != p.get_char(i) {
            return false;
        }
        i = i + 1;
    }
    proof {
        assert(p@ =~= s@.skip(at as int).subrange(0, p@.len() as int));
    }
    true
}

pub fn contains_str(s: &str, p: &str) -> (r: bool)
    ensures
        r == seq_contains_seq(s@, p@),
{
    let slen = s.unicode_len();
    let plen = p.unicode_len();
    if plen > slen {
        return false;
    }
    if plen == 0 {
        proof {
            assert(p@.is_prefix_of(s@.skip(0)));
        }
        return true;
    }
    let mut i: usize = 0;
    while i <= slen - plen
        invariant
            slen == s@.len(),
            plen == p@.len(),
            0 < plen <= slen,
            0 <= i <= slen - plen + 1,
            forall|k: int| 0 <= k < i ==> !p@.is_prefix_of(#[trigger] s@.skip(k)),
        decreases slen - i,
    {
        if matches_at(s, p, i) {
            return true;
        }
        i = i + 1;
    }
    proof {
        assert(forall|k: int| i <= k <= s@.len() - p@.len() ==> !p@.is_prefix_of(
            #[trigger] s@.skip(k),
        )) by {
            assert forall|k: int| i <= k <= s@.len() - p@.len() implies !p@.is_prefix_of(
                #[trigger] s@.skip(k),
            ) by {
                assert(s@.skip(k).len() == s@.len() - k);
            }
        }
    }
    false
}

pub fn contains_char(s: &str, c: char) -> (r: bool)
    ensures
        r == s@.contains(c),
{
    let slen = s.unicode_len();
    let mut i: usize = 0;
    while i < slen
        invariant
            slen == s@.len(),
            0 <= i <= slen,
            forall|k: int| 0 <= k < i ==> s@[k] != c,
        decreases slen - i,
    {
        if s.get_char(i) == c {
            return true;
        }
        i = i + 1;
    }
    false
}

fn is_ws(c: char) -> (r: bool)
    ensures
        r == is_ws_char(c),
{
    c == ' ' || c == '\t' || c == '\n' || c == '\r'
}

proof fn lemma_drop_leading_ws_skip(s: Seq<char>, i: int)
    requires
        0 <= i <= s.len(),
        forall|k: int| 0 <= k < i ==> is_ws_char(s[k]),
        i == s.len() || !is_ws_char(s[i]),
    ensures
        drop_leading_ws(s) =~= s.skip(i),
    decreases i,
{
    if i == 0 {
        if s.len() > 0 && is_ws_char(s[0]) {
            assert(false);
        }
        assert(s.skip(0) =~= s);
    } else {
        assert(is_ws_char(s[0]));
        assert(s.drop_first() =~= s.skip(1));
        lemma_drop_leading_ws_skip(s.skip(1), i - 1);
        assert(s.skip(1).skip(i - 1) =~= s.skip(i));
    }
}

proof fn lemma_drop_trailing_ws_take(s: Seq<char>, j: int)
    requires
        0 <= j <= s.len(),
        forall|k: int| j <= k < s.len() ==> is_ws_char(s[k]),
        j == 0 || !is_ws_char(s[j - 1]),
    ensures
        drop_trailing_ws(s) =~= s.take(j),
    decreases s.len() - j,
{
    if j == s.len() {
        if s.len() > 0 && is_ws_char(s.last()) {
            assert(false);
        }
        assert(s.take(j) =~= s);
    } else {
        assert(is_ws_char(s.last()));
        assert(s.drop_last() =~= s.take(s.len() - 1));
        lemma_drop_trailing_ws_take(s.take(s.len() - 1), j);
    }
}

/// `s` with leading and trailing ASCII whitespace removed.
pub fn trim_ws(s: &str) -> (r: String)
    ensures
        r@ == trimmed(s@),
{
    let slen = s.unicode_len();
    let mut start: usize = 0;
    while start < slen && is_ws(s.get_char(start))
        invariant
            slen == s@.len(),
            0 <= start <= slen,
            forall|k: int| 0 <= k < start ==> is_ws_char(s@[k]),
        decreases slen - start,
    {
        start = start + 1;
    }
    let mut end: usize = slen;
    while end > start && is_ws(s.get_char(end - 1))
        invariant
            slen == s@.len(),
            0 <= start <= end <= slen,
            forall|k: int| 0 <= k < start ==> is_ws_char(s@[k]),
            forall|k: int| end <= k < slen ==> is_ws_char(s@[k]),
        decreases end,
    {
        end = end - 1;
    }
    let piece = s.substring_char(start, end);
    proof {
        lemma_drop_leading_ws_skip(s@, start as int);
        let t = s@.skip(start as int);
        lemma_drop_trailing_ws_take(t, end - start);
        assert(t.take(end - start) =~= s@.subrange(start as int, end as int));
    }
    String::from_str(piece)
}

/// Relies on std's `String::push`: appends one character.
#[verifier::external_body]
pub(crate) fn push_char(s: &mut String, c: char)
    ensures
        final(s)@ == old(s)@.push(c),
{
    s.push(c);
}

/// Character equality up to ASCII case.
pub open spec fn chars_eq_ci(a: char, b: char) -> bool {
    ||| a == b
    ||| ('A' <= a && a <= 'Z' && b as u32 == a as u32 + 32)
    ||| ('A' <= b && b <= 'Z' && a as u32 == b as u32 + 32)
}

/// String equality up to ASCII case.
pub open spec fn seq_eq_ci(s: Seq<char>, t: Seq<char>) -> bool {
    s.len() == t.len() && forall|i: int| 0 <= i < s.len() ==> chars_eq_ci(s[i], t[i])
}

pub fn eq_ignore_ascii_case(a: &str, b: &str) -> (r: bool)
    ensures
        r == seq_eq_ci(a@, b@),
{
    let alen = a.unicode_len();
    let blen = b.unicode_len();
    if alen != blen {
        return false;
    }
    let mut i: usize = 0;
    while i < alen
        invariant
            alen == a@.len(),
            alen == b@.len(),
            0 <= i <= alen,
            forall|k: int| 0 <= k < i ==> chars_eq_ci(a@[k], b@[k]),
        decreases alen - i,
    {
        let x = a.get_char(i);
        let y = b.get_char(i);
        let eq = x == y || ('A' <= x && x <= 'Z' && y as u32 == x as u32 + 32) || ('A' <= y && y
            <= 'Z' && x as u32 == y as u32 + 32);
        if !eq {
            return false;
        }
        i = i + 1;
    }
    true
}

/// The decimal digit characters of `n`, most significant first.
pub open spec fn dec_digits(n: nat) -> Seq<char>
    decreases n,
{
    if n < 10 {
        seq![digit_char(n)]
    } else {
        dec_digits(n / 10).push(digit_char(n % 10))
    }
}

pub open spec fn digit_char(d: nat) -> char {
    if d == 0 {
        '0'
    } else if d == 1 {
        '1'
    } else if d == 2 {
        '2'
    } else if d == 3 {
        '3'
    } else if d == 4 {
        '4'
    } else if d == 5 {
        '5'
    } else if d == 6 {
        '6'
    } else if d == 7 {
        '7'
    } else if d == 8 {
        '8'
    } else {
        '9'
    }
}

/// The decimal rendering of `n`, with a leading `-` when negative.
pub open spec fn dec_of_int(n: int) -> Seq<char> {
    if n < 0 {
        seq!['-'] + dec_digits((-n) as nat)
    } else {
        dec_digits(n as nat)
    }
}

fn push_digit(out: &mut String, d: u64)
    requires
        d < 10,
    ensures
        final(out)@ == old(out)@ + seq![digit_char(d as nat)],
{
    if d == 0 {
        out.append("0");
        proof {
            reveal_strlit("0");
            assert("0"@ =~= seq![digit_char(0)]);
        }
    } else if d == 1 {
        out.append("1");
        proof {
            reveal_strlit("1");
            assert("1"@ =~= seq![digit_char(1)]);
        }
    } else if d == 2 {
        out.append("2");
        proof {
            reveal_strlit("2");
            assert("2"@ =~= seq![digit_char(2)]);
        }
    } else if d == 3 {
        out.append("3");
        proof {
            reveal_strlit("3");
            assert("3"@ =~= seq![digit_char(3)]);
        }
    } else if d == 4 {
        out.append("4");
        proof {
            reveal_strlit("4");
            assert("4"@ =~= seq![digit_char(4)]);
        }
    } else if d == 5 {
        out.append("5");
        proof {
            reveal_strlit("5");
            assert("5"@ =~= seq![digit_char(5)]);
        }
    } else if d == 6 {
        out.append("6");
        proof {
            reveal_strlit("6");
            assert("6"@ =~= seq![digit_char(6)]);
        }
    } else if d == 7 {
        out.append("7");
        proof {
            reveal_strlit("7");
            assert("7"@ =~= seq![digit_char(7)]);
        }
    } else if d == 8 {
        out.append("8");
        proof {
            reveal_strlit("8");
            assert("8"@ =~= seq![digit_char(8)]);
        }
    } else {
        out.append("9");
        proof {
            reveal_strlit("9");
            assert("9"@ =~= seq![digit_char(9)]);
        }
    }
}

fn push_dec_u64(out: &mut String, n: u64)
    ensures
        final(out)@ == old(out)@ + dec_digits(n as nat),
    decreases n,
{
    if n >= 10 {
        push_dec_u64(out, n / 10);
    }
    push_digit(out, n % 10);
}

/// The decimal rendering of `n`.
pub fn u64_to_dec(n: u64) -> (r: String)
    ensures
        r@ == dec_digits(n as nat),
{
    let mut out = String::new();
    push_dec_u64(&mut out, n);
    out
}

/// The decimal rendering of `n`, with a leading `-` when negative.
pub fn i64_to_dec(n: i64) -> (r: String)
    ensures
        r@ == dec_of_int(n as int),
{
    if n >= 0 {
        u64_to_dec(n as u64)
    } else {
        let mut out = String::new();
        out.append("-");
        proof {
            reveal_strlit("-");
            assert("-"@ =~= seq!['-']);
        }
        let mag: u64 = if n == i64::MIN {
            9223372036854775808u64
        } else {
            (-n) as u64
        };
        push_dec_u64(&mut out, mag);
        out
    }
}

} // verus!
