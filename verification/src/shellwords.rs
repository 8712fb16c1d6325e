//! Shell-style word splitting, done by the `shlex` crate behind a trusted
//! wrapper. The split of a given string is a fixed function of its characters,
//! so the result is given a name, `shell_words`, that contracts elsewhere in
//! the crate can speak of.
use vstd::prelude::*;

verus! {

/// What `shlex::split` returns for the characters of its input: `None` when
/// the input is erroneous (an unclosed quote, a trailing backslash), and the
/// list of words otherwise.
pub uninterp spec fn shell_words(s: Seq<char>) -> Option<Seq<Seq<char>>>;

/// Relies on shlex::split: splits a string into shell words, returning None
/// on erroneous input. The result depends on the characters alone.
#[verifier::external_body]
pub(crate) fn split_shell_words(s: &str) -> (r: Option<Vec<String>>)
    ensures
        r is Some <==> shell_words(s@) is Some,
        r matches Some(v) ==> v.deep_view() == shell_words(s@).unwrap(),
{
    shlex::split(s)
}

} // verus!
