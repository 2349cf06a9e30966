//! Small string facts and the std string calls the library relies on.

use vstd::prelude::*;

verus! {

/// `true` when `p` is a prefix of `s`.
pub open spec fn starts_with(s: Seq<char>, p: Seq<char>) -> bool {
    p.len() <= s.len() && s.take(p.len() as int) == p
}

/// `true` when the last character of `s` is `c`.
pub open spec fn ends_with_char(s: Seq<char>, c: char) -> bool {
    s.len() > 0 && s.last() == c
}

/// `str::strip_prefix` with a `&str` pattern: by its documentation it returns
/// the rest of `s` after `prefix` when `s` starts with `prefix`, and `None`
/// otherwise.
#[verifier::external_body]
pub(crate) fn str_strip_prefix<'a>(s: &'a str, prefix: &str) -> (r: Option<&'a str>)
    ensures
        r is Some <==> starts_with(s@, prefix@),
        r matches Some(rest) ==> rest@ == s@.skip(prefix@.len() as int),
{
    s.strip_prefix(prefix)
}

/// `str::ends_with` with a `char` pattern: by its documentation it is `true`
/// exactly when the last character of `s` is `c`.
#[verifier::external_body]
pub(crate) fn str_ends_with_char(s: &str, c: char) -> (r: bool)
    ensures
        r == ends_with_char(s@, c),
{
    s.ends_with(c)
}

} // verus!
