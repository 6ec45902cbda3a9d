//! Text operations of std that the parsers rely on, with what each promises.

use vstd::prelude::*;

verus! {

/// `p` occurs in `s` at some position.
pub open spec fn has_infix(s: Seq<char>, p: Seq<char>) -> bool {
    exists|i: int| 0 <= i && i + p.len() <= s.len() && #[trigger] s.subrange(i, i + p.len()) == p
}

/// The characters of `s` before the first `c`, or all of `s` without one.
pub open spec fn prefix_before(s: Seq<char>, c: char) -> Seq<char>
    decreases s.len(),
{
    if s.len() == 0 {
        s
    } else if s[0] == c {
        Seq::empty()
    } else {
        seq![s[0]] + prefix_before(s.drop_first(), c)
    }
}

/// Lower-case form of a text, by Unicode's case mapping.
pub uninterp spec fn lower_of(s: Seq<char>) -> Seq<char>;

/// A text without its leading and trailing Unicode white space.
pub uninterp spec fn trim_of(s: Seq<char>) -> Seq<char>;

/// The lines of a text, each without its `\n` or `\r\n` ending.
pub uninterp spec fn lines_of(s: Seq<char>) -> Seq<Seq<char>>;

/// The non-empty runs of a text between Unicode white space.
pub uninterp spec fn words_of(s: Seq<char>) -> Seq<Seq<char>>;

/// The pieces of `s` between occurrences of the separator `p`.
pub uninterp spec fn pieces_of(s: Seq<char>, p: Seq<char>) -> Seq<Seq<char>>;

/// A decimal `u32`, when the text is one.
pub uninterp spec fn u32_of(s: Seq<char>) -> Option<u32>;

/// A decimal `i16`, when the text is one.
pub uninterp spec fn i16_of(s: Seq<char>) -> Option<i16>;

/// Views of a sequence of string slices.
pub open spec fn views_of(v: Seq<&str>) -> Seq<Seq<char>> {
    v.map_values(|t: &str| t@)
}

/// Relies on `str::to_lowercase`, whose result depends on the text alone.
#[verifier::external_body]
pub(crate) fn to_lowercase(s: &str) -> (r: String)
    ensures
        r@ == lower_of(s@),
{
    s.to_lowercase()
}

/// Relies on `str::contains` with a string pattern: whether it occurs.
#[verifier::external_body]
pub(crate) fn contains(s: &str, p: &str) -> (r: bool)
    ensures
        r == has_infix(s@, p@),
{
    s.contains(p)
}

/// Relies on `str::starts_with` with a string pattern.
#[verifier::external_body]
pub(crate) fn starts_with(s: &str, p: &str) -> (r: bool)
    ensures
        r == p@.is_prefix_of(s@),
{
    s.starts_with(p)
}

/// Relies on `str::strip_prefix` with a string pattern: the rest of `s`
/// after `p` when `s` starts with `p`.
#[verifier::external_body]
pub(crate) fn strip_prefix<'a>(s: &'a str, p: &str) -> (r: Option<&'a str>)
    ensures
        r is Some <==> p@.is_prefix_of(s@),
        r matches Some(t) ==> t@ == s@.skip(p@.len() as int),
{
    s.strip_prefix(p)
}

/// Relies on `str::split` with a `char` separator: its first piece.
#[verifier::external_body]
pub(crate) fn before_char(s: &str, c: char) -> (r: &str)
    ensures
        r@ == prefix_before(s@, c),
{
    s.split(c).next().unwrap_or("")
}

/// Relies on `str::trim`, whose result depends on the text alone.
#[verifier::external_body]
pub(crate) fn trim(s: &str) -> (r: &str)
    ensures
        r@ == trim_of(s@),
{
    s.trim()
}

/// Relies on `str::lines`, whose lines depend on the text alone.
#[verifier::external_body]
pub(crate) fn lines(s: &str) -> (r: Vec<&str>)
    ensures
        views_of(r@) == lines_of(s@),
{
    s.lines().collect()
}

/// Relies on `str::split_whitespace`, whose words depend on the text alone.
#[verifier::external_body]
pub(crate) fn split_whitespace(s: &str) -> (r: Vec<&str>)
    ensures
        views_of(r@) == words_of(s@),
{
    s.split_whitespace().collect()
}

/// Relies on `str::split` with a string separator, whose pieces depend on
/// the two texts alone.
#[verifier::external_body]
pub(crate) fn split<'a>(s: &'a str, p: &str) -> (r: Vec<&'a str>)
    ensures
        views_of(r@) == pieces_of(s@, p@),
{
    s.split(p).collect()
}

/// Relies on `str::parse::<u32>`, whose outcome depends on the text alone.
#[verifier::external_body]
pub(crate) fn parse_u32(s: &str) -> (r: Option<u32>)
    ensures
        r == u32_of(s@),
{
    s.parse::<u32>().ok()
}

/// Relies on `str::parse::<i16>`, whose outcome depends on the text alone.
#[verifier::external_body]
pub(crate) fn parse_i16(s: &str) -> (r: Option<i16>)
    ensures
        r == i16_of(s@),
{
    s.parse::<i16>().ok()
}

} // verus!
