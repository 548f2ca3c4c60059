use vstd::prelude::*;

verus! {

/// Whether `regex::Regex::new` accepts the pattern. Compilation of a pattern
/// depends on the pattern text alone, so its outcome can be given a name.
pub uninterp spec fn regex_ok(pattern: Seq<char>) -> bool;

/// Whether the compiled pattern matches somewhere in the text. For a fixed
/// pattern and text, `regex::Regex::is_match` always returns the same answer,
/// so the result can be given a name.
pub uninterp spec fn regex_match(pattern: Seq<char>, text: Seq<char>) -> bool;

/// Relies on regex::Regex::new: it returns `Ok` or `Err` depending on the
/// pattern text alone.
#[verifier::external_body]
pub(crate) fn regex_is_valid(pattern: &str) -> (r: bool)
    ensures
        r == regex_ok(pattern@),
{
    regex::Regex::new(pattern).is_ok()
}

/// Relies on regex::Regex::new and regex::Regex::is_match: `is_match` returns
/// true if and only if the pattern matches somewhere in the text, and the
/// answer depends only on the pattern and the text. The precondition keeps
/// compilation from failing.
#[verifier::external_body]
pub(crate) fn regex_text_match(pattern: &str, text: &str) -> (r: bool)
    requires
        regex_ok(pattern@),
    ensures
        r == regex_match(pattern@, text@),
{
    match regex::Regex::new(pattern) {
        Ok(re) => re.is_match(text),
        Err(_) => false,
    }
}

} // verus!
