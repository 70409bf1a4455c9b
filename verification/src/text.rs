//! Text helpers shared by the agents.

use vstd::prelude::*;

verus! {

/// The text that `str::replace` gives for `text` when every match of
/// `pattern` is replaced by `replacement`.
pub uninterp spec fn text_replaced(
    text: Seq<char>,
    pattern: Seq<char>,
    replacement: Seq<char>,
) -> Seq<char>;

/// The text that `str::trim` gives for `text`: `text` without its leading and
/// trailing white space.
pub uninterp spec fn text_trimmed(text: Seq<char>) -> Seq<char>;

/// The text that `str::to_lowercase` gives for `text`.
pub uninterp spec fn text_lowercased(text: Seq<char>) -> Seq<char>;

/// Calls `str::replace`. Trusted: the result is a function of the three
/// texts alone, which the contract names [`text_replaced`].
#[verifier::external_body]
pub(crate) fn replace_all(text: &str, pattern: &str, replacement: &str) -> (out: String)
    ensures
        out@ == text_replaced(text@, pattern@, replacement@),
{
    text.replace(pattern, replacement)
}

/// Calls `str::trim`. Trusted: the result is a function of the text alone,
/// which the contract names [`text_trimmed`].
#[verifier::external_body]
pub(crate) fn trim_text(text: &str) -> (out: &str)
    ensures
        out@ == text_trimmed(text@),
{
    text.trim()
}

/// Calls `str::to_lowercase`. Trusted: the result is a function of the text
/// alone, which the contract names [`text_lowercased`].
#[verifier::external_body]
pub(crate) fn lowercase_text(text: &str) -> (out: String)
    ensures
        out@ == text_lowercased(text@),
{
    text.to_lowercase()
}

/// The view of an optional text.
pub open spec fn opt_text(text: Option<String>) -> Option<Seq<char>> {
    match text {
        Some(t) => Some(t@),
        None => None,
    }
}

/// A copy of an optional text.
pub fn clone_opt_text(text: &Option<String>) -> (copy: Option<String>)
    ensures
        opt_text(copy) == opt_text(*text),
{
    match text {
        Some(t) => Some(t.clone()),
        None => None,
    }
}

/// A copy of a list of texts.
pub fn clone_texts(texts: &Vec<String>) -> (copy: Vec<String>)
    ensures
        copy.deep_view() == texts.deep_view(),
{
    let mut copy: Vec<String> = Vec::new();
    let mut i: usize = 0;
    while i < texts.len()
        invariant
            i <= texts.len(),
            copy.len() == i,
            forall|k: int| 0 <= k < i ==> copy[k]@ == texts[k]@,
        decreases texts.len() - i,
    {
        copy.push(texts[i].clone());
        i = i + 1;
    }
    assert(copy.deep_view() =~= texts.deep_view());
    copy
}

} // verus!
