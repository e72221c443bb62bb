use vstd::prelude::*;
use crate::text::{ends_with, str_ends_with};

verus! {

/// What `str::to_lowercase` makes of a sequence of characters.
pub uninterp spec fn lower_of(s: Seq<char>) -> Seq<char>;

/// Whether an already lower-cased path carries one of the markdown
/// extensions: `.md`, `.markdown`, `.mdown` or `.mkd`.
pub open spec fn has_markdown_suffix(lower: Seq<char>) -> bool {
    ends_with(lower, ".md"@) || ends_with(lower, ".markdown"@) || ends_with(lower, ".mdown"@)
        || ends_with(lower, ".mkd"@)
}

/// Whether a path names a markdown document, its letters' case ignored.
pub open spec fn is_markdown_path(path: Seq<char>) -> bool {
    has_markdown_suffix(lower_of(path))
}

/// Relies on `str::to_lowercase`: the lower-case form of the string, which
/// depends on its characters alone.
#[verifier::external_body]
fn lowercase(s: &str) -> (r: String)
    ensures
        r@ == lower_of(s@),
{
    s.to_lowercase()
}

/// Whether an already lower-cased path carries a markdown extension.
pub fn has_markdown_extension(lower: &str) -> (r: bool)
    ensures
        r == has_markdown_suffix(lower@),
{
    str_ends_with(lower, ".md") || str_ends_with(lower, ".markdown") || str_ends_with(
        lower,
        ".mdown",
    ) || str_ends_with(lower, ".mkd")
}

/// Whether `path` names a markdown document: its lower-case form ends with
/// `.md`, `.markdown`, `.mdown` or `.mkd`.
pub fn is_markdown_file(path: &str) -> (r: bool)
    ensures
        r == is_markdown_path(path@),
{
    let lower = lowercase(path);
    has_markdown_extension(lower.as_str())
}

} // verus!
