//! The language of a changed file.

use vstd::prelude::*;

verus! {

/// The identifier of the language that `detect_lang::from_path` finds for a
/// path, if it finds one.
pub uninterp spec fn language_id_of(path: Seq<char>) -> Option<Seq<char>>;

/// The view of an optional string.
pub open spec fn opt_view(o: Option<String>) -> Option<Seq<char>> {
    match o {
        Some(s) => Some(s@),
        None => None,
    }
}

/// The label written for a detection result: the identifier, or `None` for
/// an unknown language.
pub open spec fn language_label_of(detected: Option<Seq<char>>) -> Seq<char> {
    match detected {
        Some(id) => id,
        None => "None"@,
    }
}

/// Relies on detect_lang::from_path, which looks the path's extension up in a
/// fixed table; the result is the language's identifier.
#[verifier::external_body]
fn detect_language(path: &str) -> (r: Option<String>)
    ensures
        opt_view(r) == language_id_of(path@),
{
    detect_lang::from_path(path).map(|lang| lang.id().to_string())
}

/// The label written for a detection result.
pub fn language_label(detected: Option<String>) -> (r: String)
    ensures
        r@ == language_label_of(opt_view(detected)),
{
    match detected {
        Some(id) => id,
        None => String::from_str("None"),
    }
}

/// The label of the language of the file at `path`.
pub fn language_of_path(path: &str) -> (r: String)
    ensures
        r@ == language_label_of(language_id_of(path@)),
{
    language_label(detect_language(path))
}

} // verus!
