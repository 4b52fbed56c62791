use vstd::prelude::*;

verus! {

/// Characters that no sanitised content file name holds: path separators and
/// the other characters that some file systems refuse, and control characters.
pub open spec fn forbidden_char(c: char) -> bool {
    c == '/' || c == '?' || c == '<' || c == '>' || c == '\\' || c == ':' || c == '*' || c == '|'
        || c == '"' || ('\u{0}' <= c && c <= '\u{1f}') || ('\u{80}' <= c && c <= '\u{9f}')
}

/// Relies on sanitize_filename::sanitize, which removes the forbidden
/// characters and cuts the result to at most 255 bytes (so at most 255
/// characters); what else it removes depends on the platform.
#[verifier::external_body]
fn sanitize_with_crate(filename: &str) -> (r: String)
    ensures
        r@.len() <= 255,
        forall|i: int| 0 <= i < r@.len() ==> !forbidden_char(#[trigger] r@[i]),
{
    sanitize_filename::sanitize(filename)
}

/// Makes a client-supplied name safe to use as a content file name.
pub fn sanitize_filename(filename: &str) -> (r: String)
    ensures
        r@.len() <= 255,
        forall|i: int| 0 <= i < r@.len() ==> !forbidden_char(#[trigger] r@[i]),
{
    sanitize_with_crate(filename)
}

} // verus!
