use vstd::prelude::*;
use vstd::string::StrSliceExecFns;

verus! {

/// Characters a text file's name keeps as they are: space, `-`, ASCII digits
/// and ASCII letters.
pub open spec fn keeps_char(c: char) -> bool {
    c == ' ' || c == '-' || ('0' <= c && c <= '9') || ('A' <= c && c <= 'Z') || ('a' <= c && c <= 'z')
}

/// A name with every character that is not kept replaced by `_`.
pub open spec fn sanitized(name: Seq<char>) -> Seq<char> {
    name.map_values(|c: char| if keeps_char(c) { c } else { '_' })
}

/// Relies on String::push: appends one character.
#[verifier::external_body]
fn push_char(s: &mut String, c: char)
    ensures
        final(s)@ == old(s)@.push(c),
{
    s.push(c);
}

/// Makes a client-supplied name safe to use as a file name: the same number of
/// characters, each kept or turned into `_`.
pub fn sanitize_filename(filename: &str) -> (r: String)
    ensures
        r@ == sanitized(filename@),
{
    let n = filename.unicode_len();
    let mut out = String::new();
    let mut i: usize = 0;
    while i < n
        invariant
            n == filename@.len(),
            i <= n,
            out@ =~= sanitized(filename@.subrange(0, i as int)),
        decreases n - i,
    {
        let c = filename.get_char(i);
        let kept = c == ' ' || c == '-' || ('0' <= c && c <= '9') || ('A' <= c && c <= 'Z') || (
        'a' <= c && c <= 'z');
        if kept {
            push_char(&mut out, c);
        } else {
            push_char(&mut out, '_');
        }
        assert(filename@.subrange(0, i + 1) =~= filename@.subrange(0, i as int).push(c));
        i = i + 1;
    }
    assert(filename@.subrange(0, n as int) =~= filename@);
    out
}

} // verus!
