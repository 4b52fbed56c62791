use vstd::prelude::*;
use vstd::string::{StrSliceExecFns, StringExecFns};

verus! {

/// The length of `s` once every trailing `/` is cut off.
pub open spec fn trimmed_len(s: Seq<char>) -> nat
    decreases s.len(),
{
    if s.len() > 0 && s.last() == '/' {
        trimmed_len(s.drop_last())
    } else {
        s.len()
    }
}

/// The address a request is forwarded to in development: the client server's
/// root without its trailing slashes, then the request's path and query.
pub open spec fn proxy_target(root: Seq<char>, path_and_query: Seq<char>) -> Seq<char> {
    root.subrange(0, trimmed_len(root) as int) + path_and_query
}

/// Builds the address a request is forwarded to in development.
pub fn proxy_uri(root: &str, path_and_query: &str) -> (r: String)
    ensures
        r@ == proxy_target(root@, path_and_query@),
{
    let n = root.unicode_len();
    let mut end: usize = n;
    assert(root@.subrange(0, n as int) =~= root@);
    while end > 0 && root.get_char(end - 1) == '/'
        invariant
            n == root@.len(),
            end <= n,
            trimmed_len(root@) == trimmed_len(root@.subrange(0, end as int)),
        decreases end,
    {
        assert(root@.subrange(0, end as int).drop_last() =~= root@.subrange(0, end - 1));
        end = end - 1;
    }
    assert(trimmed_len(root@.subrange(0, end as int)) == end);
    let base = root.substring_char(0, end);
    let target = String::from_str(base);
    target.concat(path_and_query)
}

} // verus!
