//! Joining of filesystem paths, as the cgroup hierarchy uses them.

use vstd::prelude::*;

verus! {

/// `base/name`: a relative component joined under a base path with a
/// single separator.
pub open spec fn path_join(base: Seq<char>, name: Seq<char>) -> Seq<char> {
    base + "/"@ + name
}

/// Joins `name` under `base`.
pub fn join_path(base: &str, name: &str) -> (r: String)
    ensures
        r@ == path_join(base@, name@),
{
    String::from_str(base).concat("/").concat(name)
}

} // verus!
