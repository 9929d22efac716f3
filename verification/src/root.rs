//! The isolated root: the directory that becomes the launcher's filesystem
//! root, and what it must hold before it does.

use vstd::prelude::*;
use vstd::string::*;

verus! {

/// The isolated root of a launcher that is given no other.
pub const DEFAULT_ROOT: &'static str = "/tmp/codecrafters";

/// The directory of the isolated root that receives the helper binary.
pub const BIN_DIRECTORY: &'static str = "/usr/local/bin";

/// The placeholder that the isolated root holds for the null device.
pub const NULL_DEVICE: &'static str = "/dev/null";

/// Where the helper binary lies on the host. Inside the isolated root it
/// lies at the same path.
pub const HELPER: &'static str = "/usr/local/bin/docker-explorer";

/// What stands between [`DEFAULT_ROOT`] and the token of an isolated root
/// that belongs to one invocation.
pub const ROOT_SEPARATOR: &'static str = "-";

/// The isolated root of the invocation that `token` stands for.
pub open spec fn root_of(token: Seq<char>) -> Seq<char> {
    DEFAULT_ROOT@ + ROOT_SEPARATOR@ + token
}

/// Builds the isolated root of one invocation from a token that no other
/// invocation has, so that two launchers never share a root.
pub fn root_for(token: &str) -> (r: String)
    ensures
        r@ == root_of(token@),
{
    let mut r = DEFAULT_ROOT.to_owned();
    r.append(ROOT_SEPARATOR);
    r.append(token);
    r
}

/// Invocations with different tokens have different isolated roots.
pub proof fn lemma_roots_differ(a: Seq<char>, b: Seq<char>)
    requires
        a != b,
    ensures
        root_of(a) != root_of(b),
{
    let prefix = DEFAULT_ROOT@ + ROOT_SEPARATOR@;
    if root_of(a) == root_of(b) {
        assert(root_of(a).subrange(prefix.len() as int, root_of(a).len() as int) =~= a);
        assert(root_of(b).subrange(prefix.len() as int, root_of(b).len() as int) =~= b);
    }
}

/// The path `inner`, which starts with a slash, below the directory `root`.
pub open spec fn below(root: Seq<char>, inner: Seq<char>) -> Seq<char> {
    root + inner
}

/// Builds the path of `inner` below `root`.
pub fn path_below(root: &str, inner: &str) -> (r: String)
    ensures
        r@ == below(root@, inner@),
{
    let mut r = root.to_owned();
    r.append(inner);
    r
}

} // verus!
