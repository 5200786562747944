//! Where each bind mount of the sandbox lands inside a workspace.
//!
//! A mount's destination is written as an absolute path of the sandbox. The
//! workspace becomes the sandbox's root, so the mount point is the
//! destination without its leading slashes, taken relative to the workspace.

use vstd::prelude::*;
use vstd::string::StrSliceExecFns;
use crate::types::Mount;

verus! {

/// How many slashes a path begins with.
pub open spec fn leading_slashes(path: Seq<char>) -> nat
    decreases path.len(),
{
    if path.len() > 0 && path[0] == '/' {
        1 + leading_slashes(path.drop_first())
    } else {
        0
    }
}

/// A path without the slashes it begins with.
pub open spec fn without_leading_slashes(path: Seq<char>) -> Seq<char> {
    path.skip(leading_slashes(path) as int)
}

/// The count of leading slashes is the one index at which a run of slashes
/// from the start of the path ends.
pub proof fn lemma_leading_slashes_unique(path: Seq<char>, k: nat)
    requires
        k <= path.len(),
        forall|j: int| 0 <= j < k ==> path[j] == '/',
        k == path.len() || path[k as int] != '/',
    ensures
        leading_slashes(path) == k,
    decreases k,
{
    if k > 0 {
        let rest = path.drop_first();
        assert forall|j: int| 0 <= j < k - 1 implies rest[j] == '/' by {
            assert(rest[j] == path[j + 1]);
        }
        lemma_leading_slashes_unique(rest, (k - 1) as nat);
    }
}

/// What is left of a path without its leading slashes does not begin with
/// a slash, and only slashes were taken away.
pub proof fn lemma_stripped_is_relative(path: Seq<char>)
    ensures
        leading_slashes(path) <= path.len(),
        forall|j: int| 0 <= j < leading_slashes(path) ==> path[j] == '/',
        without_leading_slashes(path).len() > 0 ==> without_leading_slashes(path)[0] != '/',
        leading_slashes(without_leading_slashes(path)) == 0,
    decreases path.len(),
{
    if path.len() > 0 && path[0] == '/' {
        let rest = path.drop_first();
        lemma_stripped_is_relative(rest);
        assert forall|j: int| 0 <= j < leading_slashes(path) implies path[j] == '/' by {
            if j > 0 {
                assert(path[j] == rest[j - 1]);
            }
        }
        assert(without_leading_slashes(path) =~= without_leading_slashes(rest));
    } else {
        assert(without_leading_slashes(path) =~= path);
    }
}

/// Removes the slashes that a path begins with.
pub fn strip_leading_slashes(path: &str) -> (stripped: String)
    ensures
        stripped@ == without_leading_slashes(path@),
{
    let n: usize = path.unicode_len();
    let mut k: usize = 0;
    loop
        invariant
            k <= n,
            n == path@.len(),
            forall|j: int| 0 <= j < k ==> path@[j] == '/',
        ensures
            k == n || path@[k as int] != '/',
        decreases n - k,
    {
        if k == n {
            break ;
        }
        if path.get_char(k) != '/' {
            break ;
        }
        k = k + 1;
    }
    proof {
        lemma_leading_slashes_unique(path@, k as nat);
    }
    path.substring_char(k, n).to_owned()
}

/// How a host directory is bound into the workspace.
#[derive(Clone, Copy, Debug, PartialEq, Eq, Structural)]
pub struct MountOptions {
    /// The directory is bound, not copied.
    pub bind: bool,
    /// Nothing can be written through the mount.
    pub read_only: bool,
    /// Reading a file does not update its access time.
    pub no_access_time: bool,
    /// Reading a directory does not update its access time.
    pub no_dir_access_time: bool,
}

/// The options of every mount of the sandbox: a read-only bind that
/// records no access time.
pub open spec fn sandbox_mount_options() -> MountOptions {
    MountOptions { bind: true, read_only: true, no_access_time: true, no_dir_access_time: true }
}

/// The options with which each mount of the sandbox is made.
pub fn mount_options() -> (o: MountOptions)
    ensures
        o == sandbox_mount_options(),
{
    MountOptions { bind: true, read_only: true, no_access_time: true, no_dir_access_time: true }
}

/// One bind mount, made ready for a workspace.
#[derive(Debug)]
pub struct MountTarget {
    /// The host directory.
    pub source: String,
    /// The mount point, relative to the workspace.
    pub relative_destination: String,
    pub options: MountOptions,
}

/// Where a mount of the sandbox lands in a workspace, and how.
pub fn mount_target(mount: &Mount) -> (t: MountTarget)
    ensures
        t.source@ == mount.source@,
        t.relative_destination@ == without_leading_slashes(mount.destination@),
        t.options == sandbox_mount_options(),
{
    MountTarget {
        source: mount.source.clone(),
        relative_destination: strip_leading_slashes(mount.destination.as_str()),
        options: mount_options(),
    }
}

} // verus!
