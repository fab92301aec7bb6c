//! The rules of the walk through the directory tree.

use vstd::prelude::*;

verus! {

/// The walk stays on the file system of the directory it starts in.
pub const SAME_FILE_SYSTEM: bool = true;

/// The walk follows no symbolic link.
pub const FOLLOW_LINKS: bool = false;

/// Whether an entry that cannot be read ends the run. Only the directory
/// that the walk starts in, at depth 0, does; any entry below it is passed
/// over.
pub open spec fn is_fatal(depth: nat) -> bool {
    depth == 0
}

/// Decides whether an entry at the given depth that cannot be read ends the
/// run.
pub fn ends_the_run(depth: usize) -> (fatal: bool)
    ensures
        fatal == is_fatal(depth as nat),
{
    depth == 0
}

} // verus!
