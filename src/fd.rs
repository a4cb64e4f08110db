//! Counts of open file descriptors, from the number of entries in a directory
//! listing of `/proc/<pid>/fd`, as `readdir` returns it: `.` and `..` included.

use vstd::prelude::*;

verus! {

/// Entries of a directory listing that are no descriptors: `.` and `..`.
pub const LISTING_EXTRA_ENTRIES: usize = 2;

/// `a - b`, or zero when `b` is the larger.
pub open spec fn saturating_diff(a: int, b: int) -> int {
    if a >= b {
        a - b
    } else {
        0
    }
}

/// The open descriptors of a process, from the number of entries listed in its
/// descriptor directory.
pub fn fd_count_pid(listed: usize) -> (r: usize)
    ensures
        r == saturating_diff(listed as int, LISTING_EXTRA_ENTRIES as int),
{
    listed.saturating_sub(LISTING_EXTRA_ENTRIES)
}

/// The open descriptors of the current process, from the number of entries listed
/// in its own descriptor directory; the descriptor that the listing holds open
/// while it runs is not counted.
pub fn fd_count_cur(listed: usize) -> (r: usize)
    ensures
        r == saturating_diff(listed as int, LISTING_EXTRA_ENTRIES + 1),
{
    listed.saturating_sub(LISTING_EXTRA_ENTRIES + 1)
}

} // verus!
