//! Properties of the selector that relate several of its operations.
use vstd::prelude::*;

use crate::selector::{apply, poll_ready, run, SelectorModel, WatchOp};
use crate::sys::unix::RawFd;
use crate::sys::model_empty;

verus! {

/// The number of adds to the read list (`read`) or to the write list
/// (otherwise) among `ops` since that list was last cleared.
pub open spec fn adds_since_clear(ops: Seq<WatchOp>, read: bool) -> nat
    decreases ops.len(),
{
    if ops.len() == 0 {
        0
    } else {
        let before = adds_since_clear(ops.drop_last(), read);
        match ops.last() {
            WatchOp::AddRead(_) => if read { before + 1 } else { before },
            WatchOp::AddWrite(_) => if read { before } else { before + 1 },
            WatchOp::ClearRead => if read { 0 } else { before },
            WatchOp::ClearWrite => if read { before } else { 0 },
        }
    }
}

/// Starting from a new selector, the length of each watch list after any
/// sequence of adds and clears is the number of adds to that list since it
/// was last cleared.
pub proof fn law_len_counts_adds(ops: Seq<WatchOp>)
    ensures
        run((model_empty(), model_empty()), ops).0.1 == adds_since_clear(ops, true),
        run((model_empty(), model_empty()), ops).1.1 == adds_since_clear(ops, false),
    decreases ops.len(),
{
    if ops.len() > 0 {
        law_len_counts_adds(ops.drop_last());
    }
}

/// After the read list is cleared, no descriptor is reported ready for
/// reading, whatever the native call flagged, and the write list is as it
/// was.
pub proof fn law_clear_read(m: SelectorModel, flagged: Set<RawFd>, fd: RawFd)
    ensures
        !poll_ready(apply(m, WatchOp::ClearRead).0, flagged).contains(fd),
        apply(m, WatchOp::ClearRead).1 == m.1,
{
}

/// After the write list is cleared, no descriptor is reported ready for
/// writing, whatever the native call flagged, and the read list is as it
/// was.
pub proof fn law_clear_write(m: SelectorModel, flagged: Set<RawFd>, fd: RawFd)
    ensures
        !poll_ready(apply(m, WatchOp::ClearWrite).1, flagged).contains(fd),
        apply(m, WatchOp::ClearWrite).0 == m.0,
{
}

/// A descriptor added to the read list alone, and not flagged readable by
/// the native call, is reported neither readable nor writable.
pub proof fn law_read_only_not_ready(
    m: SelectorModel,
    fd: RawFd,
    read_flagged: Set<RawFd>,
    write_flagged: Set<RawFd>,
)
    requires
        !m.1.0.contains(fd),
        !read_flagged.contains(fd),
    ensures
        !poll_ready(apply(m, WatchOp::AddRead(fd)).0, read_flagged).contains(fd),
        !poll_ready(apply(m, WatchOp::AddRead(fd)).1, write_flagged).contains(fd),
{
}

} // verus!
