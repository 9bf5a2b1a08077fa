//! The watch lists, the poll that works on their copies, and its result.
use vstd::prelude::*;

use crate::sys::unix::{self, args_of, max_after_add, timeval_of, FdSet, RawFd, SelectArgs, TimeVal, FD_LIMIT};
use crate::sys::{model_add, model_empty, select_outcome, SelectError, SetModel};

verus! {

/// One change to a selector's watch lists.
pub enum WatchOp {
    AddRead(RawFd),
    AddWrite(RawFd),
    ClearRead,
    ClearWrite,
}

/// The abstract state of a selector: its read and write watch lists.
pub type SelectorModel = (SetModel<RawFd>, SetModel<RawFd>);

/// The state after `op`.
pub open spec fn apply(m: SelectorModel, op: WatchOp) -> SelectorModel {
    match op {
        WatchOp::AddRead(fd) => (model_add(m.0, fd), m.1),
        WatchOp::AddWrite(fd) => (m.0, model_add(m.1, fd)),
        WatchOp::ClearRead => (model_empty(), m.1),
        WatchOp::ClearWrite => (m.0, model_empty()),
    }
}

/// The state after the changes `ops`, in order.
pub open spec fn run(m: SelectorModel, ops: Seq<WatchOp>) -> SelectorModel
    decreases ops.len(),
{
    if ops.len() == 0 {
        m
    } else {
        apply(run(m, ops.drop_last()), ops.last())
    }
}

/// The members of a watch list that a poll reports ready, given the
/// descriptors that the native call left flagged in its copy.
pub open spec fn poll_ready(watched: SetModel<RawFd>, flagged: Set<RawFd>) -> Set<RawFd> {
    watched.0.intersect(flagged)
}

/// The outcome of one poll: the native ready count, and the members of each
/// watch list that were reported ready.
pub struct SelectResult {
    count: usize,
    read: FdSet,
    write: FdSet,
}

impl SelectResult {
    /// The ready count that the native call reported.
    pub closed spec fn spec_len(&self) -> nat {
        self.count as nat
    }

    /// The descriptors reported ready for reading.
    pub closed spec fn read_ready(&self) -> Set<RawFd> {
        self.read@.0
    }

    /// The descriptors reported ready for writing.
    pub closed spec fn write_ready(&self) -> Set<RawFd> {
        self.write@.0
    }

    /// Total number of ready descriptors, as the native call counted them.
    pub fn len(&self) -> (r: usize)
        ensures
            r == self.spec_len(),
    {
        self.count
    }

    /// Whether `fd` is ready for reading.
    pub fn is_read(&self, fd: RawFd) -> (r: bool)
        ensures
            r == self.read_ready().contains(fd),
    {
        self.read.is_present(fd)
    }

    /// Whether `fd` is ready for writing.
    pub fn is_write(&self, fd: RawFd) -> (r: bool)
        ensures
            r == self.write_ready().contains(fd),
    {
        self.write.is_present(fd)
    }
}

/// A poll that is ready to be made: copies of both watch lists and the
/// arguments of the native call.
///
/// The caller makes the native call with `args()` on copies of
/// `read_set()` and `write_set()`, then hands what it reported to
/// `complete`.
pub struct SelectCall {
    read: FdSet,
    write: FdSet,
    args: SelectArgs,
}

impl SelectCall {
    /// The copy of the read watch list.
    pub closed spec fn watched_read(&self) -> FdSet {
        self.read
    }

    /// The copy of the write watch list.
    pub closed spec fn watched_write(&self) -> FdSet {
        self.write
    }

    /// The arguments of the native call.
    pub closed spec fn spec_args(&self) -> SelectArgs {
        self.args
    }

    /// The call's invariant.
    pub closed spec fn wf(&self) -> bool {
        self.read.wf() && self.write.wf()
    }

    /// The arguments of the native call.
    pub fn args(&self) -> (r: SelectArgs)
        ensures
            r == self.spec_args(),
    {
        self.args
    }

    /// The read set to hand to the native call.
    pub fn read_set(&self) -> (r: &FdSet)
        ensures
            *r == self.watched_read(),
    {
        &self.read
    }

    /// The write set to hand to the native call.
    pub fn write_set(&self) -> (r: &FdSet)
        ensures
            *r == self.watched_write(),
    {
        &self.write
    }

    /// Builds the poll's result from what the native call reported: its
    /// return value `ret`, the platform's last error code `errno`, and the
    /// descriptors it left flagged in each set.
    ///
    /// Only watched descriptors can be reported ready; the ready count is
    /// passed through as it came.
    pub fn complete(self, ret: i32, errno: i32, read_ready: &FdSet, write_ready: &FdSet) -> (r:
        Result<SelectResult, SelectError>)
        requires
            self.wf(),
        ensures
            r is Ok <==> ret >= 0,
            r is Err ==> r->Err_0 == SelectError::Os(errno),
            r is Ok ==> {
                let res = r->Ok_0;
                &&& res.spec_len() == ret
                &&& res.read_ready() == poll_ready(self.watched_read()@, read_ready@.0)
                &&& res.write_ready() == poll_ready(self.watched_write()@, write_ready@.0)
            },
    {
        match select_outcome(ret, errno) {
            Ok(count) => {
                let mut read = self.read;
                let mut write = self.write;
                read.retain(read_ready);
                write.retain(write_ready);
                Ok(SelectResult { count, read, write })
            },
            Err(e) => Err(e),
        }
    }
}

/// A pair of watch lists, one for reading and one for writing.
///
/// Polling never changes the watch lists: every poll works on copies.
#[derive(Clone, Copy)]
pub struct Selector {
    read: FdSet,
    write: FdSet,
}

impl View for Selector {
    type V = SelectorModel;

    open spec fn view(&self) -> SelectorModel {
        (self.reads()@, self.writes()@)
    }
}

impl Selector {
    /// The read watch list.
    pub closed spec fn reads(&self) -> FdSet {
        self.read
    }

    /// The write watch list.
    pub closed spec fn writes(&self) -> FdSet {
        self.write
    }

    /// The selector's invariant.
    pub closed spec fn wf(&self) -> bool {
        self.read.wf() && self.write.wf()
    }

    /// Creates a selector that watches nothing.
    pub fn new() -> (s: Selector)
        ensures
            s.wf(),
            s@ == (model_empty::<RawFd>(), model_empty::<RawFd>()),
            s.reads().spec_max_fd() == 0,
            s.writes().spec_max_fd() == 0,
    {
        Selector { read: FdSet::new(), write: FdSet::new() }
    }

    /// Watches `fd` for reading. The read list must hold fewer than
    /// `FD_LIMIT` adds.
    pub fn add_read(&mut self, fd: RawFd)
        requires
            old(self).wf(),
            0 <= fd < FD_LIMIT,
            old(self)@.0.1 < FD_LIMIT,
        ensures
            final(self).wf(),
            final(self)@ == apply(old(self)@, WatchOp::AddRead(fd)),
            final(self).reads().spec_max_fd() == max_after_add(old(self).reads().spec_max_fd(), fd),
            final(self).writes() == old(self).writes(),
    {
        self.read.add(fd);
    }

    /// Watches `fd` for writing. The write list must hold fewer than
    /// `FD_LIMIT` adds.
    pub fn add_write(&mut self, fd: RawFd)
        requires
            old(self).wf(),
            0 <= fd < FD_LIMIT,
            old(self)@.1.1 < FD_LIMIT,
        ensures
            final(self).wf(),
            final(self)@ == apply(old(self)@, WatchOp::AddWrite(fd)),
            final(self).writes().spec_max_fd() == max_after_add(old(self).writes().spec_max_fd(), fd),
            final(self).reads() == old(self).reads(),
    {
        self.write.add(fd);
    }

    /// The number of adds to the read list since it was last cleared.
    pub fn read_len(&self) -> (r: usize)
        ensures
            r == self@.0.1,
    {
        self.read.len()
    }

    /// The number of adds to the write list since it was last cleared.
    pub fn write_len(&self) -> (r: usize)
        ensures
            r == self@.1.1,
    {
        self.write.len()
    }

    /// Stops watching anything for reading.
    pub fn clear_read(&mut self)
        requires
            old(self).wf(),
        ensures
            final(self).wf(),
            final(self)@ == apply(old(self)@, WatchOp::ClearRead),
            final(self).reads().spec_max_fd() == 0,
            final(self).writes() == old(self).writes(),
    {
        self.read.clear();
    }

    /// Stops watching anything for writing.
    pub fn clear_write(&mut self)
        requires
            old(self).wf(),
        ensures
            final(self).wf(),
            final(self)@ == apply(old(self)@, WatchOp::ClearWrite),
            final(self).writes().spec_max_fd() == 0,
            final(self).reads() == old(self).reads(),
    {
        self.write.clear();
    }

    fn prepare(&self, args: SelectArgs) -> (c: SelectCall)
        requires
            self.wf(),
        ensures
            c.wf(),
            c.watched_read() == self.reads(),
            c.watched_write() == self.writes(),
            c.spec_args() == args,
    {
        SelectCall { read: self.read, write: self.write, args }
    }

    /// Prepares a poll that blocks until a watched descriptor is ready.
    pub fn select(&self) -> (c: SelectCall)
        requires
            self.wf(),
        ensures
            c.wf(),
            c.watched_read() == self.reads(),
            c.watched_write() == self.writes(),
            c.spec_args() == args_of(self.reads(), self.writes(), None),
    {
        let args = unix::select(&self.read, &self.write);
        self.prepare(args)
    }

    /// Prepares a poll that returns at once: its timeout is zero.
    pub fn try_select(&self) -> (c: SelectCall)
        requires
            self.wf(),
        ensures
            c.wf(),
            c.watched_read() == self.reads(),
            c.watched_write() == self.writes(),
            c.spec_args() == args_of(
                self.reads(),
                self.writes(),
                Some(TimeVal { tv_sec: 0, tv_usec: 0 }),
            ),
    {
        let zero = TimeVal { tv_sec: 0, tv_usec: 0 };
        let args = unix::select_with(&self.read, &self.write, Some(zero));
        self.prepare(args)
    }

    /// Prepares a poll that blocks at most `secs` seconds and
    /// `subsec_micros` microseconds. Fails with `InvalidInput`, making no
    /// poll, where the seconds do not fit the native timeout.
    pub fn select_timeout(&self, secs: u64, subsec_micros: u32) -> (r: Result<SelectCall, SelectError>)
        requires
            self.wf(),
            subsec_micros < 1_000_000,
        ensures
            r is Ok <==> timeval_of(secs, subsec_micros) is Some,
            r is Err ==> r->Err_0 == SelectError::InvalidInput,
            r is Ok ==> {
                let c = r->Ok_0;
                &&& c.wf()
                &&& c.watched_read() == self.reads()
                &&& c.watched_write() == self.writes()
                &&& c.spec_args() == args_of(
                    self.reads(),
                    self.writes(),
                    timeval_of(secs, subsec_micros),
                )
            },
    {
        match unix::select_timeout(&self.read, &self.write, secs, subsec_micros) {
            Ok(args) => Ok(self.prepare(args)),
            Err(e) => Err(e),
        }
    }
}

} // verus!
