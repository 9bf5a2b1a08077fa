//! The array form of a readiness set, laid out as the Winsock `fd_set`: a
//! count followed by a fixed number of socket slots.
use vstd::prelude::*;

use crate::sys::{model_add, model_empty, SelectError, SetModel};

verus! {

/// A native socket handle.
pub type RawFd = u64;

/// Capacity of one array set.
pub const FD_LIMIT: usize = 64;

/// The largest whole-second count the native timeout field holds.
pub const MAX_TIMEOUT_SECS: u64 = 2147483647;

/// The native timeout: whole seconds and microseconds, each a C `long`.
#[derive(Clone, Copy, Debug, PartialEq, Eq, Structural)]
pub struct TimeVal {
    pub tv_sec: i32,
    pub tv_usec: i32,
}

/// The native timeout for a duration, or `None` where its seconds do not fit.
pub open spec fn timeval_of(secs: u64, subsec_micros: u32) -> Option<TimeVal> {
    if secs <= MAX_TIMEOUT_SECS {
        Some(TimeVal { tv_sec: secs as i32, tv_usec: subsec_micros as i32 })
    } else {
        None
    }
}

/// Converts a duration, given as whole seconds and the microseconds of the
/// remaining fraction, into the native timeout.
pub fn to_timeval(secs: u64, subsec_micros: u32) -> (r: Result<TimeVal, SelectError>)
    requires
        subsec_micros < 1_000_000,
    ensures
        r is Ok <==> timeval_of(secs, subsec_micros) is Some,
        r is Ok ==> Some(r->Ok_0) == timeval_of(secs, subsec_micros),
        r is Err ==> r->Err_0 == SelectError::InvalidInput,
{
    if secs > MAX_TIMEOUT_SECS {
        Err(SelectError::InvalidInput)
    } else {
        Ok(TimeVal { tv_sec: secs as i32, tv_usec: subsec_micros as i32 })
    }
}

/// A readiness set kept as the sockets added, in order, in a fixed slot
/// array.
#[derive(Clone, Copy)]
pub struct FdSet {
    count: u32,
    fds: [RawFd; 64],
}

impl View for FdSet {
    type V = SetModel<RawFd>;

    closed spec fn view(&self) -> SetModel<RawFd> {
        (self.fds@.take(self.count as int).to_set(), self.count as nat)
    }
}

impl FdSet {
    /// The sockets in the occupied slots, in the order they were added.
    pub closed spec fn slots(&self) -> Seq<RawFd> {
        self.fds@.take(self.count as int)
    }

    /// The set's internal invariant: the count fits the slots, and every
    /// unoccupied slot holds zero.
    pub closed spec fn wf(&self) -> bool {
        &&& self.count <= FD_LIMIT
        &&& forall|j: int| self.count <= j < FD_LIMIT ==> #[trigger] self.fds@[j] == 0
    }

    /// Creates an empty set.
    pub fn new() -> (s: FdSet)
        ensures
            s.wf(),
            s@ == model_empty::<RawFd>(),
    {
        let s = FdSet { count: 0, fds: [0u64; 64] };
        proof {
            assert(s.fds@.take(0) =~= Seq::<RawFd>::empty());
            assert(s@.0 =~= Set::empty());
        }
        s
    }

    /// Stores `fd` in the next free slot.
    pub fn add(&mut self, fd: RawFd)
        requires
            old(self).wf(),
            old(self)@.1 < FD_LIMIT,
        ensures
            final(self).wf(),
            final(self)@ == model_add(old(self)@, fd),
            final(self).slots() == old(self).slots().push(fd),
    {
        let idx = self.count as usize;
        self.fds[idx] = fd;
        self.count = self.count + 1;
        proof {
            assert(self.fds@.take(self.count as int) =~= old(self).fds@.take(old(self).count as int).push(fd));
            old(self).fds@.take(old(self).count as int).lemma_push_to_set_commute(fd);
        }
    }

    /// Empties the set, zeroing exactly the occupied slots.
    pub fn clear(&mut self)
        requires
            old(self).wf(),
        ensures
            final(self).wf(),
            final(self)@ == model_empty::<RawFd>(),
    {
        let n = self.count as usize;
        let mut i: usize = 0;
        while i < n
            invariant
                0 <= i <= n,
                n == self.count,
                n <= FD_LIMIT,
                forall|j: int| 0 <= j < i ==> #[trigger] self.fds@[j] == 0,
                forall|j: int| n <= j < FD_LIMIT ==> #[trigger] self.fds@[j] == 0,
            decreases n - i,
        {
            self.fds[i] = 0;
            i = i + 1;
        }
        self.count = 0;
        proof {
            assert(self.fds@.take(0) =~= Seq::<RawFd>::empty());
            assert(self@.0 =~= Set::empty());
        }
    }

    /// The number of occupied slots.
    pub fn len(&self) -> (r: usize)
        ensures
            r == self@.1,
    {
        self.count as usize
    }

    /// Whether `fd` is in an occupied slot.
    pub fn is_present(&self, fd: RawFd) -> (r: bool)
        requires
            self.wf(),
        ensures
            r == self@.0.contains(fd),
    {
        let n = self.count as usize;
        let mut i: usize = 0;
        while i < n
            invariant
                0 <= i <= n,
                n == self.count,
                n <= FD_LIMIT,
                forall|j: int| 0 <= j < i ==> #[trigger] self.fds@[j] != fd,
            decreases n - i,
        {
            if self.fds[i] == fd {
                proof {
                    assert(self.slots()[i as int] == fd);
                }
                return true;
            }
            i = i + 1;
        }
        proof {
            assert(!self.slots().contains(fd));
        }
        false
    }
}

/// The arguments of one native call. The descriptor count is ignored by
/// the native call and not kept; a direction with no members is passed as
/// an absent set, and an absent timeout blocks without bound.
#[derive(Clone, Copy, Debug)]
pub struct SelectArgs {
    pub watch_read: bool,
    pub watch_write: bool,
    pub watch_except: bool,
    pub timeout: Option<TimeVal>,
}

/// The arguments for polling `read`, `write` and `except` with `timeout`.
pub open spec fn args_of(read: FdSet, write: FdSet, except: FdSet, timeout: Option<TimeVal>) -> SelectArgs {
    SelectArgs {
        watch_read: read@.1 > 0,
        watch_write: write@.1 > 0,
        watch_except: except@.1 > 0,
        timeout,
    }
}

/// The arguments for a native call that blocks until a member of one of
/// the sets is ready.
pub fn select(read: &FdSet, write: &FdSet, except: &FdSet) -> (r: SelectArgs)
    ensures
        r == args_of(*read, *write, *except, None),
{
    SelectArgs {
        watch_read: read.len() > 0,
        watch_write: write.len() > 0,
        watch_except: except.len() > 0,
        timeout: None,
    }
}

/// The arguments for a native call that blocks at most `secs` seconds and
/// `subsec_micros` microseconds; a zero duration is passed as a zero
/// timeout, never as an absent one.
pub fn select_timeout(
    read: &FdSet,
    write: &FdSet,
    except: &FdSet,
    secs: u64,
    subsec_micros: u32,
) -> (r: Result<SelectArgs, SelectError>)
    requires
        subsec_micros < 1_000_000,
    ensures
        r is Ok <==> secs <= MAX_TIMEOUT_SECS,
        r is Ok ==> r->Ok_0 == args_of(*read, *write, *except, timeval_of(secs, subsec_micros)),
        r is Err ==> r->Err_0 == SelectError::InvalidInput,
{
    match to_timeval(secs, subsec_micros) {
        Ok(tv) => Ok(
            SelectArgs {
                watch_read: read.len() > 0,
                watch_write: write.len() > 0,
                watch_except: except.len() > 0,
                timeout: Some(tv),
            },
        ),
        Err(e) => Err(e),
    }
}

} // verus!
