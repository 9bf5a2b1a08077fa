//! The bitmask form of a readiness set, laid out as the native `fd_set`.
use vstd::prelude::*;

use crate::sys::{model_add, model_empty, SelectError, SetModel};

verus! {

/// A native descriptor.
pub type RawFd = i32;

/// Capacity of one bitmask set: the native descriptor-set size.
pub const FD_LIMIT: usize = 1024;

/// Number of 64-bit words in the bitmask.
pub const FD_WORDS: usize = 16;

/// The largest whole-second count the native timeout field holds.
pub const MAX_TIMEOUT_SECS: u64 = 9223372036854775807;

/// The native timeout: whole seconds and microseconds.
#[derive(Clone, Copy, Debug, PartialEq, Eq, Structural)]
pub struct TimeVal {
    pub tv_sec: i64,
    pub tv_usec: i64,
}

/// The native timeout for a duration, or `None` where its seconds do not fit.
pub open spec fn timeval_of(secs: u64, subsec_micros: u32) -> Option<TimeVal> {
    if secs <= MAX_TIMEOUT_SECS {
        Some(TimeVal { tv_sec: secs as i64, tv_usec: subsec_micros as i64 })
    } else {
        None
    }
}

/// Converts a duration, given as whole seconds and the microseconds of the
/// remaining fraction, into the native timeout.
pub fn to_timeval(secs: u64, subsec_micros: u32) -> (r: Result<TimeVal, SelectError>)
    requires
        subsec_micros < 1_000_000,
    ensures
        r is Ok <==> timeval_of(secs, subsec_micros) is Some,
        r is Ok ==> Some(r->Ok_0) == timeval_of(secs, subsec_micros),
        r is Err ==> r->Err_0 == SelectError::InvalidInput,
{
    if secs > MAX_TIMEOUT_SECS {
        Err(SelectError::InvalidInput)
    } else {
        Ok(TimeVal { tv_sec: secs as i64, tv_usec: subsec_micros as i64 })
    }
}

/// The arguments of one native call. A direction that is not watched is
/// passed as an absent set; an absent timeout blocks without bound.
#[derive(Clone, Copy, Debug)]
pub struct SelectArgs {
    pub nfds: i32,
    pub watch_read: bool,
    pub watch_write: bool,
    pub timeout: Option<TimeVal>,
}

/// The arguments for polling `read` and `write` with `timeout`.
pub open spec fn args_of(read: FdSet, write: FdSet, timeout: Option<TimeVal>) -> SelectArgs {
    let top = if read.spec_max_fd() > write.spec_max_fd() {
        read.spec_max_fd()
    } else {
        write.spec_max_fd()
    };
    SelectArgs {
        nfds: (top + 1) as i32,
        watch_read: read@.1 > 0,
        watch_write: write@.1 > 0,
        timeout,
    }
}

/// The arguments for polling `read` and `write` with an already converted
/// timeout; `None` blocks without bound.
pub fn select_with(read: &FdSet, write: &FdSet, timeout: Option<TimeVal>) -> (r: SelectArgs)
    requires
        read.wf(),
        write.wf(),
    ensures
        r == args_of(*read, *write, timeout),
        forall|fd: RawFd| read@.0.contains(fd) || write@.0.contains(fd) ==> 0 <= fd < r.nfds,
        0 < r.nfds <= FD_LIMIT,
{
    let top = if read.max_fd > write.max_fd {
        read.max_fd
    } else {
        write.max_fd
    };
    SelectArgs { nfds: top + 1, watch_read: read.count > 0, watch_write: write.count > 0, timeout }
}

/// The arguments for a native call that blocks until a member of `read` or
/// `write` is ready.
pub fn select(read: &FdSet, write: &FdSet) -> (r: SelectArgs)
    requires
        read.wf(),
        write.wf(),
    ensures
        r == args_of(*read, *write, None),
        forall|fd: RawFd| read@.0.contains(fd) || write@.0.contains(fd) ==> 0 <= fd < r.nfds,
{
    select_with(read, write, None)
}

/// The arguments for a native call that blocks at most `secs` seconds and
/// `subsec_micros` microseconds; a zero duration is passed as a zero
/// timeout, never as an absent one.
pub fn select_timeout(read: &FdSet, write: &FdSet, secs: u64, subsec_micros: u32) -> (r: Result<
    SelectArgs,
    SelectError,
>)
    requires
        read.wf(),
        write.wf(),
        subsec_micros < 1_000_000,
    ensures
        r is Ok <==> secs <= MAX_TIMEOUT_SECS,
        r is Ok ==> r->Ok_0 == args_of(*read, *write, timeval_of(secs, subsec_micros)),
        r is Err ==> r->Err_0 == SelectError::InvalidInput,
        r is Ok ==> forall|fd: RawFd| read@.0.contains(fd) || write@.0.contains(fd) ==> 0 <= fd < r->Ok_0.nfds,
{
    match to_timeval(secs, subsec_micros) {
        Ok(tv) => Ok(select_with(read, write, Some(tv))),
        Err(e) => Err(e),
    }
}

/// The highest descriptor after `fd` is added to a set whose highest
/// descriptor was `top`.
pub open spec fn max_after_add(top: RawFd, fd: RawFd) -> RawFd {
    if fd > top {
        fd
    } else {
        top
    }
}

/// Whether bit `b` of `w` is set.
pub open spec fn bit_of(w: u64, b: u64) -> bool {
    (w >> b) & 1u64 == 1u64
}

/// Whether descriptor `fd` is flagged in `bits`.
pub open spec fn flagged(bits: [u64; 16], fd: int) -> bool {
    0 <= fd < FD_LIMIT && bit_of(bits[fd / 64], (fd % 64) as u64)
}

proof fn lemma_bit_set(w: u64, b: u64)
    requires
        b < 64,
    ensures
        bit_of(w | (1u64 << b), b),
        forall|c: u64| c < 64 && c != b ==> #[trigger] bit_of(w | (1u64 << b), c) == bit_of(w, c),
{
    assert(bit_of(w | (1u64 << b), b)) by (bit_vector)
        requires
            b < 64,
    ;
    assert forall|c: u64| c < 64 && c != b implies #[trigger] bit_of(w | (1u64 << b), c) == bit_of(
        w,
        c,
    ) by {
        assert(bit_of(w | (1u64 << b), c) == bit_of(w, c)) by (bit_vector)
            requires
                b < 64,
                c < 64,
                c != b,
        ;
    }
}

proof fn lemma_bit_and(x: u64, y: u64)
    ensures
        forall|c: u64| c < 64 ==> #[trigger] bit_of(x & y, c) == (bit_of(x, c) && bit_of(y, c)),
{
    assert forall|c: u64| c < 64 implies #[trigger] bit_of(x & y, c) == (bit_of(x, c) && bit_of(
        y,
        c,
    )) by {
        assert(bit_of(x & y, c) == (bit_of(x, c) && bit_of(y, c))) by (bit_vector)
            requires
                c < 64,
        ;
    }
}

proof fn lemma_bit_zero()
    ensures
        forall|c: u64| c < 64 ==> !#[trigger] bit_of(0u64, c),
{
    assert forall|c: u64| c < 64 implies !#[trigger] bit_of(0u64, c) by {
        assert(!bit_of(0u64, c)) by (bit_vector);
    }
}

/// A readiness set kept as a bitmask indexed by descriptor value.
#[derive(Clone, Copy)]
pub struct FdSet {
    max_fd: RawFd,
    count: usize,
    bits: [u64; 16],
}

impl View for FdSet {
    type V = SetModel<RawFd>;

    closed spec fn view(&self) -> SetModel<RawFd> {
        (Set::new(|fd: RawFd| flagged(self.bits, fd as int)), self.count as nat)
    }
}

impl FdSet {
    /// The highest descriptor added since the set was last emptied, or 0.
    pub closed spec fn spec_max_fd(&self) -> RawFd {
        self.max_fd
    }

    /// The set's internal invariant.
    pub closed spec fn wf(&self) -> bool {
        &&& self.count <= FD_LIMIT
        &&& 0 <= self.max_fd < FD_LIMIT
        &&& forall|fd: RawFd| #[trigger] flagged(self.bits, fd as int) ==> fd <= self.max_fd
        &&& self.count == 0 ==> self.max_fd == 0 && forall|fd: RawFd|
            !#[trigger] flagged(self.bits, fd as int)
    }

    /// Creates an empty set.
    pub fn new() -> (s: FdSet)
        ensures
            s.wf(),
            s@ == model_empty::<RawFd>(),
            s.spec_max_fd() == 0,
    {
        let s = FdSet { max_fd: 0, count: 0, bits: [0, 0, 0, 0, 0, 0, 0, 0, 0, 0, 0, 0, 0, 0, 0, 0] };
        proof {
            lemma_bit_zero();
            assert(s@.0 =~= Set::empty());
        }
        s
    }

    /// Flags `fd` as a member and counts one more add.
    pub fn add(&mut self, fd: RawFd)
        requires
            old(self).wf(),
            0 <= fd < FD_LIMIT,
            old(self)@.1 < FD_LIMIT,
        ensures
            final(self).wf(),
            final(self)@ == model_add(old(self)@, fd),
            final(self).spec_max_fd() == max_after_add(old(self).spec_max_fd(), fd),
    {
        let ghost before = self.bits;
        let word: usize = (fd / 64) as usize;
        let bit: u64 = (fd % 64) as u64;
        let w = self.bits[word];
        self.bits[word] = w | (1u64 << bit);
        self.count = self.count + 1;
        if fd > self.max_fd {
            self.max_fd = fd;
        }
        proof {
            lemma_bit_set(w, bit);
            assert forall|x: RawFd| #[trigger] flagged(self.bits, x as int) == (flagged(before, x as int) || x == fd) by {
                if 0 <= x < FD_LIMIT && x / 64 == word as int {
                    assert((x % 64) as u64 != bit || x == fd);
                }
            }
            assert(self@.0 =~= old(self)@.0.insert(fd));
        }
    }

    /// Whether `fd` is flagged in the set.
    pub fn is_present(&self, fd: RawFd) -> (r: bool)
        ensures
            r == self@.0.contains(fd),
    {
        if fd < 0 || fd >= FD_LIMIT as RawFd {
            false
        } else {
            (self.bits[(fd / 64) as usize] >> ((fd % 64) as u64)) & 1u64 == 1u64
        }
    }

    /// Empties the set.
    pub fn clear(&mut self)
        ensures
            final(self).wf(),
            final(self)@ == model_empty::<RawFd>(),
            final(self).spec_max_fd() == 0,
    {
        *self = FdSet::new();
    }

    /// The number of adds since the set was created or last cleared.
    pub fn len(&self) -> (r: usize)
        ensures
            r == self@.1,
    {
        self.count
    }

    /// A copy of the set, as handed to the native call.
    pub fn raw(&self) -> (r: FdSet)
        ensures
            r == *self,
    {
        *self
    }

    /// Keeps only the members that are also members of `ready`.
    ///
    /// This turns a copy of a watch list into the set of its ready members;
    /// the count and the highest descriptor stay as they were.
    pub fn retain(&mut self, ready: &FdSet)
        requires
            old(self).wf(),
        ensures
            final(self).wf(),
            final(self)@ == (old(self)@.0.intersect(ready@.0), old(self)@.1),
            final(self).spec_max_fd() == old(self).spec_max_fd(),
    {
        let mut i: usize = 0;
        while i < FD_WORDS
            invariant
                0 <= i <= FD_WORDS,
                self.count == old(self).count,
                self.max_fd == old(self).max_fd,
                forall|j: int| 0 <= j < i ==> #[trigger] self.bits[j] == old(self).bits[j] & ready.bits[j],
                forall|j: int| i <= j < 16 ==> #[trigger] self.bits[j] == old(self).bits[j],
            decreases FD_WORDS - i,
        {
            let w = self.bits[i] & ready.bits[i];
            self.bits[i] = w;
            i = i + 1;
        }
        proof {
            assert forall|x: RawFd| #[trigger] flagged(self.bits, x as int) == (flagged(old(self).bits, x as int) && flagged(ready.bits, x as int)) by {
                if 0 <= x < FD_LIMIT {
                    let j = x / 64;
                    lemma_bit_and(old(self).bits[j as int], ready.bits[j as int]);
                }
            }
            assert(self@.0 =~= old(self)@.0.intersect(ready@.0));
        }
    }
}

} // verus!
