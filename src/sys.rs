//! Readiness sets of the two native flavours, and what they share.
pub mod unix;
pub mod windows;

use vstd::prelude::*;

verus! {

/// The abstract state of a readiness set: the identifiers it holds, and the
/// number of adds made since it was created or last cleared.
pub type SetModel<T> = (Set<T>, nat);

/// A readiness set that holds nothing.
pub open spec fn model_empty<T>() -> SetModel<T> {
    (Set::empty(), 0)
}

/// The state after one more identifier is added.
pub open spec fn model_add<T>(m: SetModel<T>, id: T) -> SetModel<T> {
    (m.0.insert(id), m.1 + 1)
}

/// Why a poll did not produce a result.
#[derive(Clone, Copy, Debug, PartialEq, Eq, Structural)]
pub enum SelectError {
    /// The timeout's whole seconds do not fit the native timeout field; no
    /// poll was made.
    InvalidInput,
    /// The native call failed; the platform's error code.
    Os(i32),
}

/// What a native return value and the platform's last error code mean.
pub open spec fn outcome(ret: i32, errno: i32) -> Result<usize, SelectError> {
    if ret < 0 {
        Err(SelectError::Os(errno))
    } else {
        Ok(ret as usize)
    }
}

/// Interprets the native call's return value: a negative value signals a
/// failure described by `errno`, any other value is the ready count.
pub fn select_outcome(ret: i32, errno: i32) -> (r: Result<usize, SelectError>)
    ensures
        r == outcome(ret, errno),
{
    if ret < 0 {
        Err(SelectError::Os(errno))
    } else {
        Ok(ret as usize)
    }
}

} // verus!
