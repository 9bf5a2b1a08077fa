//! Readiness polling over a bounded set of descriptors.
//!
//! A [`Selector`] keeps two watch lists, one for reading and one for writing.
//! Each poll works on copies of them, so the watch lists survive every poll
//! unchanged. The native call itself is made by the caller with the arguments
//! that a [`SelectCall`] carries; the library decides those arguments and
//! interprets what the call reported.
pub mod laws;
pub mod selector;
pub mod sys;

pub use selector::{SelectCall, SelectResult, Selector};
pub use sys::unix::{RawFd, FD_LIMIT};
pub use sys::SelectError;
