//! Thread placement for the blocking operations of a wgpu device.
//!
//! Every bridged operation is classified by the ownership shape of its
//! signature: blocking operations whose inputs can all be owned and whose
//! result does not borrow from the call are packaged as [`job::Job`] values
//! for a worker thread; other blocking ones are [`pinned::PinnedCall`]
//! values that stay on the calling thread; the rest run directly.
//! [`outcome::settle`] hands a worker's result, or its panic payload, back to
//! the awaiting task.

mod handles;

pub mod dispatch;
pub mod immediate;
pub mod job;
pub mod outcome;
pub mod pinned;
pub mod scope;
