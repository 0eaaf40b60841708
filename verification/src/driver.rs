//! The contract every backend presents to the driver loop: each resume
//! yields either one produced leaf value or the completion signal, and
//! driving a backend past completion is a misuse fault.

use vstd::prelude::*;

verus! {

/// The outcome of one resume of a backend: one leaf value, in traversal
/// order, or the signal that the traversal is complete. Completion is a
/// tagged case of its own, never a reserved value, so no legitimate leaf
/// value can collide with it.
#[derive(Clone, Copy, Debug, PartialEq, Eq, Structural)]
pub enum Step {
    Produced(i32),
    Finished,
}

/// The driver-misuse fault: a backend was driven again after it reported
/// `Finished`. Fatal by design; a faulted backend never hands out stale or
/// garbage data.
#[derive(Clone, Copy, Debug, PartialEq, Eq, Structural)]
pub struct DriverMisuse;

} // verus!
