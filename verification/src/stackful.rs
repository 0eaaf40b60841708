//! The verified half of the stackful backend. The traversal itself runs as
//! ordinary recursive code on a separately allocated stack, and suspension
//! is a raw context swap — privileged mechanics that live outside this
//! library behind a narrow boundary. What crosses that boundary is a single
//! machine word per swap; this module fixes a tagged encoding of the
//! driver-facing outcome into that word, so that completion is carried as a
//! tag rather than a reserved leaf value and no legitimate value can
//! masquerade as "done". It also gives the driver side its misuse guard.

use vstd::prelude::*;

use crate::driver::{DriverMisuse, Step};

verus! {

/// The word that crosses the stack boundary for a given outcome: a produced
/// value `v` travels as twice its offset from the smallest value, plus one;
/// completion travels as zero. Every produced code is odd, so the two cases
/// can never collide.
pub open spec fn transfer_code(s: Step) -> u64 {
    match s {
        Step::Produced(v) => (2 * (v + 0x8000_0000) + 1) as u64,
        Step::Finished => 0,
    }
}

/// The outcome a received word stands for, if any: zero is completion, an
/// odd word inside the value range is a produced value, anything else is
/// not a code at all.
pub open spec fn transfer_step(d: u64) -> Option<Step> {
    if d == 0 {
        Some(Step::Finished)
    } else if d % 2 == 1 && d <= 0x1_ffff_ffff {
        Some(Step::Produced((((d - 1) / 2) - 0x8000_0000) as i32))
    } else {
        None
    }
}

/// Encode one outcome as the word to hand to the context swap.
pub fn encode_step(s: &Step) -> (d: u64)
    ensures
        d == transfer_code(*s),
{
    match s {
        Step::Produced(v) => {
            let off: i64 = (*v as i64) + 0x8000_0000i64;
            (off as u64) * 2 + 1
        },
        Step::Finished => 0,
    }
}

/// Decode the word that came back from a context swap. `None` means the
/// word is not a code the traversal side can send.
pub fn decode_transfer(d: u64) -> (s: Option<Step>)
    ensures
        s == transfer_step(d),
{
    if d == 0 {
        Some(Step::Finished)
    } else if d % 2 == 1 && d <= 0x1_ffff_ffffu64 {
        let off: u64 = (d - 1) / 2;
        let v: i64 = (off as i64) - 0x8000_0000i64;
        Some(Step::Produced(v as i32))
    } else {
        None
    }
}

/// The encoding is lossless and collision-free: decoding the code of any
/// outcome gives that outcome back, and no produced value's code equals the
/// completion code. Completion is therefore distinguishable from every
/// legitimate leaf value by construction.
pub proof fn lemma_transfer_round_trip(s: Step)
    ensures
        transfer_step(transfer_code(s)) == Some(s),
        s is Produced ==> transfer_code(s) != transfer_code(Step::Finished),
{
}

/// The driver side of the stackful backend: tracks whether completion has
/// been observed, so that resuming the coroutine past its end is answered
/// with the driver-misuse fault instead of another swap.
pub struct StackfulDriver {
    done: bool,
}

impl StackfulDriver {
    /// Whether completion has been observed.
    pub closed spec fn is_done(self) -> bool {
        self.done
    }

    /// A fresh driver: nothing observed yet.
    pub fn begin() -> (d: StackfulDriver)
        ensures
            !d.is_done(),
    {
        StackfulDriver { done: false }
    }

    /// Record one decoded outcome. After completion has been observed once,
    /// every further call is the driver-misuse fault and changes nothing.
    pub fn observe(&mut self, s: Step) -> (r: Result<Step, DriverMisuse>)
        ensures
            old(self).is_done() ==> r == Result::<Step, DriverMisuse>::Err(DriverMisuse)
                && *final(self) == *old(self),
            !old(self).is_done() ==> {
                &&& r == Result::<Step, DriverMisuse>::Ok(s)
                &&& final(self).is_done() <==> s is Finished
            },
    {
        if self.done {
            Err(DriverMisuse)
        } else {
            if let Step::Finished = s {
                self.done = true;
            }
            Ok(s)
        }
    }
}

} // verus!
