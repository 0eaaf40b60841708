//! The suspension channel: a single-slot mailbox through which the traversal
//! hands one leaf value at a time to its driver. The slot holds at most one
//! pending value together with a consumed flag; the traversal may not report
//! a second value before the first is taken, and the driver learns a value
//! exactly once per report.

use vstd::prelude::*;

verus! {

/// The single-slot handoff between the traversal (producer) and the driver
/// (consumer). `num` is the value in the slot; `result_taken` records
/// whether the driver has consumed it.
pub struct ResultReporter {
    pub num: i32,
    pub result_taken: bool,
}

impl Default for ResultReporter {
    /// An empty channel: no value reported yet.
    fn default() -> (r: ResultReporter)
        ensures
            r.num == 0,
            !r.result_taken,
    {
        ResultReporter { num: 0, result_taken: false }
    }
}

impl ResultReporter {
    /// The producer side: place `num` in the slot, unconsumed. The traversal
    /// calls this exactly once per leaf and then suspends until the value is
    /// taken.
    pub fn report_result(&mut self, num: i32)
        ensures
            final(self).num == num,
            !final(self).result_taken,
    {
        self.num = num;
        self.result_taken = false;
    }

    /// The consumer side: read the value in the slot and mark it consumed,
    /// which lets the suspended traversal proceed.
    pub fn take_result(&mut self) -> (num: i32)
        ensures
            num == old(self).num,
            final(self).num == old(self).num,
            final(self).result_taken,
    {
        let num = self.num;
        self.result_taken = true;
        num
    }
}

} // verus!
