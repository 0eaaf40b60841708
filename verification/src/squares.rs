//! The explicit state-machine transformation shown on a straight-line
//! computation: summing two squares. Each state is one program point and
//! carries exactly the local variables still live there; `square_sum_step`
//! is the transition table, and an external loop drives it. This is the
//! baseline portable technique that the tree-traversal backends generalize.

use vstd::prelude::*;

verus! {

/// One case per program point of the suspended computation, each carrying
/// its live locals. Exactly one case is active at a time, and transitions
/// move strictly forward.
#[derive(Clone, Copy, Debug, PartialEq, Eq, Structural)]
pub enum State {
    Start { a: i32, b: i32 },
    State1 { b: i32, a2: i32 },
    State2 { a2: i32, b2: i32 },
    End { result: i32 },
}

impl State {
    /// The machine-limit side conditions under which the next transition's
    /// arithmetic fits in its type.
    pub open spec fn step_fits(self) -> bool {
        match self {
            State::Start { a, b: _ } => -0x8000_0000 <= a * a <= 0x7fff_ffff,
            State::State1 { b, a2: _ } => -0x8000_0000 <= b * b <= 0x7fff_ffff,
            State::State2 { a2, b2 } => -0x8000_0000 <= a2 + b2 <= 0x7fff_ffff,
            State::End { .. } => true,
        }
    }
}

/// Prime the computation: produce the initial state without executing any
/// of the original function's body.
pub fn square_sum(a: i32, b: i32) -> (s: State)
    ensures
        s == (State::Start { a, b }),
{
    State::Start { a, b }
}

/// Execute exactly one unit of work: consume the old state and produce the
/// next one, restoring the live locals from the old state and saving the
/// still-useful ones into the new. Driving a terminal state is a misuse
/// fault, so terminal states are excluded here; the driver checks for
/// `End` before stepping, and faults otherwise.
pub fn square_sum_step(state: State) -> (next: State)
    requires
        !(state is End),
        state.step_fits(),
    ensures
        state matches State::Start { a, b } ==> next matches State::State1 { b: b1, a2 }
            && b1 == b && a2 == a * a,
        state matches State::State1 { b, a2 } ==> next matches State::State2 { a2: a2_, b2 }
            && a2_ == a2 && b2 == b * b,
        state matches State::State2 { a2, b2 } ==> next matches State::End { result }
            && result == a2 + b2,
    {
    match state {
        State::Start { a, b } => {
            let a2 = a * a;
            State::State1 { b, a2 }
        },
        State::State1 { b, a2 } => {
            let b2 = b * b;
            State::State2 { a2, b2 }
        },
        State::State2 { a2, b2 } => {
            let result = a2 + b2;
            State::End { result }
        },
        State::End { .. } => vstd::pervasive::unreached(),
    }
}

} // verus!
