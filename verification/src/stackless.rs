//! The stackless cooperative backend: the traversal is expressed as
//! suspension-aware recursion over a two-valued protocol. Reaching a leaf
//! reports its value into the suspension channel and answers `Pending`;
//! every enclosing group frame relays `Pending` upward unchanged, one poll
//! per frame, until it reaches the outermost driver. Once the driver has
//! taken the value, the next poll finds the suspended leaf ready and the
//! traversal proceeds to the next leaf. `Ready` at the top means the whole
//! traversal is complete.

use vstd::prelude::*;

use crate::channel::ResultReporter;
use crate::driver::{DriverMisuse, Step};
use crate::nested::{leaves, leaves_of, node_size, seq_size, NestedNode};

verus! {

/// The suspension protocol's two answers: `Pending` relays "a leaf is
/// suspended below, and its value now sits in the channel"; `Ready` means
/// the polled computation has run to completion.
#[derive(Clone, Copy, Debug, PartialEq, Eq, Structural)]
pub enum Poll {
    Pending,
    Ready,
}

/// A suspended traversal, mirroring the frames of the recursion it stands
/// for. `Start` is a traversal not yet begun; `AwaitLeaf` is a leaf that
/// has reported its value and waits until the value is taken; `InGroup` is
/// one recursion frame — the children not yet entered, around the suspended
/// traversal of the current child; `Done` has nothing left to do.
pub enum Task {
    Start(NestedNode),
    AwaitLeaf,
    InGroup { rest: Vec<NestedNode>, inner: Box<Task> },
    Done,
}

/// The values a suspended traversal has yet to deliver, in order. A value
/// already reported into the channel (`AwaitLeaf`) is counted as delivered.
pub open spec fn task_pending(t: Task) -> Seq<i32>
    decreases t,
{
    match t {
        Task::Start(n) => leaves(n),
        Task::AwaitLeaf => Seq::empty(),
        Task::InGroup { rest, inner } => task_pending(*inner) + leaves_of(rest@),
        Task::Done => Seq::empty(),
    }
}

/// A termination measure: how much structure a suspended traversal still
/// holds. Always positive.
pub open spec fn task_size(t: Task) -> nat
    decreases t,
{
    match t {
        Task::Start(n) => 1 + node_size(n),
        Task::AwaitLeaf => 1,
        Task::InGroup { rest, inner } => 1 + task_size(*inner) + seq_size(rest@),
        Task::Done => 1,
    }
}

proof fn lemma_task_size_pos(t: Task)
    ensures
        task_size(t) >= 1,
{
    match t {
        Task::Start(_) => {},
        Task::AwaitLeaf => {},
        Task::InGroup { .. } => {},
        Task::Done => {},
    }
}

/// One poll of a suspended traversal. If values are still owed, the poll
/// runs the traversal to its next leaf, reports that leaf's value into the
/// channel unconsumed, and answers `Pending`; otherwise it answers `Ready`
/// and leaves the channel untouched. The channel must hold no unconsumed
/// value when polling: the driver takes each value before polling again.
fn poll_task(t: Task, ch: &mut ResultReporter) -> (res: (Task, Poll))
    requires
        old(ch).result_taken,
    ensures
        task_pending(t).len() > 0 ==> res.1 == Poll::Pending && !final(ch).result_taken
            && final(ch).num == task_pending(t)[0]
            && task_pending(res.0) == task_pending(t).drop_first(),
        task_pending(t).len() == 0 ==> res.1 == Poll::Ready && task_pending(res.0).len() == 0
            && *final(ch) == *old(ch),
    decreases task_size(t), 0nat,
{
    match t {
        Task::Done => (Task::Done, Poll::Ready),
        Task::AwaitLeaf => {
            // The suspended leaf's resumability check, as the driver's poll
            // sees it: ready exactly when the reported value has been taken.
            if ch.result_taken {
                (Task::Done, Poll::Ready)
            } else {
                (Task::AwaitLeaf, Poll::Pending)
            }
        },
        Task::Start(node) => match node {
            NestedNode::Leaf(v) => {
                ch.report_result(v);
                proof {
                    assert(task_pending(Task::Start(NestedNode::Leaf(v))) =~= seq![v]);
                    assert(seq![v].drop_first() =~= Seq::<i32>::empty());
                }
                (Task::AwaitLeaf, Poll::Pending)
            },
            NestedNode::Group(cs) => {
                let ghost gcs = cs@;
                let res = poll_children(cs, Box::new(Task::Done), ch);
                proof {
                    assert(task_pending(Task::Done) + leaves_of(gcs) =~= leaves_of(gcs));
                }
                res
            },
        },
        Task::InGroup { rest, inner } => poll_children(rest, inner, ch),
    }
}

/// One poll of a group frame: re-poll the suspended traversal of the
/// current child and relay `Pending` upward unchanged; when the child
/// reports `Ready`, proceed to the next child, and answer `Ready` only once
/// no child is left.
#[verifier::loop_isolation(false)]
fn poll_children(rest: Vec<NestedNode>, inner: Box<Task>, ch: &mut ResultReporter) -> (res: (
    Task,
    Poll,
))
    requires
        old(ch).result_taken,
    ensures
        ({
            let p0 = task_pending(*inner) + leaves_of(rest@);
            &&& p0.len() > 0 ==> res.1 == Poll::Pending && !final(ch).result_taken
                && final(ch).num == p0[0] && task_pending(res.0) == p0.drop_first()
            &&& p0.len() == 0 ==> res.1 == Poll::Ready && task_pending(res.0).len() == 0
                && *final(ch) == *old(ch)
        }),
    decreases task_size(*inner) + seq_size(rest@), 1nat,
{
    let ghost p0 = task_pending(*inner) + leaves_of(rest@);
    let ghost m0 = task_size(*inner) + seq_size(rest@);
    let mut rest = rest;
    let mut inner = inner;
    loop
        invariant
            ch.result_taken,
            *ch == *old(ch),
            task_pending(*inner) + leaves_of(rest@) == p0,
            task_size(*inner) + seq_size(rest@) <= m0,
        decreases rest@.len(),
    {
        let ghost cur = task_pending(*inner);
        let ghost tval = *inner;
        proof {
            lemma_task_size_pos(tval);
        }
        let (t2, p) = poll_task(*inner, ch);
        match p {
            Poll::Pending => {
                proof {
                    assert(cur.len() > 0);
                    assert((cur + leaves_of(rest@))[0] == cur[0]);
                    assert((cur + leaves_of(rest@)).drop_first() =~= cur.drop_first() + leaves_of(
                        rest@,
                    ));
                }
                return (Task::InGroup { rest, inner: Box::new(t2) }, Poll::Pending);
            },
            Poll::Ready => {
                if rest.len() == 0 {
                    proof {
                        assert(cur.len() == 0);
                        assert(p0.len() == 0);
                    }
                    return (Task::Done, Poll::Ready);
                }
                let ghost prev = rest@;
                let c = rest.remove(0);
                proof {
                    assert(rest@ =~= prev.drop_first());
                    assert(leaves_of(prev) == leaves(c) + leaves_of(rest@));
                    assert(seq_size(prev) == node_size(c) + seq_size(rest@));
                    assert(cur + leaves_of(prev) =~= leaves_of(prev));
                    assert(leaves(c) + leaves_of(rest@) =~= task_pending(Task::Start(c))
                        + leaves_of(rest@));
                }
                inner = Box::new(Task::Start(c));
            },
        }
    }
}

/// The stackless backend as the driver sees it: a suspended traversal, the
/// suspension channel shared with it, and whether `Finished` has been
/// reported. Between calls the channel never holds an unconsumed value.
pub struct StacklessCoro {
    task: Task,
    channel: ResultReporter,
    done: bool,
}

impl StacklessCoro {
    /// The values still to be produced, in traversal order.
    pub closed spec fn pending(self) -> Seq<i32> {
        task_pending(self.task)
    }

    /// Whether `Finished` has been reported.
    pub closed spec fn is_done(self) -> bool {
        self.done
    }

    /// The protocol invariant: no unconsumed value sits in the channel
    /// between polls. `begin` establishes it and `advance` preserves it; a
    /// caller never has to do anything to maintain it.
    pub closed spec fn wf(self) -> bool {
        self.channel.result_taken
    }

    /// Prime the backend on a structure. No traversal work runs yet: the
    /// whole structure is pending and the channel is empty.
    pub fn begin(root: NestedNode) -> (c: StacklessCoro)
        ensures
            c.pending() == leaves(root),
            !c.is_done(),
            c.wf(),
    {
        StacklessCoro {
            task: Task::Start(root),
            channel: ResultReporter { num: 0, result_taken: true },
            done: false,
        }
    }

    /// One top-level poll: run the traversal to its next leaf, take the
    /// reported value from the channel and produce it; or report `Finished`
    /// once nothing is pending. The n-th call produces exactly the n-th
    /// leaf in traversal order: no value is skipped, repeated, or produced
    /// after `Finished`.
    pub fn advance(&mut self) -> (r: Step)
        requires
            old(self).wf(),
            !old(self).is_done(),
        ensures
            final(self).wf(),
            old(self).pending().len() > 0 ==> {
                &&& r == Step::Produced(old(self).pending()[0])
                &&& final(self).pending() == old(self).pending().drop_first()
                &&& !final(self).is_done()
            },
            old(self).pending().len() == 0 ==> {
                &&& r == Step::Finished
                &&& final(self).pending().len() == 0
                &&& final(self).is_done()
            },
    {
        let mut t = Task::Done;
        core::mem::swap(&mut t, &mut self.task);
        let (t2, p) = poll_task(t, &mut self.channel);
        self.task = t2;
        match p {
            Poll::Pending => {
                let v = self.channel.take_result();
                Step::Produced(v)
            },
            Poll::Ready => {
                self.done = true;
                Step::Finished
            },
        }
    }

    /// The checked form of `advance`: polling again after `Finished` is
    /// answered with the driver-misuse fault instead of a value, and the
    /// backend is left unchanged.
    pub fn advance_or_fault(&mut self) -> (r: Result<Step, DriverMisuse>)
        requires
            old(self).wf(),
        ensures
            old(self).is_done() ==> r == Result::<Step, DriverMisuse>::Err(DriverMisuse)
                && *final(self) == *old(self),
            !old(self).is_done() && old(self).pending().len() > 0 ==> {
                &&& r == Result::<Step, DriverMisuse>::Ok(Step::Produced(old(self).pending()[0]))
                &&& final(self).pending() == old(self).pending().drop_first()
                &&& !final(self).is_done() && final(self).wf()
            },
            !old(self).is_done() && old(self).pending().len() == 0 ==> {
                &&& r == Result::<Step, DriverMisuse>::Ok(Step::Finished)
                &&& final(self).pending().len() == 0
                &&& final(self).is_done() && final(self).wf()
            },
    {
        if self.done {
            Err(DriverMisuse)
        } else {
            Ok(self.advance())
        }
    }

    /// A complete run: drive the backend from `root` to exhaustion and
    /// collect every produced value. The result is exactly the depth-first,
    /// left-to-right leaf enumeration of the structure — the same sequence
    /// every other backend produces.
    #[verifier::loop_isolation(false)]
    pub fn run(root: NestedNode) -> (out: Vec<i32>)
        ensures
            out@ == leaves(root),
    {
        let ghost total = leaves(root);
        let mut c = StacklessCoro::begin(root);
        let mut out: Vec<i32> = Vec::new();
        loop
            invariant
                c.wf(),
                !c.is_done(),
                out@ + c.pending() == total,
            decreases c.pending().len(),
        {
            let ghost pen = c.pending();
            match c.advance() {
                Step::Produced(v) => {
                    proof {
                        assert(out@.push(v) + c.pending() =~= out@ + pen);
                    }
                    out.push(v);
                },
                Step::Finished => {
                    proof {
                        assert(out@ =~= total);
                    }
                    return out;
                },
            }
        }
    }
}

} // verus!
