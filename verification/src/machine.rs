//! The state-machine backend: the traversal's call stack is flattened into
//! explicit state — the ordered list of nodes still to visit — and an
//! external loop drives it one transition at a time. This backend is the
//! ground-truth semantic model that the other backends must reproduce
//! observably.

use vstd::prelude::*;

use crate::driver::{DriverMisuse, Step};
use crate::nested::{leaves, leaves_of, lemma_leaves_of_concat, lemma_seq_size_concat, node_size,
    seq_size, NestedNode};

verus! {

/// The traversal as explicit state: `stack` holds, in order, the nodes whose
/// leaves have not been produced yet (the flattened equivalent of the
/// suspended recursion's frames); `done` records that `Finished` has been
/// reported, after which driving the machine again is a misuse fault.
pub struct StateMachine {
    stack: Vec<NestedNode>,
    done: bool,
}

impl StateMachine {
    /// The values still to be produced, in traversal order.
    pub closed spec fn pending(self) -> Seq<i32> {
        leaves_of(self.stack@)
    }

    /// Whether the machine has reported `Finished`.
    pub closed spec fn is_done(self) -> bool {
        self.done
    }

    /// Prime the machine on a structure. No traversal work runs yet: the
    /// whole structure is pending.
    pub fn begin(root: NestedNode) -> (m: StateMachine)
        ensures
            m.pending() == leaves(root),
            !m.is_done(),
    {
        let ghost root_spec = root;
        let mut stack: Vec<NestedNode> = Vec::new();
        stack.push(root);
        proof {
            assert(stack@.len() == 1 && stack@[0] == root_spec);
            assert(stack@.drop_first() =~= Seq::<NestedNode>::empty());
            assert(leaves_of(stack@) == leaves(root_spec) + leaves_of(
                Seq::<NestedNode>::empty(),
            ));
            assert(leaves(root_spec) + Seq::<i32>::empty() =~= leaves(root_spec));
        }
        StateMachine { stack, done: false }
    }

    /// Run until the next leaf or until completion: produce the first
    /// pending value and remove exactly it from the pending sequence, or
    /// report `Finished` once nothing is pending. Values are neither
    /// skipped nor repeated, and `Finished` never comes early.
    pub fn advance(&mut self) -> (r: Step)
        requires
            !old(self).is_done(),
        ensures
            old(self).pending().len() > 0 ==> {
                &&& r == Step::Produced(old(self).pending()[0])
                &&& final(self).pending() == old(self).pending().drop_first()
                &&& !final(self).is_done()
            },
            old(self).pending().len() == 0 ==> {
                &&& r == Step::Finished
                &&& final(self).pending().len() == 0
                &&& final(self).is_done()
            },
    {
        loop
            invariant
                !self.done,
                leaves_of(self.stack@) == old(self).pending(),
            decreases seq_size(self.stack@),
        {
            if self.stack.len() == 0 {
                self.done = true;
                return Step::Finished;
            }
            let ghost prev = self.stack@;
            let node = self.stack.remove(0);
            let ghost rest = self.stack@;
            proof {
                assert(rest =~= prev.drop_first());
                assert(leaves_of(prev) == leaves(node) + leaves_of(rest));
                assert(seq_size(prev) == node_size(node) + seq_size(rest));
            }
            match node {
                NestedNode::Leaf(v) => {
                    proof {
                        assert(leaves(node) =~= seq![v]);
                        assert(old(self).pending()[0] == v);
                        assert(old(self).pending().drop_first() =~= leaves_of(rest));
                    }
                    return Step::Produced(v);
                },
                NestedNode::Group(mut cs) => {
                    let ghost children = cs@;
                    cs.append(&mut self.stack);
                    self.stack = cs;
                    proof {
                        lemma_leaves_of_concat(children, rest);
                        lemma_seq_size_concat(children, rest);
                    }
                },
            }
        }
    }

    /// The checked form of `advance`: driving the machine after `Finished`
    /// is answered with the driver-misuse fault instead of a value, and the
    /// machine is left unchanged.
    pub fn advance_or_fault(&mut self) -> (r: Result<Step, DriverMisuse>)
        ensures
            old(self).is_done() ==> r == Result::<Step, DriverMisuse>::Err(DriverMisuse)
                && *final(self) == *old(self),
            !old(self).is_done() && old(self).pending().len() > 0 ==> {
                &&& r == Result::<Step, DriverMisuse>::Ok(Step::Produced(old(self).pending()[0]))
                &&& final(self).pending() == old(self).pending().drop_first()
                &&& !final(self).is_done()
            },
            !old(self).is_done() && old(self).pending().len() == 0 ==> {
                &&& r == Result::<Step, DriverMisuse>::Ok(Step::Finished)
                &&& final(self).pending().len() == 0
                &&& final(self).is_done()
            },
    {
        if self.done {
            Err(DriverMisuse)
        } else {
            Ok(self.advance())
        }
    }

    /// A complete run: drive the machine from `root` to exhaustion and
    /// collect every produced value. The result is exactly the depth-first,
    /// left-to-right leaf enumeration of the structure.
    #[verifier::loop_isolation(false)]
    pub fn run(root: NestedNode) -> (out: Vec<i32>)
        ensures
            out@ == leaves(root),
    {
        let ghost total = leaves(root);
        let mut m = StateMachine::begin(root);
        let mut out: Vec<i32> = Vec::new();
        loop
            invariant
                !m.is_done(),
                out@ + m.pending() == total,
            decreases m.pending().len(),
        {
            let ghost pen = m.pending();
            match m.advance() {
                Step::Produced(v) => {
                    proof {
                        assert(out@.push(v) + m.pending() =~= out@ + pen);
                    }
                    out.push(v);
                },
                Step::Finished => {
                    proof {
                        assert(out@ =~= total);
                    }
                    return out;
                },
            }
        }
    }
}

} // verus!
