//! The nested structure being traversed: a finite tree whose leaves carry
//! integer values and whose interior nodes hold an ordered sequence of
//! children. The depth-first, left-to-right leaf enumeration defined here is
//! the reference against which every backend's output is specified.

use vstd::prelude::*;

verus! {

/// A node of the nested structure: either a terminal `Leaf` carrying one
/// value, or an interior `Group` carrying an ordered sequence of children.
#[derive(Debug)]
pub enum NestedNode {
    Leaf(i32),
    Group(Vec<NestedNode>),
}

/// The depth-first, left-to-right enumeration of the leaf values under `n`.
pub open spec fn leaves(n: NestedNode) -> Seq<i32>
    decreases n,
{
    match n {
        NestedNode::Leaf(v) => seq![v],
        NestedNode::Group(cs) => leaves_of(cs@),
    }
}

/// The leaf values under a sequence of nodes, in order: the enumeration of
/// the first node followed by the enumerations of the rest.
pub open spec fn leaves_of(s: Seq<NestedNode>) -> Seq<i32>
    decreases s,
{
    if s.len() == 0 {
        Seq::empty()
    } else {
        leaves(s[0]) + leaves_of(s.drop_first())
    }
}

/// The number of nodes (leaves and groups) under `n`; a termination measure
/// for walks over the structure.
pub open spec fn node_size(n: NestedNode) -> nat
    decreases n,
{
    match n {
        NestedNode::Leaf(_) => 1,
        NestedNode::Group(cs) => 1 + seq_size(cs@),
    }
}

/// The total number of nodes under a sequence of nodes.
pub open spec fn seq_size(s: Seq<NestedNode>) -> nat
    decreases s,
{
    if s.len() == 0 {
        0
    } else {
        node_size(s[0]) + seq_size(s.drop_first())
    }
}

/// The leaf enumeration of a concatenation is the concatenation of the leaf
/// enumerations.
pub proof fn lemma_leaves_of_concat(s1: Seq<NestedNode>, s2: Seq<NestedNode>)
    ensures
        leaves_of(s1 + s2) == leaves_of(s1) + leaves_of(s2),
    decreases s1.len(),
{
    if s1.len() == 0 {
        assert(s1 + s2 =~= s2);
        assert(leaves_of(s1) + leaves_of(s2) =~= leaves_of(s2));
    } else {
        assert((s1 + s2).drop_first() =~= s1.drop_first() + s2);
        lemma_leaves_of_concat(s1.drop_first(), s2);
        assert(leaves(s1[0]) + (leaves_of(s1.drop_first()) + leaves_of(s2)) =~= (leaves(s1[0])
            + leaves_of(s1.drop_first())) + leaves_of(s2));
    }
}

/// The node count of a concatenation is the sum of the node counts.
pub proof fn lemma_seq_size_concat(s1: Seq<NestedNode>, s2: Seq<NestedNode>)
    ensures
        seq_size(s1 + s2) == seq_size(s1) + seq_size(s2),
    decreases s1.len(),
{
    if s1.len() == 0 {
        assert(s1 + s2 =~= s2);
    } else {
        assert((s1 + s2).drop_first() =~= s1.drop_first() + s2);
        lemma_seq_size_concat(s1.drop_first(), s2);
    }
}

/// A group with no children contributes no values: removing it from a
/// sequence of siblings leaves the leaf enumeration unchanged, so it does not
/// alter the order of the surrounding leaves.
pub proof fn lemma_empty_group(s1: Seq<NestedNode>, g: NestedNode, s2: Seq<NestedNode>)
    requires
        g matches NestedNode::Group(cs) && cs@.len() == 0,
    ensures
        leaves_of(s1 + seq![g] + s2) == leaves_of(s1 + s2),
{
    let sg = seq![g];
    assert(leaves(g) =~= Seq::<i32>::empty());
    assert(sg.len() == 1 && sg[0] == g);
    assert(sg.drop_first() =~= Seq::<NestedNode>::empty());
    assert(leaves_of(Seq::<NestedNode>::empty()) =~= Seq::<i32>::empty());
    assert(leaves_of(sg) =~= leaves(g) + leaves_of(sg.drop_first()));
    assert(leaves_of(sg) =~= Seq::<i32>::empty());
    lemma_leaves_of_concat(s1 + seq![g], s2);
    lemma_leaves_of_concat(s1, seq![g]);
    lemma_leaves_of_concat(s1, s2);
    assert(leaves_of(s1 + seq![g] + s2) =~= leaves_of(s1 + s2));
}

} // verus!
