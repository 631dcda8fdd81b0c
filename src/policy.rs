//! The generation policy: each variant belongs to a weight class (leaf, branch
//! or pipe), the class and the remaining depth budget give its weight, and a
//! variant is drawn with probability proportional to its weight. With no
//! budget left only leaves weigh anything, so growth stops.
use crate::rng;
use crate::siblings::GenArg;
use vstd::prelude::*;

verus! {

#[derive(Clone, Copy, Debug, PartialEq, Eq, Structural)]
pub enum NodeClass {
    /// No children: growth stops here.
    Leaf,
    /// Two or more children.
    Branch,
    /// Exactly one child.
    Pipe,
}

pub const LEAF_WEIGHT: u32 = 2;

/// The most that any class weighs.
pub const MAX_WEIGHT: u32 = 4;

/// The weight of a class under a depth budget: leaves weigh the same at every
/// depth, branches and pipes lose weight as the budget runs out, and nothing
/// but a leaf weighs anything at budget zero.
pub open spec fn class_weight(class: NodeClass, depth: u32) -> u32 {
    match class {
        NodeClass::Leaf => LEAF_WEIGHT,
        NodeClass::Branch => if depth < MAX_WEIGHT {
            depth
        } else {
            MAX_WEIGHT
        },
        NodeClass::Pipe => if depth < 2 {
            depth
        } else {
            2
        },
    }
}

pub fn leaf_node_weight(arg: GenArg) -> (r: u32)
    ensures
        r == class_weight(NodeClass::Leaf, arg.depth),
{
    LEAF_WEIGHT
}

pub fn branch_node_weight(arg: GenArg) -> (r: u32)
    ensures
        r == class_weight(NodeClass::Branch, arg.depth),
{
    if arg.depth < MAX_WEIGHT {
        arg.depth
    } else {
        MAX_WEIGHT
    }
}

pub fn pipe_node_weight(arg: GenArg) -> (r: u32)
    ensures
        r == class_weight(NodeClass::Pipe, arg.depth),
{
    if arg.depth < 2 {
        arg.depth
    } else {
        2
    }
}

pub fn node_weight(class: NodeClass, arg: GenArg) -> (r: u32)
    ensures
        r == class_weight(class, arg.depth),
{
    match class {
        NodeClass::Leaf => leaf_node_weight(arg),
        NodeClass::Branch => branch_node_weight(arg),
        NodeClass::Pipe => pipe_node_weight(arg),
    }
}

/// The sum of the first `n` weights.
pub open spec fn weight_total(s: Seq<u32>, n: int) -> int
    decreases n,
{
    if n <= 0 {
        0
    } else {
        weight_total(s, n - 1) + s[n - 1]
    }
}

proof fn lemma_total_monotone(s: Seq<u32>, i: int, n: int)
    requires
        0 <= i <= n,
    ensures
        weight_total(s, i) <= weight_total(s, n),
    decreases n - i,
{
    if i < n {
        lemma_total_monotone(s, i, n - 1);
    }
}

proof fn lemma_total_covers(s: Seq<u32>, k: int, n: int)
    requires
        0 <= k < n,
    ensures
        weight_total(s, n) >= s[k] + weight_total(s, k),
    decreases n,
{
    if k < n - 1 {
        lemma_total_covers(s, k, n - 1);
    }
}

proof fn lemma_total_bounded(s: Seq<u32>, n: int)
    requires
        0 <= n <= s.len(),
        forall|i: int| 0 <= i < s.len() ==> s[i] <= MAX_WEIGHT,
    ensures
        weight_total(s, n) <= MAX_WEIGHT * n,
    decreases n,
{
    if n > 0 {
        lemma_total_bounded(s, n - 1);
    }
}

/// The index that `x` selects when the weights are laid end to end: the one
/// whose stretch of running totals holds `x`.
pub fn pick_by_weight(weights: &Vec<u32>, x: u32) -> (i: usize)
    requires
        x < weight_total(weights@, weights@.len() as int) <= u32::MAX,
    ensures
        i < weights@.len(),
        weight_total(weights@, i as int) <= x < weight_total(weights@, i as int + 1),
        weights@[i as int] > 0,
{
    let n = weights.len();
    let mut acc: u32 = 0;
    let mut i: usize = 0;
    loop
        invariant
            n == weights@.len(),
            x < weight_total(weights@, n as int) <= u32::MAX,
            i <= n,
            acc == weight_total(weights@, i as int),
            acc <= x,
        decreases n - i,
    {
        if i == n {
            proof {
                assert(false);
            }
            return 0;
        }
        proof {
            lemma_total_monotone(weights@, i as int + 1, n as int);
        }
        if x < acc + weights[i] {
            return i;
        }
        acc = acc + weights[i];
        i = i + 1;
    }
}

/// Draws an index with probability proportional to its weight: a uniform
/// draw below the total, then the index it selects.
pub fn choose_weighted(rng: &mut rand::rngs::StdRng, weights: &Vec<u32>) -> (i: usize)
    requires
        0 < weight_total(weights@, weights@.len() as int) <= u32::MAX,
    ensures
        i < weights@.len(),
        weights@[i as int] > 0,
{
    let n = weights.len();
    let mut total: u32 = 0;
    let mut k: usize = 0;
    while k < n
        invariant
            n == weights@.len(),
            k <= n,
            total == weight_total(weights@, k as int),
            0 < weight_total(weights@, n as int) <= u32::MAX,
        decreases n - k,
    {
        proof {
            lemma_total_monotone(weights@, k as int + 1, n as int);
        }
        total = total + weights[k];
        k = k + 1;
    }
    let x = rng::below(rng, total);
    pick_by_weight(weights, x)
}

/// Draws a variant, given the class of each variant in order: with no budget
/// left the variant drawn is a leaf.
pub fn choose_variant(rng: &mut rand::rngs::StdRng, classes: &Vec<NodeClass>, arg: GenArg) -> (i:
    usize)
    requires
        classes@.len() * MAX_WEIGHT <= u32::MAX,
        exists|j: int| 0 <= j < classes@.len() && classes@[j] == NodeClass::Leaf,
    ensures
        i < classes@.len(),
        class_weight(classes@[i as int], arg.depth) > 0,
        arg.depth == 0 ==> classes@[i as int] == NodeClass::Leaf,
{
    let n = classes.len();
    let mut weights: Vec<u32> = Vec::new();
    let mut k: usize = 0;
    while k < n
        invariant
            n == classes@.len(),
            k <= n,
            weights@.len() == k,
            forall|j: int| 0 <= j < k ==> weights@[j] == class_weight(classes@[j], arg.depth),
        decreases n - k,
    {
        let w = node_weight(classes[k], arg);
        weights.push(w);
        k = k + 1;
    }
    proof {
        let j = choose|j: int| 0 <= j < classes@.len() && classes@[j] == NodeClass::Leaf;
        lemma_total_covers(weights@, j, n as int);
        lemma_total_monotone(weights@, 0, j);
        assert forall|i: int| 0 <= i < weights@.len() implies weights@[i] <= MAX_WEIGHT by {
            assert(weights@[i] == class_weight(classes@[i], arg.depth));
        }
        lemma_total_bounded(weights@, n as int);
    }
    let i = choose_weighted(rng, &weights);
    proof {
        assert(weights@[i as int] == class_weight(classes@[i as int], arg.depth));
    }
    i
}

} // verus!
