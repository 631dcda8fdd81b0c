//! The shape of trees and how they grow: the height of a tree, which variants
//! are leaves, the weight class of each variant, depth-bounded generation, and
//! the depth check that loaded trees must pass.
use crate::discrete::{Boolean, Byte, Nibble, SInt, UInt};
use crate::nodes::{BooleanNodes, ByteNodes, NibbleNodes, SIntNodes, UIntNodes};
use crate::policy::{choose_variant, class_weight, NodeClass};
use crate::siblings::{
    BitColorNodes, CoordMapNodes, GenArg, IterativeFunctionNodes, SNFloatNodes, UNFloatNodes,
};
use vstd::prelude::*;

verus! {

pub open spec fn max2(a: nat, b: nat) -> nat {
    if a < b {
        b
    } else {
        a
    }
}

pub open spec fn max3(a: nat, b: nat, c: nat) -> nat {
    max2(a, max2(b, c))
}

impl BooleanNodes {
    /// Levels of the tree below this node; sibling-family children count as leaves.
    pub open spec fn height(self) -> nat
        decreases self,
    {
        match self {
            BooleanNodes::UNFloatLess { .. } => 1,
            BooleanNodes::UNFloatMore { .. } => 1,
            BooleanNodes::UNFloatBetween { .. } => 1,
            BooleanNodes::SNFloatLess { .. } => 1,
            BooleanNodes::SNFloatMore { .. } => 1,
            BooleanNodes::SNFloatBetween { .. } => 1,
            BooleanNodes::SNFloatSign { .. } => 1,
            BooleanNodes::And { child_a, child_b } => 1 + max2(child_a.height(), child_b.height()),
            BooleanNodes::Or { child_a, child_b } => 1 + max2(child_a.height(), child_b.height()),
            BooleanNodes::Not { child } => 1 + child.height(),
            BooleanNodes::BitColorHas { .. } => 1,
            BooleanNodes::Constant { .. } => 0,
            BooleanNodes::ModifyState { child, .. } => 1 + child.height(),
            BooleanNodes::IfElse { predicate, child_a, child_b } => 1 + max3(
                predicate.height(),
                child_a.height(),
                child_b.height(),
            ),
            BooleanNodes::ByteEquals { child_a, child_b } => 1 + max2(
                child_a.height(),
                child_b.height(),
            ),
        }
    }

    /// The position of the node's variant in declaration order.
    pub open spec fn variant_index(self) -> nat {
        match self {
            BooleanNodes::UNFloatLess { .. } => 0,
            BooleanNodes::UNFloatMore { .. } => 1,
            BooleanNodes::UNFloatBetween { .. } => 2,
            BooleanNodes::SNFloatLess { .. } => 3,
            BooleanNodes::SNFloatMore { .. } => 4,
            BooleanNodes::SNFloatBetween { .. } => 5,
            BooleanNodes::SNFloatSign { .. } => 6,
            BooleanNodes::And { .. } => 7,
            BooleanNodes::Or { .. } => 8,
            BooleanNodes::Not { .. } => 9,
            BooleanNodes::BitColorHas { .. } => 10,
            BooleanNodes::Constant { .. } => 11,
            BooleanNodes::ModifyState { .. } => 12,
            BooleanNodes::IfElse { .. } => 13,
            BooleanNodes::ByteEquals { .. } => 14,
        }
    }

    pub open spec fn is_leaf(self) -> bool {
        self is Constant
    }

    /// The weight class of each variant, in declaration order.
    pub open spec fn class_table() -> Seq<NodeClass> {
        seq![
            NodeClass::Branch, NodeClass::Branch, NodeClass::Branch, NodeClass::Branch,
            NodeClass::Branch, NodeClass::Branch, NodeClass::Pipe, NodeClass::Branch,
            NodeClass::Branch, NodeClass::Pipe, NodeClass::Branch, NodeClass::Leaf,
            NodeClass::Branch, NodeClass::Branch, NodeClass::Branch,
        ]
    }

    pub fn variant_classes() -> (r: Vec<NodeClass>)
        ensures
            r@ == Self::class_table(),
    {
        vec![
            NodeClass::Branch,
            NodeClass::Branch,
            NodeClass::Branch,
            NodeClass::Branch,
            NodeClass::Branch,
            NodeClass::Branch,
            NodeClass::Pipe,
            NodeClass::Branch,
            NodeClass::Branch,
            NodeClass::Pipe,
            NodeClass::Branch,
            NodeClass::Leaf,
            NodeClass::Branch,
            NodeClass::Branch,
            NodeClass::Branch,
        ]
    }

    /// A random tree whose root is the variant at `pick`, its children grown
    /// within the remaining budget. Only a leaf fits a budget of zero.
    pub fn generate_variant(rng: &mut rand::rngs::StdRng, arg: GenArg, pick: usize) -> (r: Self)
        requires
            pick < 15,
            arg.depth > 0 || Self::class_table()[pick as int] == NodeClass::Leaf,
        ensures
            r.variant_index() == pick,
            r.is_leaf() == (Self::class_table()[pick as int] == NodeClass::Leaf),
            r.wf(),
            r.height() <= arg.depth,
        decreases arg.depth, 0int,
    {
        let sub = arg.child();
        if pick == 0 {
            let child_a = Box::new(UNFloatNodes::generate(rng, sub));
            let child_b = Box::new(UNFloatNodes::generate(rng, sub));
            BooleanNodes::UNFloatLess { child_a, child_b }
        } else if pick == 1 {
            let child_a = Box::new(UNFloatNodes::generate(rng, sub));
            let child_b = Box::new(UNFloatNodes::generate(rng, sub));
            BooleanNodes::UNFloatMore { child_a, child_b }
        } else if pick == 2 {
            let child_value = Box::new(UNFloatNodes::generate(rng, sub));
            let child_range_a = Box::new(UNFloatNodes::generate(rng, sub));
            let child_range_b = Box::new(UNFloatNodes::generate(rng, sub));
            BooleanNodes::UNFloatBetween { child_value, child_range_a, child_range_b }
        } else if pick == 3 {
            let child_a = Box::new(SNFloatNodes::generate(rng, sub));
            let child_b = Box::new(SNFloatNodes::generate(rng, sub));
            BooleanNodes::SNFloatLess { child_a, child_b }
        } else if pick == 4 {
            let child_a = Box::new(SNFloatNodes::generate(rng, sub));
            let child_b = Box::new(SNFloatNodes::generate(rng, sub));
            BooleanNodes::SNFloatMore { child_a, child_b }
        } else if pick == 5 {
            let child_value = Box::new(SNFloatNodes::generate(rng, sub));
            let child_range_a = Box::new(SNFloatNodes::generate(rng, sub));
            let child_range_b = Box::new(SNFloatNodes::generate(rng, sub));
            BooleanNodes::SNFloatBetween { child_value, child_range_a, child_range_b }
        } else if pick == 6 {
            let child = Box::new(SNFloatNodes::generate(rng, sub));
            BooleanNodes::SNFloatSign { child }
        } else if pick == 7 {
            let child_a = Box::new(BooleanNodes::generate(rng, sub));
            let child_b = Box::new(BooleanNodes::generate(rng, sub));
            BooleanNodes::And { child_a, child_b }
        } else if pick == 8 {
            let child_a = Box::new(BooleanNodes::generate(rng, sub));
            let child_b = Box::new(BooleanNodes::generate(rng, sub));
            BooleanNodes::Or { child_a, child_b }
        } else if pick == 9 {
            let child = Box::new(BooleanNodes::generate(rng, sub));
            BooleanNodes::Not { child }
        } else if pick == 10 {
            let child_a = Box::new(BitColorNodes::generate(rng, sub));
            let child_b = Box::new(BitColorNodes::generate(rng, sub));
            BooleanNodes::BitColorHas { child_a, child_b }
        } else if pick == 11 {
            BooleanNodes::Constant { value: Boolean::random(rng) }
        } else if pick == 12 {
            let child = Box::new(BooleanNodes::generate(rng, sub));
            let child_state = Box::new(CoordMapNodes::generate(rng, sub));
            BooleanNodes::ModifyState { child, child_state }
        } else if pick == 13 {
            let predicate = Box::new(BooleanNodes::generate(rng, sub));
            let child_a = Box::new(BooleanNodes::generate(rng, sub));
            let child_b = Box::new(BooleanNodes::generate(rng, sub));
            BooleanNodes::IfElse { predicate, child_a, child_b }
        } else {
            let child_a = Box::new(ByteNodes::generate(rng, sub));
            let child_b = Box::new(ByteNodes::generate(rng, sub));
            BooleanNodes::ByteEquals { child_a, child_b }
        }
    }

    /// A random tree within the depth budget: a variant drawn by weight, then
    /// grown. With no budget it is a leaf.
    pub fn generate(rng: &mut rand::rngs::StdRng, arg: GenArg) -> (r: Self)
        ensures
            r.wf(),
            r.height() <= arg.depth,
            arg.depth == 0 ==> r.is_leaf(),
            r.variant_index() < Self::class_table().len(),
            class_weight(Self::class_table()[r.variant_index() as int], arg.depth) > 0,
        decreases arg.depth, 1int,
    {
        let classes = Self::variant_classes();
        proof {
            assert(classes@[11] == NodeClass::Leaf);
        }
        let pick = choose_variant(rng, &classes, arg);
        Self::generate_variant(rng, arg, pick)
    }

    /// Whether the tree is no deeper than `ceiling`: the check that a loaded
    /// tree must pass before it joins the population.
    pub fn within_depth(&self, ceiling: u32) -> (r: bool)
        ensures
            r == (self.height() <= ceiling),
        decreases self,
    {
        match self {
            BooleanNodes::UNFloatLess { .. } => ceiling > 0,
            BooleanNodes::UNFloatMore { .. } => ceiling > 0,
            BooleanNodes::UNFloatBetween { .. } => ceiling > 0,
            BooleanNodes::SNFloatLess { .. } => ceiling > 0,
            BooleanNodes::SNFloatMore { .. } => ceiling > 0,
            BooleanNodes::SNFloatBetween { .. } => ceiling > 0,
            BooleanNodes::SNFloatSign { .. } => ceiling > 0,
            BooleanNodes::And { child_a, child_b } => {
                ceiling > 0 && child_a.within_depth(ceiling - 1)
                    && child_b.within_depth(ceiling - 1)
            },
            BooleanNodes::Or { child_a, child_b } => {
                ceiling > 0 && child_a.within_depth(ceiling - 1)
                    && child_b.within_depth(ceiling - 1)
            },
            BooleanNodes::Not { child } => ceiling > 0 && child.within_depth(ceiling - 1),
            BooleanNodes::BitColorHas { .. } => ceiling > 0,
            BooleanNodes::Constant { .. } => true,
            BooleanNodes::ModifyState { child, .. } => {
                ceiling > 0 && child.within_depth(ceiling - 1)
            },
            BooleanNodes::IfElse { predicate, child_a, child_b } => {
                ceiling > 0 && predicate.within_depth(ceiling - 1)
                    && child_a.within_depth(ceiling - 1)
                    && child_b.within_depth(ceiling - 1)
            },
            BooleanNodes::ByteEquals { child_a, child_b } => {
                ceiling > 0 && child_a.within_depth(ceiling - 1)
                    && child_b.within_depth(ceiling - 1)
            },
        }
    }

    /// Whether every nibble constant in the tree is in range, as `compute` needs.
    pub fn is_valid(&self) -> (r: bool)
        ensures
            r == self.wf(),
        decreases self,
    {
        match self {
            BooleanNodes::And { child_a, child_b } => child_a.is_valid() && child_b.is_valid(),
            BooleanNodes::Or { child_a, child_b } => child_a.is_valid() && child_b.is_valid(),
            BooleanNodes::Not { child } => child.is_valid(),
            BooleanNodes::ModifyState { child, .. } => child.is_valid(),
            BooleanNodes::IfElse { predicate, child_a, child_b } => {
                predicate.is_valid()
                    && child_a.is_valid()
                    && child_b.is_valid()
            },
            BooleanNodes::ByteEquals { child_a, child_b } => {
                child_a.is_valid()
                    && child_b.is_valid()
            },
            _ => true,
        }
    }
}

impl NibbleNodes {
    /// Levels of the tree below this node; sibling-family children count as leaves.
    pub open spec fn height(self) -> nat
        decreases self,
    {
        match self {
            NibbleNodes::Constant { .. } => 0,
            NibbleNodes::Add { child_a, child_b } => 1 + max2(child_a.height(), child_b.height()),
            NibbleNodes::Multiply { child_a, child_b } => 1 + max2(
                child_a.height(),
                child_b.height(),
            ),
            NibbleNodes::Divide { child_value, child_divisor } => 1 + max2(
                child_value.height(),
                child_divisor.height(),
            ),
            NibbleNodes::Modulus { child_value, child_divisor } => 1 + max2(
                child_value.height(),
                child_divisor.height(),
            ),
            NibbleNodes::FromBooleans { a, b, c, d } => 1 + max2(
                max2(a.height(), b.height()),
                max2(c.height(), d.height()),
            ),
            NibbleNodes::FromByteModulo { child } => 1 + child.height(),
            NibbleNodes::FromByteDivide { child } => 1 + child.height(),
            NibbleNodes::FromGametic => 0,
            NibbleNodes::IfElse { predicate, child_a, child_b } => 1 + max3(
                predicate.height(),
                child_a.height(),
                child_b.height(),
            ),
        }
    }

    /// The position of the node's variant in declaration order.
    pub open spec fn variant_index(self) -> nat {
        match self {
            NibbleNodes::Constant { .. } => 0,
            NibbleNodes::Add { .. } => 1,
            NibbleNodes::Multiply { .. } => 2,
            NibbleNodes::Divide { .. } => 3,
            NibbleNodes::Modulus { .. } => 4,
            NibbleNodes::FromBooleans { .. } => 5,
            NibbleNodes::FromByteModulo { .. } => 6,
            NibbleNodes::FromByteDivide { .. } => 7,
            NibbleNodes::FromGametic => 8,
            NibbleNodes::IfElse { .. } => 9,
        }
    }

    pub open spec fn is_leaf(self) -> bool {
        self is Constant || self is FromGametic
    }

    /// The weight class of each variant, in declaration order.
    pub open spec fn class_table() -> Seq<NodeClass> {
        seq![
            NodeClass::Leaf, NodeClass::Branch, NodeClass::Branch, NodeClass::Branch,
            NodeClass::Branch, NodeClass::Branch, NodeClass::Pipe, NodeClass::Pipe,
            NodeClass::Leaf, NodeClass::Branch,
        ]
    }

    pub fn variant_classes() -> (r: Vec<NodeClass>)
        ensures
            r@ == Self::class_table(),
    {
        vec![
            NodeClass::Leaf,
            NodeClass::Branch,
            NodeClass::Branch,
            NodeClass::Branch,
            NodeClass::Branch,
            NodeClass::Branch,
            NodeClass::Pipe,
            NodeClass::Pipe,
            NodeClass::Leaf,
            NodeClass::Branch,
        ]
    }

    /// A random tree whose root is the variant at `pick`, its children grown
    /// within the remaining budget. Only a leaf fits a budget of zero.
    pub fn generate_variant(rng: &mut rand::rngs::StdRng, arg: GenArg, pick: usize) -> (r: Self)
        requires
            pick < 10,
            arg.depth > 0 || Self::class_table()[pick as int] == NodeClass::Leaf,
        ensures
            r.variant_index() == pick,
            r.is_leaf() == (Self::class_table()[pick as int] == NodeClass::Leaf),
            r.wf(),
            r.height() <= arg.depth,
        decreases arg.depth, 0int,
    {
        let sub = arg.child();
        if pick == 0 {
            NibbleNodes::Constant { value: Nibble::random(rng) }
        } else if pick == 1 {
            let child_a = Box::new(NibbleNodes::generate(rng, sub));
            let child_b = Box::new(NibbleNodes::generate(rng, sub));
            NibbleNodes::Add { child_a, child_b }
        } else if pick == 2 {
            let child_a = Box::new(NibbleNodes::generate(rng, sub));
            let child_b = Box::new(NibbleNodes::generate(rng, sub));
            NibbleNodes::Multiply { child_a, child_b }
        } else if pick == 3 {
            let child_value = Box::new(NibbleNodes::generate(rng, sub));
            let child_divisor = Box::new(NibbleNodes::generate(rng, sub));
            NibbleNodes::Divide { child_value, child_divisor }
        } else if pick == 4 {
            let child_value = Box::new(NibbleNodes::generate(rng, sub));
            let child_divisor = Box::new(NibbleNodes::generate(rng, sub));
            NibbleNodes::Modulus { child_value, child_divisor }
        } else if pick == 5 {
            let a = Box::new(BooleanNodes::generate(rng, sub));
            let b = Box::new(BooleanNodes::generate(rng, sub));
            let c = Box::new(BooleanNodes::generate(rng, sub));
            let d = Box::new(BooleanNodes::generate(rng, sub));
            NibbleNodes::FromBooleans { a, b, c, d }
        } else if pick == 6 {
            let child = Box::new(ByteNodes::generate(rng, sub));
            NibbleNodes::FromByteModulo { child }
        } else if pick == 7 {
            let child = Box::new(ByteNodes::generate(rng, sub));
            NibbleNodes::FromByteDivide { child }
        } else if pick == 8 {
            NibbleNodes::FromGametic
        } else {
            let predicate = Box::new(BooleanNodes::generate(rng, sub));
            let child_a = Box::new(NibbleNodes::generate(rng, sub));
            let child_b = Box::new(NibbleNodes::generate(rng, sub));
            NibbleNodes::IfElse { predicate, child_a, child_b }
        }
    }

    /// A random tree within the depth budget: a variant drawn by weight, then
    /// grown. With no budget it is a leaf.
    pub fn generate(rng: &mut rand::rngs::StdRng, arg: GenArg) -> (r: Self)
        ensures
            r.wf(),
            r.height() <= arg.depth,
            arg.depth == 0 ==> r.is_leaf(),
            r.variant_index() < Self::class_table().len(),
            class_weight(Self::class_table()[r.variant_index() as int], arg.depth) > 0,
        decreases arg.depth, 1int,
    {
        let classes = Self::variant_classes();
        proof {
            assert(classes@[0] == NodeClass::Leaf);
        }
        let pick = choose_variant(rng, &classes, arg);
        Self::generate_variant(rng, arg, pick)
    }

    /// Whether the tree is no deeper than `ceiling`: the check that a loaded
    /// tree must pass before it joins the population.
    pub fn within_depth(&self, ceiling: u32) -> (r: bool)
        ensures
            r == (self.height() <= ceiling),
        decreases self,
    {
        match self {
            NibbleNodes::Constant { .. } => true,
            NibbleNodes::Add { child_a, child_b } => {
                ceiling > 0 && child_a.within_depth(ceiling - 1)
                    && child_b.within_depth(ceiling - 1)
            },
            NibbleNodes::Multiply { child_a, child_b } => {
                ceiling > 0 && child_a.within_depth(ceiling - 1)
                    && child_b.within_depth(ceiling - 1)
            },
            NibbleNodes::Divide { child_value, child_divisor } => {
                ceiling > 0 && child_value.within_depth(ceiling - 1)
                    && child_divisor.within_depth(ceiling - 1)
            },
            NibbleNodes::Modulus { child_value, child_divisor } => {
                ceiling > 0 && child_value.within_depth(ceiling - 1)
                    && child_divisor.within_depth(ceiling - 1)
            },
            NibbleNodes::FromBooleans { a, b, c, d } => {
                ceiling > 0 && a.within_depth(ceiling - 1)
                    && b.within_depth(ceiling - 1)
                    && c.within_depth(ceiling - 1)
                    && d.within_depth(ceiling - 1)
            },
            NibbleNodes::FromByteModulo { child } => ceiling > 0 && child.within_depth(ceiling - 1),
            NibbleNodes::FromByteDivide { child } => ceiling > 0 && child.within_depth(ceiling - 1),
            NibbleNodes::FromGametic => true,
            NibbleNodes::IfElse { predicate, child_a, child_b } => {
                ceiling > 0 && predicate.within_depth(ceiling - 1)
                    && child_a.within_depth(ceiling - 1)
                    && child_b.within_depth(ceiling - 1)
            },
        }
    }

    /// Whether every nibble constant in the tree is in range, as `compute` needs.
    pub fn is_valid(&self) -> (r: bool)
        ensures
            r == self.wf(),
        decreases self,
    {
        match self {
            NibbleNodes::Constant { value } => value.value < Nibble::MODULUS,
            NibbleNodes::Add { child_a, child_b } => child_a.is_valid() && child_b.is_valid(),
            NibbleNodes::Multiply { child_a, child_b } => child_a.is_valid() && child_b.is_valid(),
            NibbleNodes::Divide { child_value, child_divisor } => {
                child_value.is_valid()
                    && child_divisor.is_valid()
            },
            NibbleNodes::Modulus { child_value, child_divisor } => {
                child_value.is_valid()
                    && child_divisor.is_valid()
            },
            NibbleNodes::FromBooleans { a, b, c, d } => {
                a.is_valid()
                    && b.is_valid()
                    && c.is_valid()
                    && d.is_valid()
            },
            NibbleNodes::FromByteModulo { child } => child.is_valid(),
            NibbleNodes::FromByteDivide { child } => child.is_valid(),
            NibbleNodes::IfElse { predicate, child_a, child_b } => {
                predicate.is_valid()
                    && child_a.is_valid()
                    && child_b.is_valid()
            },
            _ => true,
        }
    }
}

impl ByteNodes {
    /// Levels of the tree below this node; sibling-family children count as leaves.
    pub open spec fn height(self) -> nat
        decreases self,
    {
        match self {
            ByteNodes::Constant { .. } => 0,
            ByteNodes::Add { child_a, child_b } => 1 + max2(child_a.height(), child_b.height()),
            ByteNodes::Multiply { child_a, child_b } => 1 + max2(
                child_a.height(),
                child_b.height(),
            ),
            ByteNodes::MultiplyNibbles { child_a, child_b } => 1 + max2(
                child_a.height(),
                child_b.height(),
            ),
            ByteNodes::Divide { child_value, child_divisor } => 1 + max2(
                child_value.height(),
                child_divisor.height(),
            ),
            ByteNodes::Modulus { child_value, child_divisor } => 1 + max2(
                child_value.height(),
                child_divisor.height(),
            ),
            ByteNodes::FromIterativeResult { .. } => 1,
            ByteNodes::FromGametic => 0,
            ByteNodes::IfElse { predicate, child_a, child_b } => 1 + max3(
                predicate.height(),
                child_a.height(),
                child_b.height(),
            ),
        }
    }

    /// The position of the node's variant in declaration order.
    pub open spec fn variant_index(self) -> nat {
        match self {
            ByteNodes::Constant { .. } => 0,
            ByteNodes::Add { .. } => 1,
            ByteNodes::Multiply { .. } => 2,
            ByteNodes::MultiplyNibbles { .. } => 3,
            ByteNodes::Divide { .. } => 4,
            ByteNodes::Modulus { .. } => 5,
            ByteNodes::FromIterativeResult { .. } => 6,
            ByteNodes::FromGametic => 7,
            ByteNodes::IfElse { .. } => 8,
        }
    }

    pub open spec fn is_leaf(self) -> bool {
        self is Constant || self is FromGametic
    }

    /// The weight class of each variant, in declaration order.
    pub open spec fn class_table() -> Seq<NodeClass> {
        seq![
            NodeClass::Leaf, NodeClass::Branch, NodeClass::Branch, NodeClass::Branch,
            NodeClass::Branch, NodeClass::Branch, NodeClass::Pipe, NodeClass::Leaf,
            NodeClass::Branch,
        ]
    }

    pub fn variant_classes() -> (r: Vec<NodeClass>)
        ensures
            r@ == Self::class_table(),
    {
        vec![
            NodeClass::Leaf,
            NodeClass::Branch,
            NodeClass::Branch,
            NodeClass::Branch,
            NodeClass::Branch,
            NodeClass::Branch,
            NodeClass::Pipe,
            NodeClass::Leaf,
            NodeClass::Branch,
        ]
    }

    /// A random tree whose root is the variant at `pick`, its children grown
    /// within the remaining budget. Only a leaf fits a budget of zero.
    pub fn generate_variant(rng: &mut rand::rngs::StdRng, arg: GenArg, pick: usize) -> (r: Self)
        requires
            pick < 9,
            arg.depth > 0 || Self::class_table()[pick as int] == NodeClass::Leaf,
        ensures
            r.variant_index() == pick,
            r.is_leaf() == (Self::class_table()[pick as int] == NodeClass::Leaf),
            r.wf(),
            r.height() <= arg.depth,
        decreases arg.depth, 0int,
    {
        let sub = arg.child();
        if pick == 0 {
            ByteNodes::Constant { value: Byte::random(rng) }
        } else if pick == 1 {
            let child_a = Box::new(ByteNodes::generate(rng, sub));
            let child_b = Box::new(ByteNodes::generate(rng, sub));
            ByteNodes::Add { child_a, child_b }
        } else if pick == 2 {
            let child_a = Box::new(ByteNodes::generate(rng, sub));
            let child_b = Box::new(ByteNodes::generate(rng, sub));
            ByteNodes::Multiply { child_a, child_b }
        } else if pick == 3 {
            let child_a = Box::new(NibbleNodes::generate(rng, sub));
            let child_b = Box::new(NibbleNodes::generate(rng, sub));
            ByteNodes::MultiplyNibbles { child_a, child_b }
        } else if pick == 4 {
            let child_value = Box::new(ByteNodes::generate(rng, sub));
            let child_divisor = Box::new(ByteNodes::generate(rng, sub));
            ByteNodes::Divide { child_value, child_divisor }
        } else if pick == 5 {
            let child_value = Box::new(ByteNodes::generate(rng, sub));
            let child_divisor = Box::new(ByteNodes::generate(rng, sub));
            ByteNodes::Modulus { child_value, child_divisor }
        } else if pick == 6 {
            let child = Box::new(IterativeFunctionNodes::generate(rng, sub));
            ByteNodes::FromIterativeResult { child }
        } else if pick == 7 {
            ByteNodes::FromGametic
        } else {
            let predicate = Box::new(BooleanNodes::generate(rng, sub));
            let child_a = Box::new(ByteNodes::generate(rng, sub));
            let child_b = Box::new(ByteNodes::generate(rng, sub));
            ByteNodes::IfElse { predicate, child_a, child_b }
        }
    }

    /// A random tree within the depth budget: a variant drawn by weight, then
    /// grown. With no budget it is a leaf.
    pub fn generate(rng: &mut rand::rngs::StdRng, arg: GenArg) -> (r: Self)
        ensures
            r.wf(),
            r.height() <= arg.depth,
            arg.depth == 0 ==> r.is_leaf(),
            r.variant_index() < Self::class_table().len(),
            class_weight(Self::class_table()[r.variant_index() as int], arg.depth) > 0,
        decreases arg.depth, 1int,
    {
        let classes = Self::variant_classes();
        proof {
            assert(classes@[0] == NodeClass::Leaf);
        }
        let pick = choose_variant(rng, &classes, arg);
        Self::generate_variant(rng, arg, pick)
    }

    /// Whether the tree is no deeper than `ceiling`: the check that a loaded
    /// tree must pass before it joins the population.
    pub fn within_depth(&self, ceiling: u32) -> (r: bool)
        ensures
            r == (self.height() <= ceiling),
        decreases self,
    {
        match self {
            ByteNodes::Constant { .. } => true,
            ByteNodes::Add { child_a, child_b } => {
                ceiling > 0 && child_a.within_depth(ceiling - 1)
                    && child_b.within_depth(ceiling - 1)
            },
            ByteNodes::Multiply { child_a, child_b } => {
                ceiling > 0 && child_a.within_depth(ceiling - 1)
                    && child_b.within_depth(ceiling - 1)
            },
            ByteNodes::MultiplyNibbles { child_a, child_b } => {
                ceiling > 0 && child_a.within_depth(ceiling - 1)
                    && child_b.within_depth(ceiling - 1)
            },
            ByteNodes::Divide { child_value, child_divisor } => {
                ceiling > 0 && child_value.within_depth(ceiling - 1)
                    && child_divisor.within_depth(ceiling - 1)
            },
            ByteNodes::Modulus { child_value, child_divisor } => {
                ceiling > 0 && child_value.within_depth(ceiling - 1)
                    && child_divisor.within_depth(ceiling - 1)
            },
            ByteNodes::FromIterativeResult { .. } => ceiling > 0,
            ByteNodes::FromGametic => true,
            ByteNodes::IfElse { predicate, child_a, child_b } => {
                ceiling > 0 && predicate.within_depth(ceiling - 1)
                    && child_a.within_depth(ceiling - 1)
                    && child_b.within_depth(ceiling - 1)
            },
        }
    }

    /// Whether every nibble constant in the tree is in range, as `compute` needs.
    pub fn is_valid(&self) -> (r: bool)
        ensures
            r == self.wf(),
        decreases self,
    {
        match self {
            ByteNodes::Add { child_a, child_b } => child_a.is_valid() && child_b.is_valid(),
            ByteNodes::Multiply { child_a, child_b } => child_a.is_valid() && child_b.is_valid(),
            ByteNodes::MultiplyNibbles { child_a, child_b } => {
                child_a.is_valid()
                    && child_b.is_valid()
            },
            ByteNodes::Divide { child_value, child_divisor } => {
                child_value.is_valid()
                    && child_divisor.is_valid()
            },
            ByteNodes::Modulus { child_value, child_divisor } => {
                child_value.is_valid()
                    && child_divisor.is_valid()
            },
            ByteNodes::IfElse { predicate, child_a, child_b } => {
                predicate.is_valid()
                    && child_a.is_valid()
                    && child_b.is_valid()
            },
            _ => true,
        }
    }
}

impl UIntNodes {
    /// Levels of the tree below this node; sibling-family children count as leaves.
    pub open spec fn height(self) -> nat
        decreases self,
    {
        match self {
            UIntNodes::Constant { .. } => 0,
            UIntNodes::Add { child_a, child_b } => 1 + max2(child_a.height(), child_b.height()),
            UIntNodes::Multiply { child_a, child_b } => 1 + max2(
                child_a.height(),
                child_b.height(),
            ),
            UIntNodes::Divide { child_value, child_divisor } => 1 + max2(
                child_value.height(),
                child_divisor.height(),
            ),
            UIntNodes::Modulus { child_value, child_divisor } => 1 + max2(
                child_value.height(),
                child_divisor.height(),
            ),
            UIntNodes::FromGametic => 0,
            UIntNodes::IfElse { predicate, child_a, child_b } => 1 + max3(
                predicate.height(),
                child_a.height(),
                child_b.height(),
            ),
        }
    }

    /// The position of the node's variant in declaration order.
    pub open spec fn variant_index(self) -> nat {
        match self {
            UIntNodes::Constant { .. } => 0,
            UIntNodes::Add { .. } => 1,
            UIntNodes::Multiply { .. } => 2,
            UIntNodes::Divide { .. } => 3,
            UIntNodes::Modulus { .. } => 4,
            UIntNodes::FromGametic => 5,
            UIntNodes::IfElse { .. } => 6,
        }
    }

    pub open spec fn is_leaf(self) -> bool {
        self is Constant || self is FromGametic
    }

    /// The weight class of each variant, in declaration order.
    pub open spec fn class_table() -> Seq<NodeClass> {
        seq![
            NodeClass::Leaf, NodeClass::Branch, NodeClass::Branch, NodeClass::Branch,
            NodeClass::Branch, NodeClass::Leaf, NodeClass::Branch,
        ]
    }

    pub fn variant_classes() -> (r: Vec<NodeClass>)
        ensures
            r@ == Self::class_table(),
    {
        vec![
            NodeClass::Leaf,
            NodeClass::Branch,
            NodeClass::Branch,
            NodeClass::Branch,
            NodeClass::Branch,
            NodeClass::Leaf,
            NodeClass::Branch,
        ]
    }

    /// A random tree whose root is the variant at `pick`, its children grown
    /// within the remaining budget. Only a leaf fits a budget of zero.
    pub fn generate_variant(rng: &mut rand::rngs::StdRng, arg: GenArg, pick: usize) -> (r: Self)
        requires
            pick < 7,
            arg.depth > 0 || Self::class_table()[pick as int] == NodeClass::Leaf,
        ensures
            r.variant_index() == pick,
            r.is_leaf() == (Self::class_table()[pick as int] == NodeClass::Leaf),
            r.wf(),
            r.height() <= arg.depth,
        decreases arg.depth, 0int,
    {
        let sub = arg.child();
        if pick == 0 {
            UIntNodes::Constant { value: UInt::random(rng) }
        } else if pick == 1 {
            let child_a = Box::new(UIntNodes::generate(rng, sub));
            let child_b = Box::new(UIntNodes::generate(rng, sub));
            UIntNodes::Add { child_a, child_b }
        } else if pick == 2 {
            let child_a = Box::new(UIntNodes::generate(rng, sub));
            let child_b = Box::new(UIntNodes::generate(rng, sub));
            UIntNodes::Multiply { child_a, child_b }
        } else if pick == 3 {
            let child_value = Box::new(UIntNodes::generate(rng, sub));
            let child_divisor = Box::new(UIntNodes::generate(rng, sub));
            UIntNodes::Divide { child_value, child_divisor }
        } else if pick == 4 {
            let child_value = Box::new(UIntNodes::generate(rng, sub));
            let child_divisor = Box::new(UIntNodes::generate(rng, sub));
            UIntNodes::Modulus { child_value, child_divisor }
        } else if pick == 5 {
            UIntNodes::FromGametic
        } else {
            let predicate = Box::new(BooleanNodes::generate(rng, sub));
            let child_a = Box::new(UIntNodes::generate(rng, sub));
            let child_b = Box::new(UIntNodes::generate(rng, sub));
            UIntNodes::IfElse { predicate, child_a, child_b }
        }
    }

    /// A random tree within the depth budget: a variant drawn by weight, then
    /// grown. With no budget it is a leaf.
    pub fn generate(rng: &mut rand::rngs::StdRng, arg: GenArg) -> (r: Self)
        ensures
            r.wf(),
            r.height() <= arg.depth,
            arg.depth == 0 ==> r.is_leaf(),
            r.variant_index() < Self::class_table().len(),
            class_weight(Self::class_table()[r.variant_index() as int], arg.depth) > 0,
        decreases arg.depth, 1int,
    {
        let classes = Self::variant_classes();
        proof {
            assert(classes@[0] == NodeClass::Leaf);
        }
        let pick = choose_variant(rng, &classes, arg);
        Self::generate_variant(rng, arg, pick)
    }

    /// Whether the tree is no deeper than `ceiling`: the check that a loaded
    /// tree must pass before it joins the population.
    pub fn within_depth(&self, ceiling: u32) -> (r: bool)
        ensures
            r == (self.height() <= ceiling),
        decreases self,
    {
        match self {
            UIntNodes::Constant { .. } => true,
            UIntNodes::Add { child_a, child_b } => {
                ceiling > 0 && child_a.within_depth(ceiling - 1)
                    && child_b.within_depth(ceiling - 1)
            },
            UIntNodes::Multiply { child_a, child_b } => {
                ceiling > 0 && child_a.within_depth(ceiling - 1)
                    && child_b.within_depth(ceiling - 1)
            },
            UIntNodes::Divide { child_value, child_divisor } => {
                ceiling > 0 && child_value.within_depth(ceiling - 1)
                    && child_divisor.within_depth(ceiling - 1)
            },
            UIntNodes::Modulus { child_value, child_divisor } => {
                ceiling > 0 && child_value.within_depth(ceiling - 1)
                    && child_divisor.within_depth(ceiling - 1)
            },
            UIntNodes::FromGametic => true,
            UIntNodes::IfElse { predicate, child_a, child_b } => {
                ceiling > 0 && predicate.within_depth(ceiling - 1)
                    && child_a.within_depth(ceiling - 1)
                    && child_b.within_depth(ceiling - 1)
            },
        }
    }

    /// Whether every nibble constant in the tree is in range, as `compute` needs.
    pub fn is_valid(&self) -> (r: bool)
        ensures
            r == self.wf(),
        decreases self,
    {
        match self {
            UIntNodes::Add { child_a, child_b } => child_a.is_valid() && child_b.is_valid(),
            UIntNodes::Multiply { child_a, child_b } => child_a.is_valid() && child_b.is_valid(),
            UIntNodes::Divide { child_value, child_divisor } => {
                child_value.is_valid()
                    && child_divisor.is_valid()
            },
            UIntNodes::Modulus { child_value, child_divisor } => {
                child_value.is_valid()
                    && child_divisor.is_valid()
            },
            UIntNodes::IfElse { predicate, child_a, child_b } => {
                predicate.is_valid()
                    && child_a.is_valid()
                    && child_b.is_valid()
            },
            _ => true,
        }
    }
}

impl SIntNodes {
    /// Levels of the tree below this node; sibling-family children count as leaves.
    pub open spec fn height(self) -> nat
        decreases self,
    {
        match self {
            SIntNodes::Constant { .. } => 0,
            SIntNodes::Add { child_a, child_b } => 1 + max2(child_a.height(), child_b.height()),
            SIntNodes::Multiply { child_a, child_b } => 1 + max2(
                child_a.height(),
                child_b.height(),
            ),
            SIntNodes::Divide { child_value, child_divisor } => 1 + max2(
                child_value.height(),
                child_divisor.height(),
            ),
            SIntNodes::Modulus { child_value, child_divisor } => 1 + max2(
                child_value.height(),
                child_divisor.height(),
            ),
            SIntNodes::IfElse { predicate, child_a, child_b } => 1 + max3(
                predicate.height(),
                child_a.height(),
                child_b.height(),
            ),
        }
    }

    /// The position of the node's variant in declaration order.
    pub open spec fn variant_index(self) -> nat {
        match self {
            SIntNodes::Constant { .. } => 0,
            SIntNodes::Add { .. } => 1,
            SIntNodes::Multiply { .. } => 2,
            SIntNodes::Divide { .. } => 3,
            SIntNodes::Modulus { .. } => 4,
            SIntNodes::IfElse { .. } => 5,
        }
    }

    pub open spec fn is_leaf(self) -> bool {
        self is Constant
    }

    /// The weight class of each variant, in declaration order.
    pub open spec fn class_table() -> Seq<NodeClass> {
        seq![
            NodeClass::Leaf, NodeClass::Branch, NodeClass::Branch, NodeClass::Branch,
            NodeClass::Branch, NodeClass::Branch,
        ]
    }

    pub fn variant_classes() -> (r: Vec<NodeClass>)
        ensures
            r@ == Self::class_table(),
    {
        vec![
            NodeClass::Leaf,
            NodeClass::Branch,
            NodeClass::Branch,
            NodeClass::Branch,
            NodeClass::Branch,
            NodeClass::Branch,
        ]
    }

    /// A random tree whose root is the variant at `pick`, its children grown
    /// within the remaining budget. Only a leaf fits a budget of zero.
    pub fn generate_variant(rng: &mut rand::rngs::StdRng, arg: GenArg, pick: usize) -> (r: Self)
        requires
            pick < 6,
            arg.depth > 0 || Self::class_table()[pick as int] == NodeClass::Leaf,
        ensures
            r.variant_index() == pick,
            r.is_leaf() == (Self::class_table()[pick as int] == NodeClass::Leaf),
            r.wf(),
            r.height() <= arg.depth,
        decreases arg.depth, 0int,
    {
        let sub = arg.child();
        if pick == 0 {
            SIntNodes::Constant { value: SInt::random(rng) }
        } else if pick == 1 {
            let child_a = Box::new(SIntNodes::generate(rng, sub));
            let child_b = Box::new(SIntNodes::generate(rng, sub));
            SIntNodes::Add { child_a, child_b }
        } else if pick == 2 {
            let child_a = Box::new(SIntNodes::generate(rng, sub));
            let child_b = Box::new(SIntNodes::generate(rng, sub));
            SIntNodes::Multiply { child_a, child_b }
        } else if pick == 3 {
            let child_value = Box::new(SIntNodes::generate(rng, sub));
            let child_divisor = Box::new(SIntNodes::generate(rng, sub));
            SIntNodes::Divide { child_value, child_divisor }
        } else if pick == 4 {
            let child_value = Box::new(SIntNodes::generate(rng, sub));
            let child_divisor = Box::new(SIntNodes::generate(rng, sub));
            SIntNodes::Modulus { child_value, child_divisor }
        } else {
            let predicate = Box::new(BooleanNodes::generate(rng, sub));
            let child_a = Box::new(SIntNodes::generate(rng, sub));
            let child_b = Box::new(SIntNodes::generate(rng, sub));
            SIntNodes::IfElse { predicate, child_a, child_b }
        }
    }

    /// A random tree within the depth budget: a variant drawn by weight, then
    /// grown. With no budget it is a leaf.
    pub fn generate(rng: &mut rand::rngs::StdRng, arg: GenArg) -> (r: Self)
        ensures
            r.wf(),
            r.height() <= arg.depth,
            arg.depth == 0 ==> r.is_leaf(),
            r.variant_index() < Self::class_table().len(),
            class_weight(Self::class_table()[r.variant_index() as int], arg.depth) > 0,
        decreases arg.depth, 1int,
    {
        let classes = Self::variant_classes();
        proof {
            assert(classes@[0] == NodeClass::Leaf);
        }
        let pick = choose_variant(rng, &classes, arg);
        Self::generate_variant(rng, arg, pick)
    }

    /// Whether the tree is no deeper than `ceiling`: the check that a loaded
    /// tree must pass before it joins the population.
    pub fn within_depth(&self, ceiling: u32) -> (r: bool)
        ensures
            r == (self.height() <= ceiling),
        decreases self,
    {
        match self {
            SIntNodes::Constant { .. } => true,
            SIntNodes::Add { child_a, child_b } => {
                ceiling > 0 && child_a.within_depth(ceiling - 1)
                    && child_b.within_depth(ceiling - 1)
            },
            SIntNodes::Multiply { child_a, child_b } => {
                ceiling > 0 && child_a.within_depth(ceiling - 1)
                    && child_b.within_depth(ceiling - 1)
            },
            SIntNodes::Divide { child_value, child_divisor } => {
                ceiling > 0 && child_value.within_depth(ceiling - 1)
                    && child_divisor.within_depth(ceiling - 1)
            },
            SIntNodes::Modulus { child_value, child_divisor } => {
                ceiling > 0 && child_value.within_depth(ceiling - 1)
                    && child_divisor.within_depth(ceiling - 1)
            },
            SIntNodes::IfElse { predicate, child_a, child_b } => {
                ceiling > 0 && predicate.within_depth(ceiling - 1)
                    && child_a.within_depth(ceiling - 1)
                    && child_b.within_depth(ceiling - 1)
            },
        }
    }

    /// Whether every nibble constant in the tree is in range, as `compute` needs.
    pub fn is_valid(&self) -> (r: bool)
        ensures
            r == self.wf(),
        decreases self,
    {
        match self {
            SIntNodes::Add { child_a, child_b } => child_a.is_valid() && child_b.is_valid(),
            SIntNodes::Multiply { child_a, child_b } => child_a.is_valid() && child_b.is_valid(),
            SIntNodes::Divide { child_value, child_divisor } => {
                child_value.is_valid()
                    && child_divisor.is_valid()
            },
            SIntNodes::Modulus { child_value, child_divisor } => {
                child_value.is_valid()
                    && child_divisor.is_valid()
            },
            SIntNodes::IfElse { predicate, child_a, child_b } => {
                predicate.is_valid()
                    && child_a.is_valid()
                    && child_b.is_valid()
            },
            _ => true,
        }
    }
}

} // verus!
