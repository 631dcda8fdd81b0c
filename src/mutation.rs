//! Evolving trees between generations: a mutation pass rerolls each node with
//! a configured chance, and an update pass visits every node under the live
//! context.
use crate::discrete::{Boolean, SInt};
use crate::nodes::{BooleanNodes, ByteNodes, NibbleNodes, SIntNodes, UIntNodes};
use crate::siblings::{ComArg, MutArg, REROLL_SCALE};
use vstd::prelude::*;

verus! {

impl BooleanNodes {
    /// What a mutation pass may make of this tree: a fresh, valid tree within
    /// the budget when the chance allows a reroll, or, when the chance is not
    /// certain, the same variant whose children have each taken their own pass.
    pub open spec fn passes_to(self, r: Self, arg: MutArg) -> bool
        decreases self, 1int,
    {
        (arg.reroll_chance > 0 && r.wf() && r.height() <= arg.depth) || (arg.reroll_chance
            < REROLL_SCALE && self.kept_in(r, arg))
    }

    /// `r` has this node's variant, the same leaf values, and children that
    /// are each a pass of this node's children, one level down the budget.
    pub open spec fn kept_in(self, r: Self, arg: MutArg) -> bool
        decreases self, 0int,
    {
        match self {
            BooleanNodes::UNFloatLess { child_a, child_b } => match r {
                BooleanNodes::UNFloatLess { child_a: new_child_a, child_b: new_child_b } => {
                    child_a.passes_to(*new_child_a, arg.below())
                        && child_b.passes_to(*new_child_b, arg.below())
                },
                _ => false,
            },
            BooleanNodes::UNFloatMore { child_a, child_b } => match r {
                BooleanNodes::UNFloatMore { child_a: new_child_a, child_b: new_child_b } => {
                    child_a.passes_to(*new_child_a, arg.below())
                        && child_b.passes_to(*new_child_b, arg.below())
                },
                _ => false,
            },
            BooleanNodes::UNFloatBetween { child_value, child_range_a, child_range_b } => match r {
                BooleanNodes::UNFloatBetween {
                    child_value: new_child_value,
                    child_range_a: new_child_range_a,
                    child_range_b: new_child_range_b,
                } => {
                    child_value.passes_to(*new_child_value, arg.below())
                        && child_range_a.passes_to(*new_child_range_a, arg.below())
                        && child_range_b.passes_to(*new_child_range_b, arg.below())
                },
                _ => false,
            },
            BooleanNodes::SNFloatLess { child_a, child_b } => match r {
                BooleanNodes::SNFloatLess { child_a: new_child_a, child_b: new_child_b } => {
                    child_a.passes_to(*new_child_a, arg.below())
                        && child_b.passes_to(*new_child_b, arg.below())
                },
                _ => false,
            },
            BooleanNodes::SNFloatMore { child_a, child_b } => match r {
                BooleanNodes::SNFloatMore { child_a: new_child_a, child_b: new_child_b } => {
                    child_a.passes_to(*new_child_a, arg.below())
                        && child_b.passes_to(*new_child_b, arg.below())
                },
                _ => false,
            },
            BooleanNodes::SNFloatBetween { child_value, child_range_a, child_range_b } => match r {
                BooleanNodes::SNFloatBetween {
                    child_value: new_child_value,
                    child_range_a: new_child_range_a,
                    child_range_b: new_child_range_b,
                } => {
                    child_value.passes_to(*new_child_value, arg.below())
                        && child_range_a.passes_to(*new_child_range_a, arg.below())
                        && child_range_b.passes_to(*new_child_range_b, arg.below())
                },
                _ => false,
            },
            BooleanNodes::SNFloatSign { child } => match r {
                BooleanNodes::SNFloatSign {
                    child: new_child,
                } => child.passes_to(*new_child, arg.below()),
                _ => false,
            },
            BooleanNodes::And { child_a, child_b } => match r {
                BooleanNodes::And { child_a: new_child_a, child_b: new_child_b } => {
                    child_a.passes_to(*new_child_a, arg.below())
                        && child_b.passes_to(*new_child_b, arg.below())
                },
                _ => false,
            },
            BooleanNodes::Or { child_a, child_b } => match r {
                BooleanNodes::Or { child_a: new_child_a, child_b: new_child_b } => {
                    child_a.passes_to(*new_child_a, arg.below())
                        && child_b.passes_to(*new_child_b, arg.below())
                },
                _ => false,
            },
            BooleanNodes::Not { child } => match r {
                BooleanNodes::Not { child: new_child } => child.passes_to(*new_child, arg.below()),
                _ => false,
            },
            BooleanNodes::BitColorHas { child_a, child_b } => match r {
                BooleanNodes::BitColorHas { child_a: new_child_a, child_b: new_child_b } => {
                    child_a.passes_to(*new_child_a, arg.below())
                        && child_b.passes_to(*new_child_b, arg.below())
                },
                _ => false,
            },
            BooleanNodes::ModifyState { child, child_state } => match r {
                BooleanNodes::ModifyState { child: new_child, child_state: new_child_state } => {
                    child.passes_to(*new_child, arg.below())
                        && child_state.passes_to(*new_child_state, arg.below())
                },
                _ => false,
            },
            BooleanNodes::IfElse { predicate, child_a, child_b } => match r {
                BooleanNodes::IfElse {
                    predicate: new_predicate,
                    child_a: new_child_a,
                    child_b: new_child_b,
                } => {
                    predicate.passes_to(*new_predicate, arg.below())
                        && child_a.passes_to(*new_child_a, arg.below())
                        && child_b.passes_to(*new_child_b, arg.below())
                },
                _ => false,
            },
            BooleanNodes::ByteEquals { child_a, child_b } => match r {
                BooleanNodes::ByteEquals { child_a: new_child_a, child_b: new_child_b } => {
                    child_a.passes_to(*new_child_a, arg.below())
                        && child_b.passes_to(*new_child_b, arg.below())
                },
                _ => false,
            },
            leaf => r == leaf,
        }
    }

    /// The rest of a mutation pass once the reroll has been drawn: a rerolled
    /// node is replaced by a fresh tree, and a kept one passes each child on.
    pub fn mutated_given(self, reroll: bool, rng: &mut rand::rngs::StdRng, arg: MutArg) -> (r:
        Self)
        requires
            self.wf(),
            arg.wf(),
        ensures
            r.wf(),
            reroll ==> r.height() <= arg.depth,
            !reroll ==> r.variant_index() == self.variant_index(),
            !reroll && self.is_leaf() ==> r == self,
            !reroll ==> self.kept_in(r, arg),
            !reroll && arg.reroll_chance == 0 ==> r == self,
            !reroll && self.height() <= arg.depth ==> r.height() <= arg.depth,
        decreases self, 0int,
    {
        if reroll {
            return Self::generate(rng, arg.generation());
        }
        let sub = arg.child();
        match self {
            BooleanNodes::UNFloatLess { child_a, child_b } => {
                let child_a = Box::new((*child_a).mutated(rng, sub));
                let child_b = Box::new((*child_b).mutated(rng, sub));
                BooleanNodes::UNFloatLess { child_a, child_b }
            },
            BooleanNodes::UNFloatMore { child_a, child_b } => {
                let child_a = Box::new((*child_a).mutated(rng, sub));
                let child_b = Box::new((*child_b).mutated(rng, sub));
                BooleanNodes::UNFloatMore { child_a, child_b }
            },
            BooleanNodes::UNFloatBetween { child_value, child_range_a, child_range_b } => {
                let child_value = Box::new((*child_value).mutated(rng, sub));
                let child_range_a = Box::new((*child_range_a).mutated(rng, sub));
                let child_range_b = Box::new((*child_range_b).mutated(rng, sub));
                BooleanNodes::UNFloatBetween { child_value, child_range_a, child_range_b }
            },
            BooleanNodes::SNFloatLess { child_a, child_b } => {
                let child_a = Box::new((*child_a).mutated(rng, sub));
                let child_b = Box::new((*child_b).mutated(rng, sub));
                BooleanNodes::SNFloatLess { child_a, child_b }
            },
            BooleanNodes::SNFloatMore { child_a, child_b } => {
                let child_a = Box::new((*child_a).mutated(rng, sub));
                let child_b = Box::new((*child_b).mutated(rng, sub));
                BooleanNodes::SNFloatMore { child_a, child_b }
            },
            BooleanNodes::SNFloatBetween { child_value, child_range_a, child_range_b } => {
                let child_value = Box::new((*child_value).mutated(rng, sub));
                let child_range_a = Box::new((*child_range_a).mutated(rng, sub));
                let child_range_b = Box::new((*child_range_b).mutated(rng, sub));
                BooleanNodes::SNFloatBetween { child_value, child_range_a, child_range_b }
            },
            BooleanNodes::SNFloatSign { child } => {
                let child = Box::new((*child).mutated(rng, sub));
                BooleanNodes::SNFloatSign { child }
            },
            BooleanNodes::And { child_a, child_b } => {
                let child_a = Box::new((*child_a).mutated(rng, sub));
                let child_b = Box::new((*child_b).mutated(rng, sub));
                BooleanNodes::And { child_a, child_b }
            },
            BooleanNodes::Or { child_a, child_b } => {
                let child_a = Box::new((*child_a).mutated(rng, sub));
                let child_b = Box::new((*child_b).mutated(rng, sub));
                BooleanNodes::Or { child_a, child_b }
            },
            BooleanNodes::Not { child } => {
                let child = Box::new((*child).mutated(rng, sub));
                BooleanNodes::Not { child }
            },
            BooleanNodes::BitColorHas { child_a, child_b } => {
                let child_a = Box::new((*child_a).mutated(rng, sub));
                let child_b = Box::new((*child_b).mutated(rng, sub));
                BooleanNodes::BitColorHas { child_a, child_b }
            },
            BooleanNodes::ModifyState { child, child_state } => {
                let child = Box::new((*child).mutated(rng, sub));
                let child_state = Box::new((*child_state).mutated(rng, sub));
                BooleanNodes::ModifyState { child, child_state }
            },
            BooleanNodes::IfElse { predicate, child_a, child_b } => {
                let predicate = Box::new((*predicate).mutated(rng, sub));
                let child_a = Box::new((*child_a).mutated(rng, sub));
                let child_b = Box::new((*child_b).mutated(rng, sub));
                BooleanNodes::IfElse { predicate, child_a, child_b }
            },
            BooleanNodes::ByteEquals { child_a, child_b } => {
                let child_a = Box::new((*child_a).mutated(rng, sub));
                let child_b = Box::new((*child_b).mutated(rng, sub));
                BooleanNodes::ByteEquals { child_a, child_b }
            },
            leaf => leaf,
        }
    }

    /// One mutation pass: this node is replaced by a fresh tree with the
    /// configured chance, and otherwise each child takes its own pass.
    pub fn mutated(self, rng: &mut rand::rngs::StdRng, arg: MutArg) -> (r: Self)
        requires
            self.wf(),
            arg.wf(),
        ensures
            r.wf(),
            self.passes_to(r, arg),
            arg.reroll_chance == 0 ==> r == self,
            arg.reroll_chance == REROLL_SCALE ==> r.height() <= arg.depth,
            self.height() <= arg.depth ==> r.height() <= arg.depth,
        decreases self, 1int,
    {
        let reroll = arg.reroll(rng);
        self.mutated_given(reroll, rng, arg)
    }

    /// Mutates the tree in place; see `mutated`.
    pub fn mutate(&mut self, rng: &mut rand::rngs::StdRng, arg: MutArg)
        requires
            old(self).wf(),
            arg.wf(),
        ensures
            final(self).wf(),
            old(self).passes_to(*final(self), arg),
            arg.reroll_chance == 0 ==> *final(self) == *old(self),
            arg.reroll_chance == REROLL_SCALE ==> final(self).height() <= arg.depth,
            old(self).height() <= arg.depth ==> final(self).height() <= arg.depth,
    {
        let mut current = BooleanNodes::Constant { value: Boolean::new(false) };
        std::mem::swap(self, &mut current);
        *self = current.mutated(rng, arg);
    }

    /// One update pass: every node is visited top-down under the live context.
    /// No node of these families carries state, so the tree comes back as it was.
    pub fn updated(self, arg: ComArg) -> (r: Self)
        ensures
            r == self,
        decreases self,
    {
        match self {
            BooleanNodes::UNFloatLess { child_a, child_b } => {
                let child_a = Box::new((*child_a).updated(arg));
                let child_b = Box::new((*child_b).updated(arg));
                BooleanNodes::UNFloatLess { child_a, child_b }
            },
            BooleanNodes::UNFloatMore { child_a, child_b } => {
                let child_a = Box::new((*child_a).updated(arg));
                let child_b = Box::new((*child_b).updated(arg));
                BooleanNodes::UNFloatMore { child_a, child_b }
            },
            BooleanNodes::UNFloatBetween { child_value, child_range_a, child_range_b } => {
                let child_value = Box::new((*child_value).updated(arg));
                let child_range_a = Box::new((*child_range_a).updated(arg));
                let child_range_b = Box::new((*child_range_b).updated(arg));
                BooleanNodes::UNFloatBetween { child_value, child_range_a, child_range_b }
            },
            BooleanNodes::SNFloatLess { child_a, child_b } => {
                let child_a = Box::new((*child_a).updated(arg));
                let child_b = Box::new((*child_b).updated(arg));
                BooleanNodes::SNFloatLess { child_a, child_b }
            },
            BooleanNodes::SNFloatMore { child_a, child_b } => {
                let child_a = Box::new((*child_a).updated(arg));
                let child_b = Box::new((*child_b).updated(arg));
                BooleanNodes::SNFloatMore { child_a, child_b }
            },
            BooleanNodes::SNFloatBetween { child_value, child_range_a, child_range_b } => {
                let child_value = Box::new((*child_value).updated(arg));
                let child_range_a = Box::new((*child_range_a).updated(arg));
                let child_range_b = Box::new((*child_range_b).updated(arg));
                BooleanNodes::SNFloatBetween { child_value, child_range_a, child_range_b }
            },
            BooleanNodes::SNFloatSign { child } => {
                let child = Box::new((*child).updated(arg));
                BooleanNodes::SNFloatSign { child }
            },
            BooleanNodes::And { child_a, child_b } => {
                let child_a = Box::new((*child_a).updated(arg));
                let child_b = Box::new((*child_b).updated(arg));
                BooleanNodes::And { child_a, child_b }
            },
            BooleanNodes::Or { child_a, child_b } => {
                let child_a = Box::new((*child_a).updated(arg));
                let child_b = Box::new((*child_b).updated(arg));
                BooleanNodes::Or { child_a, child_b }
            },
            BooleanNodes::Not { child } => {
                let child = Box::new((*child).updated(arg));
                BooleanNodes::Not { child }
            },
            BooleanNodes::BitColorHas { child_a, child_b } => {
                let child_a = Box::new((*child_a).updated(arg));
                let child_b = Box::new((*child_b).updated(arg));
                BooleanNodes::BitColorHas { child_a, child_b }
            },
            BooleanNodes::ModifyState { child, child_state } => {
                let child = Box::new((*child).updated(arg));
                let child_state = Box::new((*child_state).updated(arg));
                BooleanNodes::ModifyState { child, child_state }
            },
            BooleanNodes::IfElse { predicate, child_a, child_b } => {
                let predicate = Box::new((*predicate).updated(arg));
                let child_a = Box::new((*child_a).updated(arg));
                let child_b = Box::new((*child_b).updated(arg));
                BooleanNodes::IfElse { predicate, child_a, child_b }
            },
            BooleanNodes::ByteEquals { child_a, child_b } => {
                let child_a = Box::new((*child_a).updated(arg));
                let child_b = Box::new((*child_b).updated(arg));
                BooleanNodes::ByteEquals { child_a, child_b }
            },
            leaf => leaf,
        }
    }

    /// Updates the tree in place; see `updated`.
    pub fn update_recursively(&mut self, arg: ComArg)
        ensures
            *final(self) == *old(self),
    {
        let mut current = BooleanNodes::Constant { value: Boolean::new(false) };
        std::mem::swap(self, &mut current);
        *self = current.updated(arg);
    }
}

impl NibbleNodes {
    /// What a mutation pass may make of this tree: a fresh, valid tree within
    /// the budget when the chance allows a reroll, or, when the chance is not
    /// certain, the same variant whose children have each taken their own pass.
    pub open spec fn passes_to(self, r: Self, arg: MutArg) -> bool
        decreases self, 1int,
    {
        (arg.reroll_chance > 0 && r.wf() && r.height() <= arg.depth) || (arg.reroll_chance
            < REROLL_SCALE && self.kept_in(r, arg))
    }

    /// `r` has this node's variant, the same leaf values, and children that
    /// are each a pass of this node's children, one level down the budget.
    pub open spec fn kept_in(self, r: Self, arg: MutArg) -> bool
        decreases self, 0int,
    {
        match self {
            NibbleNodes::Add { child_a, child_b } => match r {
                NibbleNodes::Add { child_a: new_child_a, child_b: new_child_b } => {
                    child_a.passes_to(*new_child_a, arg.below())
                        && child_b.passes_to(*new_child_b, arg.below())
                },
                _ => false,
            },
            NibbleNodes::Multiply { child_a, child_b } => match r {
                NibbleNodes::Multiply { child_a: new_child_a, child_b: new_child_b } => {
                    child_a.passes_to(*new_child_a, arg.below())
                        && child_b.passes_to(*new_child_b, arg.below())
                },
                _ => false,
            },
            NibbleNodes::Divide { child_value, child_divisor } => match r {
                NibbleNodes::Divide {
                    child_value: new_child_value,
                    child_divisor: new_child_divisor,
                } => {
                    child_value.passes_to(*new_child_value, arg.below())
                        && child_divisor.passes_to(*new_child_divisor, arg.below())
                },
                _ => false,
            },
            NibbleNodes::Modulus { child_value, child_divisor } => match r {
                NibbleNodes::Modulus {
                    child_value: new_child_value,
                    child_divisor: new_child_divisor,
                } => {
                    child_value.passes_to(*new_child_value, arg.below())
                        && child_divisor.passes_to(*new_child_divisor, arg.below())
                },
                _ => false,
            },
            NibbleNodes::FromBooleans { a, b, c, d } => match r {
                NibbleNodes::FromBooleans { a: new_a, b: new_b, c: new_c, d: new_d } => {
                    a.passes_to(*new_a, arg.below())
                        && b.passes_to(*new_b, arg.below())
                        && c.passes_to(*new_c, arg.below())
                        && d.passes_to(*new_d, arg.below())
                },
                _ => false,
            },
            NibbleNodes::FromByteModulo { child } => match r {
                NibbleNodes::FromByteModulo {
                    child: new_child,
                } => child.passes_to(*new_child, arg.below()),
                _ => false,
            },
            NibbleNodes::FromByteDivide { child } => match r {
                NibbleNodes::FromByteDivide {
                    child: new_child,
                } => child.passes_to(*new_child, arg.below()),
                _ => false,
            },
            NibbleNodes::IfElse { predicate, child_a, child_b } => match r {
                NibbleNodes::IfElse {
                    predicate: new_predicate,
                    child_a: new_child_a,
                    child_b: new_child_b,
                } => {
                    predicate.passes_to(*new_predicate, arg.below())
                        && child_a.passes_to(*new_child_a, arg.below())
                        && child_b.passes_to(*new_child_b, arg.below())
                },
                _ => false,
            },
            leaf => r == leaf,
        }
    }

    /// The rest of a mutation pass once the reroll has been drawn: a rerolled
    /// node is replaced by a fresh tree, and a kept one passes each child on.
    pub fn mutated_given(self, reroll: bool, rng: &mut rand::rngs::StdRng, arg: MutArg) -> (r:
        Self)
        requires
            self.wf(),
            arg.wf(),
        ensures
            r.wf(),
            reroll ==> r.height() <= arg.depth,
            !reroll ==> r.variant_index() == self.variant_index(),
            !reroll && self.is_leaf() ==> r == self,
            !reroll ==> self.kept_in(r, arg),
            !reroll && arg.reroll_chance == 0 ==> r == self,
            !reroll && self.height() <= arg.depth ==> r.height() <= arg.depth,
        decreases self, 0int,
    {
        if reroll {
            return Self::generate(rng, arg.generation());
        }
        let sub = arg.child();
        match self {
            NibbleNodes::Add { child_a, child_b } => {
                let child_a = Box::new((*child_a).mutated(rng, sub));
                let child_b = Box::new((*child_b).mutated(rng, sub));
                NibbleNodes::Add { child_a, child_b }
            },
            NibbleNodes::Multiply { child_a, child_b } => {
                let child_a = Box::new((*child_a).mutated(rng, sub));
                let child_b = Box::new((*child_b).mutated(rng, sub));
                NibbleNodes::Multiply { child_a, child_b }
            },
            NibbleNodes::Divide { child_value, child_divisor } => {
                let child_value = Box::new((*child_value).mutated(rng, sub));
                let child_divisor = Box::new((*child_divisor).mutated(rng, sub));
                NibbleNodes::Divide { child_value, child_divisor }
            },
            NibbleNodes::Modulus { child_value, child_divisor } => {
                let child_value = Box::new((*child_value).mutated(rng, sub));
                let child_divisor = Box::new((*child_divisor).mutated(rng, sub));
                NibbleNodes::Modulus { child_value, child_divisor }
            },
            NibbleNodes::FromBooleans { a, b, c, d } => {
                let a = Box::new((*a).mutated(rng, sub));
                let b = Box::new((*b).mutated(rng, sub));
                let c = Box::new((*c).mutated(rng, sub));
                let d = Box::new((*d).mutated(rng, sub));
                NibbleNodes::FromBooleans { a, b, c, d }
            },
            NibbleNodes::FromByteModulo { child } => {
                let child = Box::new((*child).mutated(rng, sub));
                NibbleNodes::FromByteModulo { child }
            },
            NibbleNodes::FromByteDivide { child } => {
                let child = Box::new((*child).mutated(rng, sub));
                NibbleNodes::FromByteDivide { child }
            },
            NibbleNodes::IfElse { predicate, child_a, child_b } => {
                let predicate = Box::new((*predicate).mutated(rng, sub));
                let child_a = Box::new((*child_a).mutated(rng, sub));
                let child_b = Box::new((*child_b).mutated(rng, sub));
                NibbleNodes::IfElse { predicate, child_a, child_b }
            },
            leaf => leaf,
        }
    }

    /// One mutation pass: this node is replaced by a fresh tree with the
    /// configured chance, and otherwise each child takes its own pass.
    pub fn mutated(self, rng: &mut rand::rngs::StdRng, arg: MutArg) -> (r: Self)
        requires
            self.wf(),
            arg.wf(),
        ensures
            r.wf(),
            self.passes_to(r, arg),
            arg.reroll_chance == 0 ==> r == self,
            arg.reroll_chance == REROLL_SCALE ==> r.height() <= arg.depth,
            self.height() <= arg.depth ==> r.height() <= arg.depth,
        decreases self, 1int,
    {
        let reroll = arg.reroll(rng);
        self.mutated_given(reroll, rng, arg)
    }

    /// Mutates the tree in place; see `mutated`.
    pub fn mutate(&mut self, rng: &mut rand::rngs::StdRng, arg: MutArg)
        requires
            old(self).wf(),
            arg.wf(),
        ensures
            final(self).wf(),
            old(self).passes_to(*final(self), arg),
            arg.reroll_chance == 0 ==> *final(self) == *old(self),
            arg.reroll_chance == REROLL_SCALE ==> final(self).height() <= arg.depth,
            old(self).height() <= arg.depth ==> final(self).height() <= arg.depth,
    {
        let mut current = NibbleNodes::FromGametic;
        std::mem::swap(self, &mut current);
        *self = current.mutated(rng, arg);
    }

    /// One update pass: every node is visited top-down under the live context.
    /// No node of these families carries state, so the tree comes back as it was.
    pub fn updated(self, arg: ComArg) -> (r: Self)
        ensures
            r == self,
        decreases self,
    {
        match self {
            NibbleNodes::Add { child_a, child_b } => {
                let child_a = Box::new((*child_a).updated(arg));
                let child_b = Box::new((*child_b).updated(arg));
                NibbleNodes::Add { child_a, child_b }
            },
            NibbleNodes::Multiply { child_a, child_b } => {
                let child_a = Box::new((*child_a).updated(arg));
                let child_b = Box::new((*child_b).updated(arg));
                NibbleNodes::Multiply { child_a, child_b }
            },
            NibbleNodes::Divide { child_value, child_divisor } => {
                let child_value = Box::new((*child_value).updated(arg));
                let child_divisor = Box::new((*child_divisor).updated(arg));
                NibbleNodes::Divide { child_value, child_divisor }
            },
            NibbleNodes::Modulus { child_value, child_divisor } => {
                let child_value = Box::new((*child_value).updated(arg));
                let child_divisor = Box::new((*child_divisor).updated(arg));
                NibbleNodes::Modulus { child_value, child_divisor }
            },
            NibbleNodes::FromBooleans { a, b, c, d } => {
                let a = Box::new((*a).updated(arg));
                let b = Box::new((*b).updated(arg));
                let c = Box::new((*c).updated(arg));
                let d = Box::new((*d).updated(arg));
                NibbleNodes::FromBooleans { a, b, c, d }
            },
            NibbleNodes::FromByteModulo { child } => {
                let child = Box::new((*child).updated(arg));
                NibbleNodes::FromByteModulo { child }
            },
            NibbleNodes::FromByteDivide { child } => {
                let child = Box::new((*child).updated(arg));
                NibbleNodes::FromByteDivide { child }
            },
            NibbleNodes::IfElse { predicate, child_a, child_b } => {
                let predicate = Box::new((*predicate).updated(arg));
                let child_a = Box::new((*child_a).updated(arg));
                let child_b = Box::new((*child_b).updated(arg));
                NibbleNodes::IfElse { predicate, child_a, child_b }
            },
            leaf => leaf,
        }
    }

    /// Updates the tree in place; see `updated`.
    pub fn update_recursively(&mut self, arg: ComArg)
        ensures
            *final(self) == *old(self),
    {
        let mut current = NibbleNodes::FromGametic;
        std::mem::swap(self, &mut current);
        *self = current.updated(arg);
    }
}

impl ByteNodes {
    /// What a mutation pass may make of this tree: a fresh, valid tree within
    /// the budget when the chance allows a reroll, or, when the chance is not
    /// certain, the same variant whose children have each taken their own pass.
    pub open spec fn passes_to(self, r: Self, arg: MutArg) -> bool
        decreases self, 1int,
    {
        (arg.reroll_chance > 0 && r.wf() && r.height() <= arg.depth) || (arg.reroll_chance
            < REROLL_SCALE && self.kept_in(r, arg))
    }

    /// `r` has this node's variant, the same leaf values, and children that
    /// are each a pass of this node's children, one level down the budget.
    pub open spec fn kept_in(self, r: Self, arg: MutArg) -> bool
        decreases self, 0int,
    {
        match self {
            ByteNodes::Add { child_a, child_b } => match r {
                ByteNodes::Add { child_a: new_child_a, child_b: new_child_b } => {
                    child_a.passes_to(*new_child_a, arg.below())
                        && child_b.passes_to(*new_child_b, arg.below())
                },
                _ => false,
            },
            ByteNodes::Multiply { child_a, child_b } => match r {
                ByteNodes::Multiply { child_a: new_child_a, child_b: new_child_b } => {
                    child_a.passes_to(*new_child_a, arg.below())
                        && child_b.passes_to(*new_child_b, arg.below())
                },
                _ => false,
            },
            ByteNodes::MultiplyNibbles { child_a, child_b } => match r {
                ByteNodes::MultiplyNibbles { child_a: new_child_a, child_b: new_child_b } => {
                    child_a.passes_to(*new_child_a, arg.below())
                        && child_b.passes_to(*new_child_b, arg.below())
                },
                _ => false,
            },
            ByteNodes::Divide { child_value, child_divisor } => match r {
                ByteNodes::Divide {
                    child_value: new_child_value,
                    child_divisor: new_child_divisor,
                } => {
                    child_value.passes_to(*new_child_value, arg.below())
                        && child_divisor.passes_to(*new_child_divisor, arg.below())
                },
                _ => false,
            },
            ByteNodes::Modulus { child_value, child_divisor } => match r {
                ByteNodes::Modulus {
                    child_value: new_child_value,
                    child_divisor: new_child_divisor,
                } => {
                    child_value.passes_to(*new_child_value, arg.below())
                        && child_divisor.passes_to(*new_child_divisor, arg.below())
                },
                _ => false,
            },
            ByteNodes::FromIterativeResult { child } => match r {
                ByteNodes::FromIterativeResult {
                    child: new_child,
                } => child.passes_to(*new_child, arg.below()),
                _ => false,
            },
            ByteNodes::IfElse { predicate, child_a, child_b } => match r {
                ByteNodes::IfElse {
                    predicate: new_predicate,
                    child_a: new_child_a,
                    child_b: new_child_b,
                } => {
                    predicate.passes_to(*new_predicate, arg.below())
                        && child_a.passes_to(*new_child_a, arg.below())
                        && child_b.passes_to(*new_child_b, arg.below())
                },
                _ => false,
            },
            leaf => r == leaf,
        }
    }

    /// The rest of a mutation pass once the reroll has been drawn: a rerolled
    /// node is replaced by a fresh tree, and a kept one passes each child on.
    pub fn mutated_given(self, reroll: bool, rng: &mut rand::rngs::StdRng, arg: MutArg) -> (r:
        Self)
        requires
            self.wf(),
            arg.wf(),
        ensures
            r.wf(),
            reroll ==> r.height() <= arg.depth,
            !reroll ==> r.variant_index() == self.variant_index(),
            !reroll && self.is_leaf() ==> r == self,
            !reroll ==> self.kept_in(r, arg),
            !reroll && arg.reroll_chance == 0 ==> r == self,
            !reroll && self.height() <= arg.depth ==> r.height() <= arg.depth,
        decreases self, 0int,
    {
        if reroll {
            return Self::generate(rng, arg.generation());
        }
        let sub = arg.child();
        match self {
            ByteNodes::Add { child_a, child_b } => {
                let child_a = Box::new((*child_a).mutated(rng, sub));
                let child_b = Box::new((*child_b).mutated(rng, sub));
                ByteNodes::Add { child_a, child_b }
            },
            ByteNodes::Multiply { child_a, child_b } => {
                let child_a = Box::new((*child_a).mutated(rng, sub));
                let child_b = Box::new((*child_b).mutated(rng, sub));
                ByteNodes::Multiply { child_a, child_b }
            },
            ByteNodes::MultiplyNibbles { child_a, child_b } => {
                let child_a = Box::new((*child_a).mutated(rng, sub));
                let child_b = Box::new((*child_b).mutated(rng, sub));
                ByteNodes::MultiplyNibbles { child_a, child_b }
            },
            ByteNodes::Divide { child_value, child_divisor } => {
                let child_value = Box::new((*child_value).mutated(rng, sub));
                let child_divisor = Box::new((*child_divisor).mutated(rng, sub));
                ByteNodes::Divide { child_value, child_divisor }
            },
            ByteNodes::Modulus { child_value, child_divisor } => {
                let child_value = Box::new((*child_value).mutated(rng, sub));
                let child_divisor = Box::new((*child_divisor).mutated(rng, sub));
                ByteNodes::Modulus { child_value, child_divisor }
            },
            ByteNodes::FromIterativeResult { child } => {
                let child = Box::new((*child).mutated(rng, sub));
                ByteNodes::FromIterativeResult { child }
            },
            ByteNodes::IfElse { predicate, child_a, child_b } => {
                let predicate = Box::new((*predicate).mutated(rng, sub));
                let child_a = Box::new((*child_a).mutated(rng, sub));
                let child_b = Box::new((*child_b).mutated(rng, sub));
                ByteNodes::IfElse { predicate, child_a, child_b }
            },
            leaf => leaf,
        }
    }

    /// One mutation pass: this node is replaced by a fresh tree with the
    /// configured chance, and otherwise each child takes its own pass.
    pub fn mutated(self, rng: &mut rand::rngs::StdRng, arg: MutArg) -> (r: Self)
        requires
            self.wf(),
            arg.wf(),
        ensures
            r.wf(),
            self.passes_to(r, arg),
            arg.reroll_chance == 0 ==> r == self,
            arg.reroll_chance == REROLL_SCALE ==> r.height() <= arg.depth,
            self.height() <= arg.depth ==> r.height() <= arg.depth,
        decreases self, 1int,
    {
        let reroll = arg.reroll(rng);
        self.mutated_given(reroll, rng, arg)
    }

    /// Mutates the tree in place; see `mutated`.
    pub fn mutate(&mut self, rng: &mut rand::rngs::StdRng, arg: MutArg)
        requires
            old(self).wf(),
            arg.wf(),
        ensures
            final(self).wf(),
            old(self).passes_to(*final(self), arg),
            arg.reroll_chance == 0 ==> *final(self) == *old(self),
            arg.reroll_chance == REROLL_SCALE ==> final(self).height() <= arg.depth,
            old(self).height() <= arg.depth ==> final(self).height() <= arg.depth,
    {
        let mut current = ByteNodes::FromGametic;
        std::mem::swap(self, &mut current);
        *self = current.mutated(rng, arg);
    }

    /// One update pass: every node is visited top-down under the live context.
    /// No node of these families carries state, so the tree comes back as it was.
    pub fn updated(self, arg: ComArg) -> (r: Self)
        ensures
            r == self,
        decreases self,
    {
        match self {
            ByteNodes::Add { child_a, child_b } => {
                let child_a = Box::new((*child_a).updated(arg));
                let child_b = Box::new((*child_b).updated(arg));
                ByteNodes::Add { child_a, child_b }
            },
            ByteNodes::Multiply { child_a, child_b } => {
                let child_a = Box::new((*child_a).updated(arg));
                let child_b = Box::new((*child_b).updated(arg));
                ByteNodes::Multiply { child_a, child_b }
            },
            ByteNodes::MultiplyNibbles { child_a, child_b } => {
                let child_a = Box::new((*child_a).updated(arg));
                let child_b = Box::new((*child_b).updated(arg));
                ByteNodes::MultiplyNibbles { child_a, child_b }
            },
            ByteNodes::Divide { child_value, child_divisor } => {
                let child_value = Box::new((*child_value).updated(arg));
                let child_divisor = Box::new((*child_divisor).updated(arg));
                ByteNodes::Divide { child_value, child_divisor }
            },
            ByteNodes::Modulus { child_value, child_divisor } => {
                let child_value = Box::new((*child_value).updated(arg));
                let child_divisor = Box::new((*child_divisor).updated(arg));
                ByteNodes::Modulus { child_value, child_divisor }
            },
            ByteNodes::FromIterativeResult { child } => {
                let child = Box::new((*child).updated(arg));
                ByteNodes::FromIterativeResult { child }
            },
            ByteNodes::IfElse { predicate, child_a, child_b } => {
                let predicate = Box::new((*predicate).updated(arg));
                let child_a = Box::new((*child_a).updated(arg));
                let child_b = Box::new((*child_b).updated(arg));
                ByteNodes::IfElse { predicate, child_a, child_b }
            },
            leaf => leaf,
        }
    }

    /// Updates the tree in place; see `updated`.
    pub fn update_recursively(&mut self, arg: ComArg)
        ensures
            *final(self) == *old(self),
    {
        let mut current = ByteNodes::FromGametic;
        std::mem::swap(self, &mut current);
        *self = current.updated(arg);
    }
}

impl UIntNodes {
    /// What a mutation pass may make of this tree: a fresh, valid tree within
    /// the budget when the chance allows a reroll, or, when the chance is not
    /// certain, the same variant whose children have each taken their own pass.
    pub open spec fn passes_to(self, r: Self, arg: MutArg) -> bool
        decreases self, 1int,
    {
        (arg.reroll_chance > 0 && r.wf() && r.height() <= arg.depth) || (arg.reroll_chance
            < REROLL_SCALE && self.kept_in(r, arg))
    }

    /// `r` has this node's variant, the same leaf values, and children that
    /// are each a pass of this node's children, one level down the budget.
    pub open spec fn kept_in(self, r: Self, arg: MutArg) -> bool
        decreases self, 0int,
    {
        match self {
            UIntNodes::Add { child_a, child_b } => match r {
                UIntNodes::Add { child_a: new_child_a, child_b: new_child_b } => {
                    child_a.passes_to(*new_child_a, arg.below())
                        && child_b.passes_to(*new_child_b, arg.below())
                },
                _ => false,
            },
            UIntNodes::Multiply { child_a, child_b } => match r {
                UIntNodes::Multiply { child_a: new_child_a, child_b: new_child_b } => {
                    child_a.passes_to(*new_child_a, arg.below())
                        && child_b.passes_to(*new_child_b, arg.below())
                },
                _ => false,
            },
            UIntNodes::Divide { child_value, child_divisor } => match r {
                UIntNodes::Divide {
                    child_value: new_child_value,
                    child_divisor: new_child_divisor,
                } => {
                    child_value.passes_to(*new_child_value, arg.below())
                        && child_divisor.passes_to(*new_child_divisor, arg.below())
                },
                _ => false,
            },
            UIntNodes::Modulus { child_value, child_divisor } => match r {
                UIntNodes::Modulus {
                    child_value: new_child_value,
                    child_divisor: new_child_divisor,
                } => {
                    child_value.passes_to(*new_child_value, arg.below())
                        && child_divisor.passes_to(*new_child_divisor, arg.below())
                },
                _ => false,
            },
            UIntNodes::IfElse { predicate, child_a, child_b } => match r {
                UIntNodes::IfElse {
                    predicate: new_predicate,
                    child_a: new_child_a,
                    child_b: new_child_b,
                } => {
                    predicate.passes_to(*new_predicate, arg.below())
                        && child_a.passes_to(*new_child_a, arg.below())
                        && child_b.passes_to(*new_child_b, arg.below())
                },
                _ => false,
            },
            leaf => r == leaf,
        }
    }

    /// The rest of a mutation pass once the reroll has been drawn: a rerolled
    /// node is replaced by a fresh tree, and a kept one passes each child on.
    pub fn mutated_given(self, reroll: bool, rng: &mut rand::rngs::StdRng, arg: MutArg) -> (r:
        Self)
        requires
            self.wf(),
            arg.wf(),
        ensures
            r.wf(),
            reroll ==> r.height() <= arg.depth,
            !reroll ==> r.variant_index() == self.variant_index(),
            !reroll && self.is_leaf() ==> r == self,
            !reroll ==> self.kept_in(r, arg),
            !reroll && arg.reroll_chance == 0 ==> r == self,
            !reroll && self.height() <= arg.depth ==> r.height() <= arg.depth,
        decreases self, 0int,
    {
        if reroll {
            return Self::generate(rng, arg.generation());
        }
        let sub = arg.child();
        match self {
            UIntNodes::Add { child_a, child_b } => {
                let child_a = Box::new((*child_a).mutated(rng, sub));
                let child_b = Box::new((*child_b).mutated(rng, sub));
                UIntNodes::Add { child_a, child_b }
            },
            UIntNodes::Multiply { child_a, child_b } => {
                let child_a = Box::new((*child_a).mutated(rng, sub));
                let child_b = Box::new((*child_b).mutated(rng, sub));
                UIntNodes::Multiply { child_a, child_b }
            },
            UIntNodes::Divide { child_value, child_divisor } => {
                let child_value = Box::new((*child_value).mutated(rng, sub));
                let child_divisor = Box::new((*child_divisor).mutated(rng, sub));
                UIntNodes::Divide { child_value, child_divisor }
            },
            UIntNodes::Modulus { child_value, child_divisor } => {
                let child_value = Box::new((*child_value).mutated(rng, sub));
                let child_divisor = Box::new((*child_divisor).mutated(rng, sub));
                UIntNodes::Modulus { child_value, child_divisor }
            },
            UIntNodes::IfElse { predicate, child_a, child_b } => {
                let predicate = Box::new((*predicate).mutated(rng, sub));
                let child_a = Box::new((*child_a).mutated(rng, sub));
                let child_b = Box::new((*child_b).mutated(rng, sub));
                UIntNodes::IfElse { predicate, child_a, child_b }
            },
            leaf => leaf,
        }
    }

    /// One mutation pass: this node is replaced by a fresh tree with the
    /// configured chance, and otherwise each child takes its own pass.
    pub fn mutated(self, rng: &mut rand::rngs::StdRng, arg: MutArg) -> (r: Self)
        requires
            self.wf(),
            arg.wf(),
        ensures
            r.wf(),
            self.passes_to(r, arg),
            arg.reroll_chance == 0 ==> r == self,
            arg.reroll_chance == REROLL_SCALE ==> r.height() <= arg.depth,
            self.height() <= arg.depth ==> r.height() <= arg.depth,
        decreases self, 1int,
    {
        let reroll = arg.reroll(rng);
        self.mutated_given(reroll, rng, arg)
    }

    /// Mutates the tree in place; see `mutated`.
    pub fn mutate(&mut self, rng: &mut rand::rngs::StdRng, arg: MutArg)
        requires
            old(self).wf(),
            arg.wf(),
        ensures
            final(self).wf(),
            old(self).passes_to(*final(self), arg),
            arg.reroll_chance == 0 ==> *final(self) == *old(self),
            arg.reroll_chance == REROLL_SCALE ==> final(self).height() <= arg.depth,
            old(self).height() <= arg.depth ==> final(self).height() <= arg.depth,
    {
        let mut current = UIntNodes::FromGametic;
        std::mem::swap(self, &mut current);
        *self = current.mutated(rng, arg);
    }

    /// One update pass: every node is visited top-down under the live context.
    /// No node of these families carries state, so the tree comes back as it was.
    pub fn updated(self, arg: ComArg) -> (r: Self)
        ensures
            r == self,
        decreases self,
    {
        match self {
            UIntNodes::Add { child_a, child_b } => {
                let child_a = Box::new((*child_a).updated(arg));
                let child_b = Box::new((*child_b).updated(arg));
                UIntNodes::Add { child_a, child_b }
            },
            UIntNodes::Multiply { child_a, child_b } => {
                let child_a = Box::new((*child_a).updated(arg));
                let child_b = Box::new((*child_b).updated(arg));
                UIntNodes::Multiply { child_a, child_b }
            },
            UIntNodes::Divide { child_value, child_divisor } => {
                let child_value = Box::new((*child_value).updated(arg));
                let child_divisor = Box::new((*child_divisor).updated(arg));
                UIntNodes::Divide { child_value, child_divisor }
            },
            UIntNodes::Modulus { child_value, child_divisor } => {
                let child_value = Box::new((*child_value).updated(arg));
                let child_divisor = Box::new((*child_divisor).updated(arg));
                UIntNodes::Modulus { child_value, child_divisor }
            },
            UIntNodes::IfElse { predicate, child_a, child_b } => {
                let predicate = Box::new((*predicate).updated(arg));
                let child_a = Box::new((*child_a).updated(arg));
                let child_b = Box::new((*child_b).updated(arg));
                UIntNodes::IfElse { predicate, child_a, child_b }
            },
            leaf => leaf,
        }
    }

    /// Updates the tree in place; see `updated`.
    pub fn update_recursively(&mut self, arg: ComArg)
        ensures
            *final(self) == *old(self),
    {
        let mut current = UIntNodes::FromGametic;
        std::mem::swap(self, &mut current);
        *self = current.updated(arg);
    }
}

impl SIntNodes {
    /// What a mutation pass may make of this tree: a fresh, valid tree within
    /// the budget when the chance allows a reroll, or, when the chance is not
    /// certain, the same variant whose children have each taken their own pass.
    pub open spec fn passes_to(self, r: Self, arg: MutArg) -> bool
        decreases self, 1int,
    {
        (arg.reroll_chance > 0 && r.wf() && r.height() <= arg.depth) || (arg.reroll_chance
            < REROLL_SCALE && self.kept_in(r, arg))
    }

    /// `r` has this node's variant, the same leaf values, and children that
    /// are each a pass of this node's children, one level down the budget.
    pub open spec fn kept_in(self, r: Self, arg: MutArg) -> bool
        decreases self, 0int,
    {
        match self {
            SIntNodes::Add { child_a, child_b } => match r {
                SIntNodes::Add { child_a: new_child_a, child_b: new_child_b } => {
                    child_a.passes_to(*new_child_a, arg.below())
                        && child_b.passes_to(*new_child_b, arg.below())
                },
                _ => false,
            },
            SIntNodes::Multiply { child_a, child_b } => match r {
                SIntNodes::Multiply { child_a: new_child_a, child_b: new_child_b } => {
                    child_a.passes_to(*new_child_a, arg.below())
                        && child_b.passes_to(*new_child_b, arg.below())
                },
                _ => false,
            },
            SIntNodes::Divide { child_value, child_divisor } => match r {
                SIntNodes::Divide {
                    child_value: new_child_value,
                    child_divisor: new_child_divisor,
                } => {
                    child_value.passes_to(*new_child_value, arg.below())
                        && child_divisor.passes_to(*new_child_divisor, arg.below())
                },
                _ => false,
            },
            SIntNodes::Modulus { child_value, child_divisor } => match r {
                SIntNodes::Modulus {
                    child_value: new_child_value,
                    child_divisor: new_child_divisor,
                } => {
                    child_value.passes_to(*new_child_value, arg.below())
                        && child_divisor.passes_to(*new_child_divisor, arg.below())
                },
                _ => false,
            },
            SIntNodes::IfElse { predicate, child_a, child_b } => match r {
                SIntNodes::IfElse {
                    predicate: new_predicate,
                    child_a: new_child_a,
                    child_b: new_child_b,
                } => {
                    predicate.passes_to(*new_predicate, arg.below())
                        && child_a.passes_to(*new_child_a, arg.below())
                        && child_b.passes_to(*new_child_b, arg.below())
                },
                _ => false,
            },
            leaf => r == leaf,
        }
    }

    /// The rest of a mutation pass once the reroll has been drawn: a rerolled
    /// node is replaced by a fresh tree, and a kept one passes each child on.
    pub fn mutated_given(self, reroll: bool, rng: &mut rand::rngs::StdRng, arg: MutArg) -> (r:
        Self)
        requires
            self.wf(),
            arg.wf(),
        ensures
            r.wf(),
            reroll ==> r.height() <= arg.depth,
            !reroll ==> r.variant_index() == self.variant_index(),
            !reroll && self.is_leaf() ==> r == self,
            !reroll ==> self.kept_in(r, arg),
            !reroll && arg.reroll_chance == 0 ==> r == self,
            !reroll && self.height() <= arg.depth ==> r.height() <= arg.depth,
        decreases self, 0int,
    {
        if reroll {
            return Self::generate(rng, arg.generation());
        }
        let sub = arg.child();
        match self {
            SIntNodes::Add { child_a, child_b } => {
                let child_a = Box::new((*child_a).mutated(rng, sub));
                let child_b = Box::new((*child_b).mutated(rng, sub));
                SIntNodes::Add { child_a, child_b }
            },
            SIntNodes::Multiply { child_a, child_b } => {
                let child_a = Box::new((*child_a).mutated(rng, sub));
                let child_b = Box::new((*child_b).mutated(rng, sub));
                SIntNodes::Multiply { child_a, child_b }
            },
            SIntNodes::Divide { child_value, child_divisor } => {
                let child_value = Box::new((*child_value).mutated(rng, sub));
                let child_divisor = Box::new((*child_divisor).mutated(rng, sub));
                SIntNodes::Divide { child_value, child_divisor }
            },
            SIntNodes::Modulus { child_value, child_divisor } => {
                let child_value = Box::new((*child_value).mutated(rng, sub));
                let child_divisor = Box::new((*child_divisor).mutated(rng, sub));
                SIntNodes::Modulus { child_value, child_divisor }
            },
            SIntNodes::IfElse { predicate, child_a, child_b } => {
                let predicate = Box::new((*predicate).mutated(rng, sub));
                let child_a = Box::new((*child_a).mutated(rng, sub));
                let child_b = Box::new((*child_b).mutated(rng, sub));
                SIntNodes::IfElse { predicate, child_a, child_b }
            },
            leaf => leaf,
        }
    }

    /// One mutation pass: this node is replaced by a fresh tree with the
    /// configured chance, and otherwise each child takes its own pass.
    pub fn mutated(self, rng: &mut rand::rngs::StdRng, arg: MutArg) -> (r: Self)
        requires
            self.wf(),
            arg.wf(),
        ensures
            r.wf(),
            self.passes_to(r, arg),
            arg.reroll_chance == 0 ==> r == self,
            arg.reroll_chance == REROLL_SCALE ==> r.height() <= arg.depth,
            self.height() <= arg.depth ==> r.height() <= arg.depth,
        decreases self, 1int,
    {
        let reroll = arg.reroll(rng);
        self.mutated_given(reroll, rng, arg)
    }

    /// Mutates the tree in place; see `mutated`.
    pub fn mutate(&mut self, rng: &mut rand::rngs::StdRng, arg: MutArg)
        requires
            old(self).wf(),
            arg.wf(),
        ensures
            final(self).wf(),
            old(self).passes_to(*final(self), arg),
            arg.reroll_chance == 0 ==> *final(self) == *old(self),
            arg.reroll_chance == REROLL_SCALE ==> final(self).height() <= arg.depth,
            old(self).height() <= arg.depth ==> final(self).height() <= arg.depth,
    {
        let mut current = SIntNodes::Constant { value: SInt::new(0) };
        std::mem::swap(self, &mut current);
        *self = current.mutated(rng, arg);
    }

    /// One update pass: every node is visited top-down under the live context.
    /// No node of these families carries state, so the tree comes back as it was.
    pub fn updated(self, arg: ComArg) -> (r: Self)
        ensures
            r == self,
        decreases self,
    {
        match self {
            SIntNodes::Add { child_a, child_b } => {
                let child_a = Box::new((*child_a).updated(arg));
                let child_b = Box::new((*child_b).updated(arg));
                SIntNodes::Add { child_a, child_b }
            },
            SIntNodes::Multiply { child_a, child_b } => {
                let child_a = Box::new((*child_a).updated(arg));
                let child_b = Box::new((*child_b).updated(arg));
                SIntNodes::Multiply { child_a, child_b }
            },
            SIntNodes::Divide { child_value, child_divisor } => {
                let child_value = Box::new((*child_value).updated(arg));
                let child_divisor = Box::new((*child_divisor).updated(arg));
                SIntNodes::Divide { child_value, child_divisor }
            },
            SIntNodes::Modulus { child_value, child_divisor } => {
                let child_value = Box::new((*child_value).updated(arg));
                let child_divisor = Box::new((*child_divisor).updated(arg));
                SIntNodes::Modulus { child_value, child_divisor }
            },
            SIntNodes::IfElse { predicate, child_a, child_b } => {
                let predicate = Box::new((*predicate).updated(arg));
                let child_a = Box::new((*child_a).updated(arg));
                let child_b = Box::new((*child_b).updated(arg));
                SIntNodes::IfElse { predicate, child_a, child_b }
            },
            leaf => leaf,
        }
    }

    /// Updates the tree in place; see `updated`.
    pub fn update_recursively(&mut self, arg: ComArg)
        ensures
            *final(self) == *old(self),
    {
        let mut current = SIntNodes::Constant { value: SInt::new(0) };
        std::mem::swap(self, &mut current);
        *self = current.updated(arg);
    }
}

} // verus!
