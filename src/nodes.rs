//! The five discrete node families and their evaluation. Each node is a leaf
//! (a constant or a value read from the context), a pipe (one child) or a
//! branch (several children); `computed` states what a tree evaluates to, and
//! `compute` walks it.
use crate::discrete::{Boolean, Byte, Nibble, SInt, UInt};
use crate::siblings::{
    BitColorNodes, ComArg, CoordMapNodes, IterativeFunctionNodes, SNFloatNodes, UNFloatNodes,
};
use vstd::prelude::*;

verus! {

/// Strictly between two bounds given in either order.
pub open spec fn strictly_between(v: int, a: int, b: int) -> bool {
    let lo = if a < b { a } else { b };
    let hi = if a < b { b } else { a };
    lo < v && v < hi
}

/// `v` strictly inside the interval spanned by `a` and `b`.
fn between_u32(v: u32, a: u32, b: u32) -> (r: bool)
    ensures
        r == strictly_between(v as int, a as int, b as int),
{
    let hi = if a < b { b } else { a };
    let lo = if a < b { a } else { b };
    v > lo && v < hi
}

fn between_i32(v: i32, a: i32, b: i32) -> (r: bool)
    ensures
        r == strictly_between(v as int, a as int, b as int),
{
    let hi = if a < b { b } else { a };
    let lo = if a < b { a } else { b };
    v > lo && v < hi
}

/// The nibble whose bits are the four booleans, lowest first.
pub open spec fn packed(a: bool, b: bool, c: bool, d: bool) -> u8 {
    ((if a { 1int } else { 0 }) + (if b { 2int } else { 0 }) + (if c { 4int } else { 0 }) + (if d {
        8int
    } else {
        0
    })) as u8
}

#[derive(Debug)]
#[allow(inconsistent_fields)]
pub enum BooleanNodes {
    UNFloatLess { child_a: Box<UNFloatNodes>, child_b: Box<UNFloatNodes> },
    UNFloatMore { child_a: Box<UNFloatNodes>, child_b: Box<UNFloatNodes> },
    UNFloatBetween {
        child_value: Box<UNFloatNodes>,
        child_range_a: Box<UNFloatNodes>,
        child_range_b: Box<UNFloatNodes>,
    },
    SNFloatLess { child_a: Box<SNFloatNodes>, child_b: Box<SNFloatNodes> },
    SNFloatMore { child_a: Box<SNFloatNodes>, child_b: Box<SNFloatNodes> },
    SNFloatBetween {
        child_value: Box<SNFloatNodes>,
        child_range_a: Box<SNFloatNodes>,
        child_range_b: Box<SNFloatNodes>,
    },
    SNFloatSign { child: Box<SNFloatNodes> },
    And { child_a: Box<BooleanNodes>, child_b: Box<BooleanNodes> },
    Or { child_a: Box<BooleanNodes>, child_b: Box<BooleanNodes> },
    Not { child: Box<BooleanNodes> },
    BitColorHas { child_a: Box<BitColorNodes>, child_b: Box<BitColorNodes> },
    Constant { value: Boolean },
    ModifyState { child: Box<BooleanNodes>, child_state: Box<CoordMapNodes> },
    IfElse { predicate: Box<BooleanNodes>, child_a: Box<BooleanNodes>, child_b: Box<BooleanNodes> },
    ByteEquals { child_a: Box<ByteNodes>, child_b: Box<ByteNodes> },
}

#[derive(Debug)]
#[allow(inconsistent_fields)]
pub enum NibbleNodes {
    Constant { value: Nibble },
    Add { child_a: Box<NibbleNodes>, child_b: Box<NibbleNodes> },
    Multiply { child_a: Box<NibbleNodes>, child_b: Box<NibbleNodes> },
    Divide { child_value: Box<NibbleNodes>, child_divisor: Box<NibbleNodes> },
    Modulus { child_value: Box<NibbleNodes>, child_divisor: Box<NibbleNodes> },
    FromBooleans {
        a: Box<BooleanNodes>,
        b: Box<BooleanNodes>,
        c: Box<BooleanNodes>,
        d: Box<BooleanNodes>,
    },
    FromByteModulo { child: Box<ByteNodes> },
    FromByteDivide { child: Box<ByteNodes> },
    FromGametic,
    IfElse { predicate: Box<BooleanNodes>, child_a: Box<NibbleNodes>, child_b: Box<NibbleNodes> },
}

#[derive(Debug)]
#[allow(inconsistent_fields)]
pub enum ByteNodes {
    Constant { value: Byte },
    Add { child_a: Box<ByteNodes>, child_b: Box<ByteNodes> },
    Multiply { child_a: Box<ByteNodes>, child_b: Box<ByteNodes> },
    MultiplyNibbles { child_a: Box<NibbleNodes>, child_b: Box<NibbleNodes> },
    Divide { child_value: Box<ByteNodes>, child_divisor: Box<ByteNodes> },
    Modulus { child_value: Box<ByteNodes>, child_divisor: Box<ByteNodes> },
    FromIterativeResult { child: Box<IterativeFunctionNodes> },
    FromGametic,
    IfElse { predicate: Box<BooleanNodes>, child_a: Box<ByteNodes>, child_b: Box<ByteNodes> },
}

#[derive(Debug)]
#[allow(inconsistent_fields)]
pub enum UIntNodes {
    Constant { value: UInt },
    Add { child_a: Box<UIntNodes>, child_b: Box<UIntNodes> },
    Multiply { child_a: Box<UIntNodes>, child_b: Box<UIntNodes> },
    Divide { child_value: Box<UIntNodes>, child_divisor: Box<UIntNodes> },
    Modulus { child_value: Box<UIntNodes>, child_divisor: Box<UIntNodes> },
    FromGametic,
    IfElse { predicate: Box<BooleanNodes>, child_a: Box<UIntNodes>, child_b: Box<UIntNodes> },
}

#[derive(Debug)]
#[allow(inconsistent_fields)]
pub enum SIntNodes {
    Constant { value: SInt },
    Add { child_a: Box<SIntNodes>, child_b: Box<SIntNodes> },
    Multiply { child_a: Box<SIntNodes>, child_b: Box<SIntNodes> },
    Divide { child_value: Box<SIntNodes>, child_divisor: Box<SIntNodes> },
    Modulus { child_value: Box<SIntNodes>, child_divisor: Box<SIntNodes> },
    IfElse { predicate: Box<BooleanNodes>, child_a: Box<SIntNodes>, child_b: Box<SIntNodes> },
}

impl BooleanNodes {
    /// The tree can be evaluated under `arg`: every nibble constant that the
    /// evaluation reaches is in range. A branch that is not taken is not reached.
    pub open spec fn sound(self, arg: ComArg) -> bool
        decreases self,
    {
        match self {
            BooleanNodes::And { child_a, child_b } => child_a.sound(arg) && child_b.sound(arg),
            BooleanNodes::Or { child_a, child_b } => child_a.sound(arg) && child_b.sound(arg),
            BooleanNodes::Not { child } => child.sound(arg),
            BooleanNodes::ModifyState { child, child_state } => child.sound(
                arg.at(child_state.computed(arg)),
            ),
            BooleanNodes::IfElse { predicate, child_a, child_b } => {
                predicate.sound(arg) && if predicate.computed(arg).value {
                    child_a.sound(arg)
                } else {
                    child_b.sound(arg)
                }
            },
            BooleanNodes::ByteEquals { child_a, child_b } => {
                child_a.sound(arg)
                    && child_b.sound(arg)
            },
            _ => true,
        }
    }

    /// Every nibble constant in the tree is in range.
    pub open spec fn wf(self) -> bool
        decreases self,
    {
        match self {
            BooleanNodes::And { child_a, child_b } => child_a.wf() && child_b.wf(),
            BooleanNodes::Or { child_a, child_b } => child_a.wf() && child_b.wf(),
            BooleanNodes::Not { child } => child.wf(),
            BooleanNodes::ModifyState { child, .. } => child.wf(),
            BooleanNodes::IfElse { predicate, child_a, child_b } => predicate.wf() && child_a.wf()
                && child_b.wf(),
            BooleanNodes::ByteEquals { child_a, child_b } => child_a.wf() && child_b.wf(),
            _ => true,
        }
    }

    /// The value the tree evaluates to under `arg`.
    pub open spec fn computed(self, arg: ComArg) -> Boolean
        decreases self,
    {
        match self {
            BooleanNodes::UNFloatLess { child_a, child_b } => Boolean {
                value: child_a.computed(arg).key < child_b.computed(arg).key,
            },
            BooleanNodes::UNFloatMore { child_a, child_b } => Boolean {
                value: child_a.computed(arg).key > child_b.computed(arg).key,
            },
            BooleanNodes::UNFloatBetween { child_value, child_range_a, child_range_b } => Boolean {
                value: strictly_between(
                    child_value.computed(arg).key as int,
                    child_range_a.computed(arg).key as int,
                    child_range_b.computed(arg).key as int,
                ),
            },
            BooleanNodes::SNFloatLess { child_a, child_b } => Boolean {
                value: child_a.computed(arg).key < child_b.computed(arg).key,
            },
            BooleanNodes::SNFloatMore { child_a, child_b } => Boolean {
                value: child_a.computed(arg).key > child_b.computed(arg).key,
            },
            BooleanNodes::SNFloatBetween { child_value, child_range_a, child_range_b } => Boolean {
                value: strictly_between(
                    child_value.computed(arg).key as int,
                    child_range_a.computed(arg).key as int,
                    child_range_b.computed(arg).key as int,
                ),
            },
            BooleanNodes::SNFloatSign { child } => Boolean { value: child.computed(arg).key >= 0 },
            BooleanNodes::And { child_a, child_b } => Boolean {
                value: child_a.computed(arg).value && child_b.computed(arg).value,
            },
            BooleanNodes::Or { child_a, child_b } => Boolean {
                value: child_a.computed(arg).value || child_b.computed(arg).value,
            },
            BooleanNodes::Not { child } => Boolean { value: !child.computed(arg).value },
            BooleanNodes::BitColorHas { child_a, child_b } => Boolean {
                value: child_a.computed(arg).shares(child_b.computed(arg)),
            },
            BooleanNodes::Constant { value } => value,
            BooleanNodes::ModifyState { child, child_state } => child.computed(
                arg.at(child_state.computed(arg)),
            ),
            BooleanNodes::IfElse { predicate, child_a, child_b } => if predicate.computed(
                arg,
            ).value {
                child_a.computed(arg)
            } else {
                child_b.computed(arg)
            },
            BooleanNodes::ByteEquals { child_a, child_b } => Boolean {
                value: child_a.computed(arg).value == child_b.computed(arg).value,
            },
        }
    }

    pub fn compute(&self, arg: ComArg) -> (r: Boolean)
        requires
            self.sound(arg),
        ensures
            r == self.computed(arg),
        decreases self,
    {
        match self {
            BooleanNodes::UNFloatLess { child_a, child_b } => Boolean {
                value: child_a.compute(arg).key < child_b.compute(arg).key,
            },
            BooleanNodes::UNFloatMore { child_a, child_b } => Boolean {
                value: child_a.compute(arg).key > child_b.compute(arg).key,
            },
            BooleanNodes::UNFloatBetween { child_value, child_range_a, child_range_b } => {
                let range_a = child_range_a.compute(arg).key;
                let range_b = child_range_b.compute(arg).key;
                let value = child_value.compute(arg).key;
                Boolean { value: between_u32(value, range_a, range_b) }
            },
            BooleanNodes::SNFloatLess { child_a, child_b } => Boolean {
                value: child_a.compute(arg).key < child_b.compute(arg).key,
            },
            BooleanNodes::SNFloatMore { child_a, child_b } => Boolean {
                value: child_a.compute(arg).key > child_b.compute(arg).key,
            },
            BooleanNodes::SNFloatBetween { child_value, child_range_a, child_range_b } => {
                let range_a = child_range_a.compute(arg).key;
                let range_b = child_range_b.compute(arg).key;
                let value = child_value.compute(arg).key;
                Boolean { value: between_i32(value, range_a, range_b) }
            },
            BooleanNodes::SNFloatSign { child } => Boolean { value: child.compute(arg).key >= 0 },
            BooleanNodes::And { child_a, child_b } => {
                let a = child_a.compute(arg).into_inner();
                let b = child_b.compute(arg).into_inner();
                Boolean { value: a && b }
            },
            BooleanNodes::Or { child_a, child_b } => {
                let a = child_a.compute(arg).into_inner();
                let b = child_b.compute(arg).into_inner();
                Boolean { value: a || b }
            },
            BooleanNodes::Not { child } => Boolean { value: !child.compute(arg).into_inner() },
            BooleanNodes::BitColorHas { child_a, child_b } => Boolean {
                value: child_a.compute(arg).has_color(child_b.compute(arg)),
            },
            BooleanNodes::Constant { value } => *value,
            BooleanNodes::ModifyState { child, child_state } => {
                let cs = child_state.compute(arg);
                child.compute(arg.with_coordinate_set(cs))
            },
            BooleanNodes::IfElse { predicate, child_a, child_b } => {
                if predicate.compute(arg).into_inner() {
                    child_a.compute(arg)
                } else {
                    child_b.compute(arg)
                }
            },
            BooleanNodes::ByteEquals { child_a, child_b } => Boolean {
                value: child_a.compute(arg).into_inner() == child_b.compute(arg).into_inner(),
            },
        }
    }
}

impl NibbleNodes {
    /// The tree can be evaluated under `arg`: every nibble constant that the
    /// evaluation reaches is in range. A branch that is not taken is not reached.
    pub open spec fn sound(self, arg: ComArg) -> bool
        decreases self,
    {
        match self {
            NibbleNodes::Constant { value } => value.wf(),
            NibbleNodes::Add { child_a, child_b } => child_a.sound(arg) && child_b.sound(arg),
            NibbleNodes::Multiply { child_a, child_b } => child_a.sound(arg) && child_b.sound(arg),
            NibbleNodes::Divide { child_value, child_divisor } => {
                child_value.sound(arg)
                    && child_divisor.sound(arg)
            },
            NibbleNodes::Modulus { child_value, child_divisor } => {
                child_value.sound(arg)
                    && child_divisor.sound(arg)
            },
            NibbleNodes::FromBooleans { a, b, c, d } => {
                a.sound(arg)
                    && b.sound(arg)
                    && c.sound(arg)
                    && d.sound(arg)
            },
            NibbleNodes::FromByteModulo { child } => child.sound(arg),
            NibbleNodes::FromByteDivide { child } => child.sound(arg),
            NibbleNodes::IfElse { predicate, child_a, child_b } => {
                predicate.sound(arg) && if predicate.computed(arg).value {
                    child_a.sound(arg)
                } else {
                    child_b.sound(arg)
                }
            },
            _ => true,
        }
    }

    /// Every nibble constant in the tree is in range.
    pub open spec fn wf(self) -> bool
        decreases self,
    {
        match self {
            NibbleNodes::Constant { value } => value.wf(),
            NibbleNodes::Add { child_a, child_b } => child_a.wf() && child_b.wf(),
            NibbleNodes::Multiply { child_a, child_b } => child_a.wf() && child_b.wf(),
            NibbleNodes::Divide { child_value, child_divisor } => child_value.wf()
                && child_divisor.wf(),
            NibbleNodes::Modulus { child_value, child_divisor } => child_value.wf()
                && child_divisor.wf(),
            NibbleNodes::FromBooleans { a, b, c, d } => a.wf() && b.wf() && c.wf() && d.wf(),
            NibbleNodes::FromByteModulo { child } => child.wf(),
            NibbleNodes::FromByteDivide { child } => child.wf(),
            NibbleNodes::FromGametic => true,
            NibbleNodes::IfElse { predicate, child_a, child_b } => predicate.wf() && child_a.wf()
                && child_b.wf(),
        }
    }

    /// The value the tree evaluates to under `arg`.
    pub open spec fn computed(self, arg: ComArg) -> Nibble
        decreases self,
    {
        match self {
            NibbleNodes::Constant { value } => value,
            NibbleNodes::Add { child_a, child_b } => child_a.computed(arg).sum(
                child_b.computed(arg),
            ),
            NibbleNodes::Multiply { child_a, child_b } => child_a.computed(arg).product(
                child_b.computed(arg),
            ),
            NibbleNodes::Divide { child_value, child_divisor } => child_value.computed(
                arg,
            ).quotient(child_divisor.computed(arg)),
            NibbleNodes::Modulus { child_value, child_divisor } => child_value.computed(
                arg,
            ).remainder(child_divisor.computed(arg)),
            NibbleNodes::FromBooleans { a, b, c, d } => Nibble {
                value: packed(
                    a.computed(arg).value,
                    b.computed(arg).value,
                    c.computed(arg).value,
                    d.computed(arg).value,
                ),
            },
            NibbleNodes::FromByteModulo { child } => Nibble {
                value: (child.computed(arg).value % 16) as u8,
            },
            NibbleNodes::FromByteDivide { child } => Nibble {
                value: (child.computed(arg).value / 16) as u8,
            },
            NibbleNodes::FromGametic => Nibble {
                value: (arg.coordinate_set.byte_t.value % 16) as u8,
            },
            NibbleNodes::IfElse { predicate, child_a, child_b } => if predicate.computed(
                arg,
            ).value {
                child_a.computed(arg)
            } else {
                child_b.computed(arg)
            },
        }
    }

    pub fn compute(&self, arg: ComArg) -> (r: Nibble)
        requires
            self.sound(arg),
        ensures
            r == self.computed(arg),
            r.wf(),
        decreases self,
    {
        match self {
            NibbleNodes::Constant { value } => *value,
            NibbleNodes::Add { child_a, child_b } => child_a.compute(arg).circular_add(
                child_b.compute(arg),
            ),
            NibbleNodes::Multiply { child_a, child_b } => child_a.compute(
                arg,
            ).circular_multiply(child_b.compute(arg)),
            NibbleNodes::Divide { child_value, child_divisor } => child_value.compute(
                arg,
            ).divide(child_divisor.compute(arg)),
            NibbleNodes::Modulus { child_value, child_divisor } => child_value.compute(
                arg,
            ).modulus(child_divisor.compute(arg)),
            NibbleNodes::FromBooleans { a, b, c, d } => {
                let mut value: u8 = 0;
                if a.compute(arg).into_inner() {
                    value += 1;
                }
                if b.compute(arg).into_inner() {
                    value += 2;
                }
                if c.compute(arg).into_inner() {
                    value += 4;
                }
                if d.compute(arg).into_inner() {
                    value += 8;
                }
                Nibble::new(value)
            },
            NibbleNodes::FromByteModulo { child } => Nibble::new_circular(
                child.compute(arg).into_inner(),
            ),
            NibbleNodes::FromByteDivide { child } => Nibble::new(
                child.compute(arg).into_inner() / Nibble::MODULUS,
            ),
            NibbleNodes::FromGametic => Nibble::new_circular(
                arg.coordinate_set.get_byte_t().into_inner(),
            ),
            NibbleNodes::IfElse { predicate, child_a, child_b } => {
                if predicate.compute(arg).into_inner() {
                    child_a.compute(arg)
                } else {
                    child_b.compute(arg)
                }
            },
        }
    }
}

impl ByteNodes {
    /// The tree can be evaluated under `arg`: every nibble constant that the
    /// evaluation reaches is in range. A branch that is not taken is not reached.
    pub open spec fn sound(self, arg: ComArg) -> bool
        decreases self,
    {
        match self {
            ByteNodes::Add { child_a, child_b } => child_a.sound(arg) && child_b.sound(arg),
            ByteNodes::Multiply { child_a, child_b } => child_a.sound(arg) && child_b.sound(arg),
            ByteNodes::MultiplyNibbles { child_a, child_b } => {
                child_a.sound(arg)
                    && child_b.sound(arg)
            },
            ByteNodes::Divide { child_value, child_divisor } => {
                child_value.sound(arg)
                    && child_divisor.sound(arg)
            },
            ByteNodes::Modulus { child_value, child_divisor } => {
                child_value.sound(arg)
                    && child_divisor.sound(arg)
            },
            ByteNodes::IfElse { predicate, child_a, child_b } => {
                predicate.sound(arg) && if predicate.computed(arg).value {
                    child_a.sound(arg)
                } else {
                    child_b.sound(arg)
                }
            },
            _ => true,
        }
    }

    /// Every nibble constant in the tree is in range.
    pub open spec fn wf(self) -> bool
        decreases self,
    {
        match self {
            ByteNodes::Add { child_a, child_b } => child_a.wf() && child_b.wf(),
            ByteNodes::Multiply { child_a, child_b } => child_a.wf() && child_b.wf(),
            ByteNodes::MultiplyNibbles { child_a, child_b } => child_a.wf() && child_b.wf(),
            ByteNodes::Divide { child_value, child_divisor } => child_value.wf()
                && child_divisor.wf(),
            ByteNodes::Modulus { child_value, child_divisor } => child_value.wf()
                && child_divisor.wf(),
            ByteNodes::IfElse { predicate, child_a, child_b } => predicate.wf() && child_a.wf()
                && child_b.wf(),
            _ => true,
        }
    }

    /// The value the tree evaluates to under `arg`.
    pub open spec fn computed(self, arg: ComArg) -> Byte
        decreases self,
    {
        match self {
            ByteNodes::Constant { value } => value,
            ByteNodes::Add { child_a, child_b } => child_a.computed(arg).sum(child_b.computed(arg)),
            ByteNodes::Multiply { child_a, child_b } => child_a.computed(arg).product(
                child_b.computed(arg),
            ),
            ByteNodes::MultiplyNibbles { child_a, child_b } => Byte {
                value: (child_a.computed(arg).value * child_b.computed(arg).value) as u8,
            },
            ByteNodes::Divide { child_value, child_divisor } => child_value.computed(
                arg,
            ).quotient(child_divisor.computed(arg)),
            ByteNodes::Modulus { child_value, child_divisor } => child_value.computed(
                arg,
            ).remainder(child_divisor.computed(arg)),
            ByteNodes::FromIterativeResult { child } => child.computed(arg).iter_final,
            ByteNodes::FromGametic => arg.coordinate_set.byte_t,
            ByteNodes::IfElse { predicate, child_a, child_b } => if predicate.computed(
                arg,
            ).value {
                child_a.computed(arg)
            } else {
                child_b.computed(arg)
            },
        }
    }

    pub fn compute(&self, arg: ComArg) -> (r: Byte)
        requires
            self.sound(arg),
        ensures
            r == self.computed(arg),
        decreases self,
    {
        match self {
            ByteNodes::Constant { value } => *value,
            ByteNodes::Add { child_a, child_b } => child_a.compute(arg).circular_add(
                child_b.compute(arg),
            ),
            ByteNodes::Multiply { child_a, child_b } => child_a.compute(arg).circular_multiply(
                child_b.compute(arg),
            ),
            ByteNodes::MultiplyNibbles { child_a, child_b } => {
                let a = child_a.compute(arg).into_inner();
                let b = child_b.compute(arg).into_inner();
                proof {
                    assert(a * b <= 15 * 15) by (nonlinear_arith)
                        requires
                            a < 16,
                            b < 16,
                    ;
                }
                Byte::new(a * b)
            },
            ByteNodes::Divide { child_value, child_divisor } => child_value.compute(arg).divide(
                child_divisor.compute(arg),
            ),
            ByteNodes::Modulus { child_value, child_divisor } => child_value.compute(arg).modulus(
                child_divisor.compute(arg),
            ),
            ByteNodes::FromIterativeResult { child } => child.compute(arg).iter_final,
            ByteNodes::FromGametic => arg.coordinate_set.get_byte_t(),
            ByteNodes::IfElse { predicate, child_a, child_b } => {
                if predicate.compute(arg).into_inner() {
                    child_a.compute(arg)
                } else {
                    child_b.compute(arg)
                }
            },
        }
    }
}

impl UIntNodes {
    /// The tree can be evaluated under `arg`: every nibble constant that the
    /// evaluation reaches is in range. A branch that is not taken is not reached.
    pub open spec fn sound(self, arg: ComArg) -> bool
        decreases self,
    {
        match self {
            UIntNodes::Add { child_a, child_b } => child_a.sound(arg) && child_b.sound(arg),
            UIntNodes::Multiply { child_a, child_b } => child_a.sound(arg) && child_b.sound(arg),
            UIntNodes::Divide { child_value, child_divisor } => {
                child_value.sound(arg)
                    && child_divisor.sound(arg)
            },
            UIntNodes::Modulus { child_value, child_divisor } => {
                child_value.sound(arg)
                    && child_divisor.sound(arg)
            },
            UIntNodes::IfElse { predicate, child_a, child_b } => {
                predicate.sound(arg) && if predicate.computed(arg).value {
                    child_a.sound(arg)
                } else {
                    child_b.sound(arg)
                }
            },
            _ => true,
        }
    }

    /// Every nibble constant in the tree is in range.
    pub open spec fn wf(self) -> bool
        decreases self,
    {
        match self {
            UIntNodes::Add { child_a, child_b } => child_a.wf() && child_b.wf(),
            UIntNodes::Multiply { child_a, child_b } => child_a.wf() && child_b.wf(),
            UIntNodes::Divide { child_value, child_divisor } => child_value.wf()
                && child_divisor.wf(),
            UIntNodes::Modulus { child_value, child_divisor } => child_value.wf()
                && child_divisor.wf(),
            UIntNodes::IfElse { predicate, child_a, child_b } => predicate.wf() && child_a.wf()
                && child_b.wf(),
            _ => true,
        }
    }

    /// The value the tree evaluates to under `arg`.
    pub open spec fn computed(self, arg: ComArg) -> UInt
        decreases self,
    {
        match self {
            UIntNodes::Constant { value } => value,
            UIntNodes::Add { child_a, child_b } => child_a.computed(arg).sum(child_b.computed(arg)),
            UIntNodes::Multiply { child_a, child_b } => child_a.computed(arg).product(
                child_b.computed(arg),
            ),
            UIntNodes::Divide { child_value, child_divisor } => child_value.computed(
                arg,
            ).quotient(child_divisor.computed(arg)),
            UIntNodes::Modulus { child_value, child_divisor } => child_value.computed(
                arg,
            ).remainder(child_divisor.computed(arg)),
            UIntNodes::FromGametic => UInt { value: arg.coordinate_set.t },
            UIntNodes::IfElse { predicate, child_a, child_b } => if predicate.computed(
                arg,
            ).value {
                child_a.computed(arg)
            } else {
                child_b.computed(arg)
            },
        }
    }

    pub fn compute(&self, arg: ComArg) -> (r: UInt)
        requires
            self.sound(arg),
        ensures
            r == self.computed(arg),
        decreases self,
    {
        match self {
            UIntNodes::Constant { value } => *value,
            UIntNodes::Add { child_a, child_b } => child_a.compute(arg).circular_add(
                child_b.compute(arg),
            ),
            UIntNodes::Multiply { child_a, child_b } => child_a.compute(arg).circular_multiply(
                child_b.compute(arg),
            ),
            UIntNodes::Divide { child_value, child_divisor } => child_value.compute(arg).divide(
                child_divisor.compute(arg),
            ),
            UIntNodes::Modulus { child_value, child_divisor } => child_value.compute(arg).modulus(
                child_divisor.compute(arg),
            ),
            UIntNodes::FromGametic => UInt::new(arg.coordinate_set.t),
            UIntNodes::IfElse { predicate, child_a, child_b } => {
                if predicate.compute(arg).into_inner() {
                    child_a.compute(arg)
                } else {
                    child_b.compute(arg)
                }
            },
        }
    }
}

impl SIntNodes {
    /// The tree can be evaluated under `arg`: every nibble constant that the
    /// evaluation reaches is in range. A branch that is not taken is not reached.
    pub open spec fn sound(self, arg: ComArg) -> bool
        decreases self,
    {
        match self {
            SIntNodes::Add { child_a, child_b } => child_a.sound(arg) && child_b.sound(arg),
            SIntNodes::Multiply { child_a, child_b } => child_a.sound(arg) && child_b.sound(arg),
            SIntNodes::Divide { child_value, child_divisor } => {
                child_value.sound(arg)
                    && child_divisor.sound(arg)
            },
            SIntNodes::Modulus { child_value, child_divisor } => {
                child_value.sound(arg)
                    && child_divisor.sound(arg)
            },
            SIntNodes::IfElse { predicate, child_a, child_b } => {
                predicate.sound(arg) && if predicate.computed(arg).value {
                    child_a.sound(arg)
                } else {
                    child_b.sound(arg)
                }
            },
            _ => true,
        }
    }

    /// Every nibble constant in the tree is in range.
    pub open spec fn wf(self) -> bool
        decreases self,
    {
        match self {
            SIntNodes::Add { child_a, child_b } => child_a.wf() && child_b.wf(),
            SIntNodes::Multiply { child_a, child_b } => child_a.wf() && child_b.wf(),
            SIntNodes::Divide { child_value, child_divisor } => child_value.wf()
                && child_divisor.wf(),
            SIntNodes::Modulus { child_value, child_divisor } => child_value.wf()
                && child_divisor.wf(),
            SIntNodes::IfElse { predicate, child_a, child_b } => predicate.wf() && child_a.wf()
                && child_b.wf(),
            _ => true,
        }
    }

    /// The value the tree evaluates to under `arg`.
    pub open spec fn computed(self, arg: ComArg) -> SInt
        decreases self,
    {
        match self {
            SIntNodes::Constant { value } => value,
            SIntNodes::Add { child_a, child_b } => child_a.computed(arg).sum(child_b.computed(arg)),
            SIntNodes::Multiply { child_a, child_b } => child_a.computed(arg).product(
                child_b.computed(arg),
            ),
            SIntNodes::Divide { child_value, child_divisor } => child_value.computed(
                arg,
            ).quotient(child_divisor.computed(arg)),
            SIntNodes::Modulus { child_value, child_divisor } => child_value.computed(
                arg,
            ).remainder(child_divisor.computed(arg)),
            SIntNodes::IfElse { predicate, child_a, child_b } => if predicate.computed(
                arg,
            ).value {
                child_a.computed(arg)
            } else {
                child_b.computed(arg)
            },
        }
    }

    pub fn compute(&self, arg: ComArg) -> (r: SInt)
        requires
            self.sound(arg),
        ensures
            r == self.computed(arg),
        decreases self,
    {
        match self {
            SIntNodes::Constant { value } => *value,
            SIntNodes::Add { child_a, child_b } => child_a.compute(arg).circular_add(
                child_b.compute(arg),
            ),
            SIntNodes::Multiply { child_a, child_b } => child_a.compute(arg).circular_multiply(
                child_b.compute(arg),
            ),
            SIntNodes::Divide { child_value, child_divisor } => child_value.compute(arg).divide(
                child_divisor.compute(arg),
            ),
            SIntNodes::Modulus { child_value, child_divisor } => child_value.compute(arg).modulus(
                child_divisor.compute(arg),
            ),
            SIntNodes::IfElse { predicate, child_a, child_b } => {
                if predicate.compute(arg).into_inner() {
                    child_a.compute(arg)
                } else {
                    child_b.compute(arg)
                }
            },
        }
    }
}

/// A valid tree can be evaluated under every context.
pub proof fn lemma_wf_sound_boolean_nodes(t: BooleanNodes, arg: ComArg)
    requires
        t.wf(),
    ensures
        t.sound(arg),
    decreases t,
{
    match t {
            BooleanNodes::And { child_a, child_b } => {
                lemma_wf_sound_boolean_nodes(*child_a, arg);
                lemma_wf_sound_boolean_nodes(*child_b, arg);
            },
            BooleanNodes::Or { child_a, child_b } => {
                lemma_wf_sound_boolean_nodes(*child_a, arg);
                lemma_wf_sound_boolean_nodes(*child_b, arg);
            },
            BooleanNodes::Not { child } => {
                lemma_wf_sound_boolean_nodes(*child, arg);
            },
            BooleanNodes::ModifyState { child, child_state } => {
                lemma_wf_sound_boolean_nodes(*child, arg.at(child_state.computed(arg)));
            },
            BooleanNodes::IfElse { predicate, child_a, child_b } => {
                lemma_wf_sound_boolean_nodes(*predicate, arg);
                lemma_wf_sound_boolean_nodes(*child_a, arg);
                lemma_wf_sound_boolean_nodes(*child_b, arg);
            },
            BooleanNodes::ByteEquals { child_a, child_b } => {
                lemma_wf_sound_byte_nodes(*child_a, arg);
                lemma_wf_sound_byte_nodes(*child_b, arg);
            },
            _ => {},
    }
}

/// A valid tree can be evaluated under every context.
pub proof fn lemma_wf_sound_nibble_nodes(t: NibbleNodes, arg: ComArg)
    requires
        t.wf(),
    ensures
        t.sound(arg),
    decreases t,
{
    match t {
            NibbleNodes::Add { child_a, child_b } => {
                lemma_wf_sound_nibble_nodes(*child_a, arg);
                lemma_wf_sound_nibble_nodes(*child_b, arg);
            },
            NibbleNodes::Multiply { child_a, child_b } => {
                lemma_wf_sound_nibble_nodes(*child_a, arg);
                lemma_wf_sound_nibble_nodes(*child_b, arg);
            },
            NibbleNodes::Divide { child_value, child_divisor } => {
                lemma_wf_sound_nibble_nodes(*child_value, arg);
                lemma_wf_sound_nibble_nodes(*child_divisor, arg);
            },
            NibbleNodes::Modulus { child_value, child_divisor } => {
                lemma_wf_sound_nibble_nodes(*child_value, arg);
                lemma_wf_sound_nibble_nodes(*child_divisor, arg);
            },
            NibbleNodes::FromBooleans { a, b, c, d } => {
                lemma_wf_sound_boolean_nodes(*a, arg);
                lemma_wf_sound_boolean_nodes(*b, arg);
                lemma_wf_sound_boolean_nodes(*c, arg);
                lemma_wf_sound_boolean_nodes(*d, arg);
            },
            NibbleNodes::FromByteModulo { child } => {
                lemma_wf_sound_byte_nodes(*child, arg);
            },
            NibbleNodes::FromByteDivide { child } => {
                lemma_wf_sound_byte_nodes(*child, arg);
            },
            NibbleNodes::IfElse { predicate, child_a, child_b } => {
                lemma_wf_sound_boolean_nodes(*predicate, arg);
                lemma_wf_sound_nibble_nodes(*child_a, arg);
                lemma_wf_sound_nibble_nodes(*child_b, arg);
            },
            _ => {},
    }
}

/// A valid tree can be evaluated under every context.
pub proof fn lemma_wf_sound_byte_nodes(t: ByteNodes, arg: ComArg)
    requires
        t.wf(),
    ensures
        t.sound(arg),
    decreases t,
{
    match t {
            ByteNodes::Add { child_a, child_b } => {
                lemma_wf_sound_byte_nodes(*child_a, arg);
                lemma_wf_sound_byte_nodes(*child_b, arg);
            },
            ByteNodes::Multiply { child_a, child_b } => {
                lemma_wf_sound_byte_nodes(*child_a, arg);
                lemma_wf_sound_byte_nodes(*child_b, arg);
            },
            ByteNodes::MultiplyNibbles { child_a, child_b } => {
                lemma_wf_sound_nibble_nodes(*child_a, arg);
                lemma_wf_sound_nibble_nodes(*child_b, arg);
            },
            ByteNodes::Divide { child_value, child_divisor } => {
                lemma_wf_sound_byte_nodes(*child_value, arg);
                lemma_wf_sound_byte_nodes(*child_divisor, arg);
            },
            ByteNodes::Modulus { child_value, child_divisor } => {
                lemma_wf_sound_byte_nodes(*child_value, arg);
                lemma_wf_sound_byte_nodes(*child_divisor, arg);
            },
            ByteNodes::IfElse { predicate, child_a, child_b } => {
                lemma_wf_sound_boolean_nodes(*predicate, arg);
                lemma_wf_sound_byte_nodes(*child_a, arg);
                lemma_wf_sound_byte_nodes(*child_b, arg);
            },
            _ => {},
    }
}

/// A valid tree can be evaluated under every context.
pub proof fn lemma_wf_sound_uint_nodes(t: UIntNodes, arg: ComArg)
    requires
        t.wf(),
    ensures
        t.sound(arg),
    decreases t,
{
    match t {
            UIntNodes::Add { child_a, child_b } => {
                lemma_wf_sound_uint_nodes(*child_a, arg);
                lemma_wf_sound_uint_nodes(*child_b, arg);
            },
            UIntNodes::Multiply { child_a, child_b } => {
                lemma_wf_sound_uint_nodes(*child_a, arg);
                lemma_wf_sound_uint_nodes(*child_b, arg);
            },
            UIntNodes::Divide { child_value, child_divisor } => {
                lemma_wf_sound_uint_nodes(*child_value, arg);
                lemma_wf_sound_uint_nodes(*child_divisor, arg);
            },
            UIntNodes::Modulus { child_value, child_divisor } => {
                lemma_wf_sound_uint_nodes(*child_value, arg);
                lemma_wf_sound_uint_nodes(*child_divisor, arg);
            },
            UIntNodes::IfElse { predicate, child_a, child_b } => {
                lemma_wf_sound_boolean_nodes(*predicate, arg);
                lemma_wf_sound_uint_nodes(*child_a, arg);
                lemma_wf_sound_uint_nodes(*child_b, arg);
            },
            _ => {},
    }
}

/// A valid tree can be evaluated under every context.
pub proof fn lemma_wf_sound_sint_nodes(t: SIntNodes, arg: ComArg)
    requires
        t.wf(),
    ensures
        t.sound(arg),
    decreases t,
{
    match t {
            SIntNodes::Add { child_a, child_b } => {
                lemma_wf_sound_sint_nodes(*child_a, arg);
                lemma_wf_sound_sint_nodes(*child_b, arg);
            },
            SIntNodes::Multiply { child_a, child_b } => {
                lemma_wf_sound_sint_nodes(*child_a, arg);
                lemma_wf_sound_sint_nodes(*child_b, arg);
            },
            SIntNodes::Divide { child_value, child_divisor } => {
                lemma_wf_sound_sint_nodes(*child_value, arg);
                lemma_wf_sound_sint_nodes(*child_divisor, arg);
            },
            SIntNodes::Modulus { child_value, child_divisor } => {
                lemma_wf_sound_sint_nodes(*child_value, arg);
                lemma_wf_sound_sint_nodes(*child_divisor, arg);
            },
            SIntNodes::IfElse { predicate, child_a, child_b } => {
                lemma_wf_sound_boolean_nodes(*predicate, arg);
                lemma_wf_sound_sint_nodes(*child_a, arg);
                lemma_wf_sound_sint_nodes(*child_b, arg);
            },
            _ => {},
    }
}

} // verus!
