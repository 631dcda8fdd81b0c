//! The discrete value types that leaves hold and nodes compute: a boolean, a
//! nibble in `[0, 16)`, and wrapping byte, unsigned and signed 32-bit integers.
//! All arithmetic is total: it wraps, and a zero divisor yields zero.
use crate::rng;
use vstd::prelude::*;

verus! {

/// `2^32`, the size of the 32-bit domains.
pub open spec fn word_range() -> int {
    0x1_0000_0000
}

/// `x` reduced into the signed 32-bit range, as two's complement wraps it.
pub open spec fn wrap_signed(x: int) -> int {
    let m = x % word_range();
    if m > i32::MAX {
        m - word_range()
    } else {
        m
    }
}

pub open spec fn abs(x: int) -> int {
    if x < 0 {
        -x
    } else {
        x
    }
}

/// Integer division rounding toward zero, for `b != 0`.
pub open spec fn trunc_div(a: int, b: int) -> int {
    let q = abs(a) / abs(b);
    if (a < 0) == (b < 0) {
        q
    } else {
        -q
    }
}

/// The remainder that goes with `trunc_div`: it takes the sign of `a`.
pub open spec fn trunc_rem(a: int, b: int) -> int {
    let r = abs(a) % abs(b);
    if a < 0 {
        -r
    } else {
        r
    }
}

#[derive(Clone, Copy, Debug, Default, PartialEq, Eq, Structural)]
pub struct Boolean {
    pub value: bool,
}

impl Boolean {
    pub fn new(value: bool) -> (r: Self)
        ensures
            r.value == value,
    {
        Self { value }
    }

    pub fn into_inner(self) -> (r: bool)
        ensures
            r == self.value,
    {
        self.value
    }

    /// A uniformly drawn boolean.
    pub fn random(rng: &mut rand::rngs::StdRng) -> (r: Self) {
        Self { value: rng::any_bool(rng) }
    }
}

/// The number of nibble values.
pub const NIBBLE_MODULUS: u8 = 16;

#[derive(Clone, Copy, Debug, Default, PartialEq, Eq, Structural)]
pub struct Nibble {
    pub value: u8,
}

impl Nibble {
    pub open spec fn sum(self, o: Self) -> Self {
        Nibble { value: ((self.value + o.value) % (NIBBLE_MODULUS as int)) as u8 }
    }

    pub open spec fn product(self, o: Self) -> Self {
        Nibble { value: ((self.value * o.value) % (NIBBLE_MODULUS as int)) as u8 }
    }

    pub open spec fn quotient(self, o: Self) -> Self {
        if o.value == 0 {
            Nibble { value: 0 }
        } else {
            Nibble { value: (self.value / o.value) as u8 }
        }
    }

    pub open spec fn remainder(self, o: Self) -> Self {
        if o.value == 0 {
            Nibble { value: 0 }
        } else {
            Nibble { value: (self.value % o.value) as u8 }
        }
    }

    pub const MODULUS: u8 = NIBBLE_MODULUS;

    /// A nibble holds a value below the modulus.
    pub open spec fn wf(self) -> bool {
        self.value < NIBBLE_MODULUS
    }

    pub fn new(value: u8) -> (r: Self)
        requires
            value < NIBBLE_MODULUS,
        ensures
            r.value == value,
            r.wf(),
    {
        Self::new_unchecked(value)
    }

    pub fn new_circular(value: u8) -> (r: Self)
        ensures
            r.value == value % NIBBLE_MODULUS,
            r.wf(),
    {
        Self::new_unchecked(value % Self::MODULUS)
    }

    /// Construction for callers that cannot prove the bound: out-of-range
    /// values are rejected.
    pub fn checked(value: u8) -> (r: Option<Self>)
        ensures
            r is Some <==> value < NIBBLE_MODULUS,
            r matches Some(n) ==> n.value == value && n.wf(),
    {
        if value < Self::MODULUS {
            Some(Self::new_unchecked(value))
        } else {
            None
        }
    }

    /// Construction without reduction; the bound is still owed by the caller.
    pub fn new_unchecked(value: u8) -> (r: Self)
        requires
            value < NIBBLE_MODULUS,
        ensures
            r.value == value,
            r.wf(),
    {
        Self { value }
    }

    pub fn into_inner(self) -> (r: u8)
        ensures
            r == self.value,
    {
        self.value
    }

    pub fn circular_add(self, other: Self) -> (r: Self)
        requires
            self.wf(),
            other.wf(),
        ensures
            r == self.sum(other),
            r.value == (self.value + other.value) % (NIBBLE_MODULUS as int),
            r.wf(),
    {
        Self::new_circular(self.value + other.value)
    }

    /// Integer division; a zero divisor gives zero.
    pub fn divide(self, other: Self) -> (r: Self)
        requires
            self.wf(),
            other.wf(),
        ensures
            r == self.quotient(other),
            other.value == 0 ==> r.value == 0,
            other.value != 0 ==> r.value == self.value / other.value,
            r.wf(),
    {
        if other.value == 0 {
            other
        } else {
            Self::new_unchecked(self.value / other.value)
        }
    }

    pub fn circular_multiply(self, other: Self) -> (r: Self)
        requires
            self.wf(),
            other.wf(),
        ensures
            r == self.product(other),
            r.value == (self.value * other.value) % (NIBBLE_MODULUS as int),
            r.wf(),
    {
        proof {
            assert(self.value * other.value <= 15 * 15) by (nonlinear_arith)
                requires
                    self.value < 16,
                    other.value < 16,
            ;
        }
        Self::new_circular(self.value * other.value)
    }

    /// Remainder; a zero divisor gives zero.
    pub fn modulus(self, other: Self) -> (r: Self)
        requires
            self.wf(),
            other.wf(),
        ensures
            r == self.remainder(other),
            other.value == 0 ==> r.value == 0,
            other.value != 0 ==> r.value == self.value % other.value,
            r.wf(),
    {
        if other.value == 0 {
            other
        } else {
            Self::new_circular(self.value % other.value)
        }
    }

    /// A uniformly drawn nibble.
    pub fn random(rng: &mut rand::rngs::StdRng) -> (r: Self)
        ensures
            r.wf(),
    {
        Nibble::new_unchecked(rng::below_u8(rng, Self::MODULUS))
    }
}

#[derive(Clone, Copy, Debug, Default, PartialEq, Eq, Structural)]
pub struct Byte {
    pub value: u8,
}

impl Byte {
    pub open spec fn sum(self, o: Self) -> Self {
        Byte { value: ((self.value + o.value) % 256) as u8 }
    }

    pub open spec fn product(self, o: Self) -> Self {
        Byte { value: ((self.value * o.value) % 256) as u8 }
    }

    pub open spec fn quotient(self, o: Self) -> Self {
        if o.value == 0 {
            Byte { value: 0 }
        } else {
            Byte { value: (self.value / o.value) as u8 }
        }
    }

    pub open spec fn remainder(self, o: Self) -> Self {
        if o.value == 0 {
            Byte { value: 0 }
        } else {
            Byte { value: (self.value % o.value) as u8 }
        }
    }

    pub fn new(value: u8) -> (r: Self)
        ensures
            r.value == value,
    {
        Self { value }
    }

    pub fn into_inner(self) -> (r: u8)
        ensures
            r == self.value,
    {
        self.value
    }

    pub fn circular_add(self, other: Self) -> (r: Self)
        ensures
            r == self.sum(other),
            r.value == (self.value + other.value) % 256,
    {
        Self::new(self.value.wrapping_add(other.value))
    }

    /// Integer division; a zero divisor gives zero.
    pub fn divide(self, other: Self) -> (r: Self)
        ensures
            r == self.quotient(other),
            other.value == 0 ==> r.value == 0,
            other.value != 0 ==> r.value == self.value / other.value,
    {
        if other.value == 0 {
            Self::new(other.value)
        } else {
            Self::new(self.value / other.value)
        }
    }

    /// The byte mirrored within its range: `255 - value`.
    pub fn invert_wrapped(self) -> (r: Self)
        ensures
            r.value == 255 - self.value,
    {
        Self::new(255u8 - self.value)
    }

    pub fn circular_multiply(self, other: Self) -> (r: Self)
        ensures
            r == self.product(other),
            r.value == (self.value * other.value) % 256,
    {
        Self::new(self.value.wrapping_mul(other.value))
    }

    /// Remainder; a zero divisor gives zero.
    pub fn modulus(self, other: Self) -> (r: Self)
        ensures
            r == self.remainder(other),
            other.value == 0 ==> r.value == 0,
            other.value != 0 ==> r.value == self.value % other.value,
    {
        if other.value == 0 {
            Self::new(other.value)
        } else {
            Self::new(self.value % other.value)
        }
    }

    /// A uniformly drawn byte.
    pub fn random(rng: &mut rand::rngs::StdRng) -> (r: Self) {
        Self { value: rng::any_u8(rng) }
    }
}

#[derive(Clone, Copy, Debug, Default, PartialEq, Eq, Structural)]
pub struct UInt {
    pub value: u32,
}

impl UInt {
    pub open spec fn sum(self, o: Self) -> Self {
        UInt { value: ((self.value + o.value) % word_range()) as u32 }
    }

    pub open spec fn product(self, o: Self) -> Self {
        UInt { value: ((self.value * o.value) % word_range()) as u32 }
    }

    pub open spec fn quotient(self, o: Self) -> Self {
        if o.value == 0 {
            UInt { value: 0 }
        } else {
            UInt { value: (self.value / o.value) as u32 }
        }
    }

    pub open spec fn remainder(self, o: Self) -> Self {
        if o.value == 0 {
            UInt { value: 0 }
        } else {
            UInt { value: (self.value % o.value) as u32 }
        }
    }

    pub fn new(value: u32) -> (r: Self)
        ensures
            r.value == value,
    {
        Self { value }
    }

    pub fn into_inner(self) -> (r: u32)
        ensures
            r == self.value,
    {
        self.value
    }

    pub fn circular_add(self, other: Self) -> (r: Self)
        ensures
            r == self.sum(other),
            r.value == (self.value + other.value) % word_range(),
    {
        Self::new(self.value.wrapping_add(other.value))
    }

    /// Integer division; a zero divisor gives zero.
    pub fn divide(self, other: Self) -> (r: Self)
        ensures
            r == self.quotient(other),
            other.value == 0 ==> r.value == 0,
            other.value != 0 ==> r.value == self.value / other.value,
    {
        if other.value == 0 {
            Self::new(other.value)
        } else {
            Self::new(self.value / other.value)
        }
    }

    pub fn circular_multiply(self, other: Self) -> (r: Self)
        ensures
            r == self.product(other),
            r.value == (self.value * other.value) % word_range(),
    {
        Self::new(self.value.wrapping_mul(other.value))
    }

    /// Remainder; a zero divisor gives zero.
    pub fn modulus(self, other: Self) -> (r: Self)
        ensures
            r == self.remainder(other),
            other.value == 0 ==> r.value == 0,
            other.value != 0 ==> r.value == self.value % other.value,
    {
        if other.value == 0 {
            Self::new(other.value)
        } else {
            Self::new(self.value % other.value)
        }
    }

    /// A uniformly drawn unsigned integer.
    pub fn random(rng: &mut rand::rngs::StdRng) -> (r: Self) {
        Self { value: rng::any_u32(rng) }
    }
}

#[derive(Clone, Copy, Debug, Default, PartialEq, Eq, Structural)]
pub struct SInt {
    pub value: i32,
}

/// The magnitude of a signed 32-bit value, which always fits in `u32`.
fn magnitude(x: i32) -> (r: u32)
    ensures
        r as int == abs(x as int),
{
    if x < 0 {
        (-(x as i64)) as u32
    } else {
        x as u32
    }
}

impl SInt {
    pub open spec fn sum(self, o: Self) -> Self {
        SInt { value: wrap_signed(self.value + o.value) as i32 }
    }

    pub open spec fn product(self, o: Self) -> Self {
        SInt { value: wrap_signed(self.value * o.value) as i32 }
    }

    pub open spec fn quotient(self, o: Self) -> Self {
        if o.value == 0 {
            SInt { value: 0 }
        } else {
            SInt { value: wrap_signed(trunc_div(self.value as int, o.value as int)) as i32 }
        }
    }

    pub open spec fn remainder(self, o: Self) -> Self {
        if o.value == 0 {
            SInt { value: 0 }
        } else {
            SInt { value: trunc_rem(self.value as int, o.value as int) as i32 }
        }
    }

    pub fn new(value: i32) -> (r: Self)
        ensures
            r.value == value,
    {
        Self { value }
    }

    pub fn into_inner(self) -> (r: i32)
        ensures
            r == self.value,
    {
        self.value
    }

    pub fn circular_add(self, other: Self) -> (r: Self)
        ensures
            r == self.sum(other),
            r.value == wrap_signed(self.value + other.value),
    {
        Self::new(self.value.wrapping_add(other.value))
    }

    /// Division rounding toward zero, wrapping where the quotient does not fit
    /// (`i32::MIN / -1`); a zero divisor gives zero.
    pub fn divide(self, other: Self) -> (r: Self)
        ensures
            r == self.quotient(other),
            other.value == 0 ==> r.value == 0,
            other.value != 0 ==> r.value == wrap_signed(
                trunc_div(self.value as int, other.value as int),
            ),
    {
        if other.value == 0 {
            Self::new(other.value)
        } else {
            let a = magnitude(self.value);
            let b = magnitude(other.value);
            let q: u32 = a / b;
            proof {
                assert(q <= a) by (nonlinear_arith)
                    requires
                        b >= 1,
                        q == a / b,
                ;
            }
            if (self.value < 0) == (other.value < 0) {
                if q > i32::MAX as u32 {
                    Self::new(i32::MIN)
                } else {
                    Self::new(q as i32)
                }
            } else {
                Self::new((-(q as i64)) as i32)
            }
        }
    }

    pub fn circular_multiply(self, other: Self) -> (r: Self)
        ensures
            r == self.product(other),
            r.value == wrap_signed(self.value * other.value),
    {
        Self::new(self.value.wrapping_mul(other.value))
    }

    /// Remainder with the sign of the dividend; a zero divisor gives zero.
    pub fn modulus(self, other: Self) -> (r: Self)
        ensures
            r == self.remainder(other),
            other.value == 0 ==> r.value == 0,
            other.value != 0 ==> r.value == trunc_rem(self.value as int, other.value as int),
    {
        if other.value == 0 {
            Self::new(other.value)
        } else {
            let a = magnitude(self.value);
            let b = magnitude(other.value);
            let m: u32 = a % b;
            if self.value < 0 {
                Self::new((-(m as i64)) as i32)
            } else {
                Self::new(m as i32)
            }
        }
    }

    /// A uniformly drawn signed integer.
    pub fn random(rng: &mut rand::rngs::StdRng) -> (r: Self) {
        Self { value: rng::any_i32(rng) }
    }
}

} // verus!
