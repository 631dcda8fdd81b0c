//! The evaluation context and the sibling node families that the discrete
//! families read from: unit and signed scalars, three-channel colours,
//! coordinate maps and iterative-function results. Each sibling family here
//! offers what the discrete nodes consume, and no more.
use crate::discrete::Byte;
use crate::rng;
use vstd::prelude::*;

verus! {

/// A scalar of the unit interval, held as its position in the order of such
/// scalars: comparing keys compares the scalars.
#[derive(Clone, Copy, Debug, Default, PartialEq, Eq, Structural)]
pub struct UNFloat {
    pub key: u32,
}

/// A scalar of `[-1, 1]`, held as an order-preserving key whose sign is the
/// scalar's sign (zero for zero).
#[derive(Clone, Copy, Debug, Default, PartialEq, Eq, Structural)]
pub struct SNFloat {
    pub key: i32,
}

/// A colour with each primary channel on or off.
#[derive(Clone, Copy, Debug, Default, PartialEq, Eq, Structural)]
pub struct BitColor {
    pub red: bool,
    pub green: bool,
    pub blue: bool,
}

impl BitColor {
    /// Two colours share a colour when some channel is on in both.
    pub open spec fn shares(self, other: Self) -> bool {
        (self.red && other.red) || (self.green && other.green) || (self.blue && other.blue)
    }

    pub fn has_color(self, other: Self) -> (r: bool)
        ensures
            r == self.shares(other),
    {
        (self.red && other.red) || (self.green && other.green) || (self.blue && other.blue)
    }
}

/// Where and when a value is computed: the position, the whole tick count, and
/// the byte sample that the context supplier derives from the tick.
#[derive(Clone, Copy, Debug, Default, PartialEq, Eq, Structural)]
pub struct CoordinateSet {
    pub x: SNFloat,
    pub y: SNFloat,
    pub t: u32,
    pub byte_t: Byte,
}

impl CoordinateSet {
    pub fn get_byte_t(&self) -> (r: Byte)
        ensures
            r == self.byte_t,
    {
        self.byte_t
    }
}

/// The per-call evaluation context handed to every node.
#[derive(Clone, Copy, Debug, Default, PartialEq, Eq, Structural)]
pub struct ComArg {
    pub coordinate_set: CoordinateSet,
}

impl ComArg {
    /// The same context at another coordinate set; nothing else is ever rebound.
    pub open spec fn at(self, cs: CoordinateSet) -> ComArg {
        ComArg { coordinate_set: cs, ..self }
    }

    pub fn with_coordinate_set(&self, cs: CoordinateSet) -> (r: ComArg)
        ensures
            r == self.at(cs),
    {
        ComArg { coordinate_set: cs, ..*self }
    }
}

/// What an iterative function yields; the discrete nodes read its final byte.
#[derive(Clone, Copy, Debug, Default, PartialEq, Eq, Structural)]
pub struct IterativeResult {
    pub iter_final: Byte,
}

/// The remaining depth budget of a generation.
#[derive(Clone, Copy, Debug, Default, PartialEq, Eq, Structural)]
pub struct GenArg {
    pub depth: u32,
}

impl GenArg {
    /// The budget handed to the children of a node.
    pub open spec fn below(self) -> GenArg {
        GenArg { depth: if self.depth == 0 { 0 } else { (self.depth - 1) as u32 } }
    }

    pub fn child(&self) -> (r: GenArg)
        ensures
            r == self.below(),
    {
        GenArg { depth: if self.depth == 0 { 0 } else { self.depth - 1 } }
    }
}

/// The denominator of a reroll chance: a chance of `REROLL_SCALE` always rerolls.
pub const REROLL_SCALE: u32 = 1000;

/// A mutation pass: the chance, out of `REROLL_SCALE`, that a node is replaced
/// by a fresh one, and the depth budget at the node.
#[derive(Clone, Copy, Debug, Default, PartialEq, Eq, Structural)]
pub struct MutArg {
    pub reroll_chance: u32,
    pub depth: u32,
}

impl MutArg {
    pub open spec fn wf(self) -> bool {
        self.reroll_chance <= REROLL_SCALE
    }

    /// The pass as its children see it: one level less of budget.
    pub open spec fn below(self) -> MutArg {
        MutArg { depth: if self.depth == 0 { 0 } else { (self.depth - 1) as u32 }, ..self }
    }

    pub fn child(&self) -> (r: MutArg)
        ensures
            r == self.below(),
    {
        MutArg { depth: if self.depth == 0 { 0 } else { self.depth - 1 }, ..*self }
    }

    pub open spec fn gen_arg(self) -> GenArg {
        GenArg { depth: self.depth }
    }

    pub fn generation(&self) -> (r: GenArg)
        ensures
            r == self.gen_arg(),
    {
        GenArg { depth: self.depth }
    }

    /// Draws whether the node at hand is replaced.
    pub fn reroll(&self, rng: &mut rand::rngs::StdRng) -> (r: bool)
        requires
            self.wf(),
        ensures
            self.reroll_chance == 0 ==> !r,
            self.reroll_chance == REROLL_SCALE ==> r,
    {
        rng::ratio(rng, self.reroll_chance, REROLL_SCALE)
    }
}

#[derive(Debug, PartialEq, Eq, Structural)]
pub enum UNFloatNodes {
    Constant { value: UNFloat },
}

impl UNFloatNodes {
    pub open spec fn computed(self, arg: ComArg) -> UNFloat {
        match self {
            UNFloatNodes::Constant { value } => value,
        }
    }

    pub fn compute(&self, arg: ComArg) -> (r: UNFloat)
        ensures
            r == self.computed(arg),
    {
        match self {
            UNFloatNodes::Constant { value } => *value,
        }
    }

    /// An update pass over this leaf, which carries no state.
    pub fn updated(self, arg: ComArg) -> (r: Self)
        ensures
            r == self,
    {
        self
    }

    /// What a mutation pass may make of this leaf: a redrawn one, when the
    /// chance allows it, or the leaf itself, when the chance is not certain.
    pub open spec fn passes_to(self, r: Self, arg: MutArg) -> bool {
        arg.reroll_chance > 0 || (arg.reroll_chance < REROLL_SCALE && r == self)
    }

    /// A mutation pass over this leaf: it is redrawn or kept.
    pub fn mutated(self, rng: &mut rand::rngs::StdRng, arg: MutArg) -> (r: Self)
        requires
            arg.wf(),
        ensures
            arg.reroll_chance == 0 ==> r == self,
            self.passes_to(r, arg),
    {
        if arg.reroll(rng) {
            Self::generate(rng, arg.generation())
        } else {
            self
        }
    }

    pub fn generate(rng: &mut rand::rngs::StdRng, arg: GenArg) -> (r: Self) {
        UNFloatNodes::Constant { value: UNFloat { key: rng::any_u32(rng) } }
    }
}

#[derive(Debug, PartialEq, Eq, Structural)]
pub enum SNFloatNodes {
    Constant { value: SNFloat },
    X,
    Y,
}

impl SNFloatNodes {
    pub open spec fn computed(self, arg: ComArg) -> SNFloat {
        match self {
            SNFloatNodes::Constant { value } => value,
            SNFloatNodes::X => arg.coordinate_set.x,
            SNFloatNodes::Y => arg.coordinate_set.y,
        }
    }

    pub fn compute(&self, arg: ComArg) -> (r: SNFloat)
        ensures
            r == self.computed(arg),
    {
        match self {
            SNFloatNodes::Constant { value } => *value,
            SNFloatNodes::X => arg.coordinate_set.x,
            SNFloatNodes::Y => arg.coordinate_set.y,
        }
    }

    /// An update pass over this leaf, which carries no state.
    pub fn updated(self, arg: ComArg) -> (r: Self)
        ensures
            r == self,
    {
        self
    }

    /// What a mutation pass may make of this leaf: a redrawn one, when the
    /// chance allows it, or the leaf itself, when the chance is not certain.
    pub open spec fn passes_to(self, r: Self, arg: MutArg) -> bool {
        arg.reroll_chance > 0 || (arg.reroll_chance < REROLL_SCALE && r == self)
    }

    /// A mutation pass over this leaf: it is redrawn or kept.
    pub fn mutated(self, rng: &mut rand::rngs::StdRng, arg: MutArg) -> (r: Self)
        requires
            arg.wf(),
        ensures
            arg.reroll_chance == 0 ==> r == self,
            self.passes_to(r, arg),
    {
        if arg.reroll(rng) {
            Self::generate(rng, arg.generation())
        } else {
            self
        }
    }

    pub fn generate(rng: &mut rand::rngs::StdRng, arg: GenArg) -> (r: Self) {
        let pick = rng::below(rng, 3);
        if pick == 0 {
            SNFloatNodes::Constant { value: SNFloat { key: rng::any_i32(rng) } }
        } else if pick == 1 {
            SNFloatNodes::X
        } else {
            SNFloatNodes::Y
        }
    }
}

#[derive(Debug, PartialEq, Eq, Structural)]
pub enum BitColorNodes {
    Constant { value: BitColor },
}

impl BitColorNodes {
    pub open spec fn computed(self, arg: ComArg) -> BitColor {
        match self {
            BitColorNodes::Constant { value } => value,
        }
    }

    pub fn compute(&self, arg: ComArg) -> (r: BitColor)
        ensures
            r == self.computed(arg),
    {
        match self {
            BitColorNodes::Constant { value } => *value,
        }
    }

    /// An update pass over this leaf, which carries no state.
    pub fn updated(self, arg: ComArg) -> (r: Self)
        ensures
            r == self,
    {
        self
    }

    /// What a mutation pass may make of this leaf: a redrawn one, when the
    /// chance allows it, or the leaf itself, when the chance is not certain.
    pub open spec fn passes_to(self, r: Self, arg: MutArg) -> bool {
        arg.reroll_chance > 0 || (arg.reroll_chance < REROLL_SCALE && r == self)
    }

    /// A mutation pass over this leaf: it is redrawn or kept.
    pub fn mutated(self, rng: &mut rand::rngs::StdRng, arg: MutArg) -> (r: Self)
        requires
            arg.wf(),
        ensures
            arg.reroll_chance == 0 ==> r == self,
            self.passes_to(r, arg),
    {
        if arg.reroll(rng) {
            Self::generate(rng, arg.generation())
        } else {
            self
        }
    }

    pub fn generate(rng: &mut rand::rngs::StdRng, arg: GenArg) -> (r: Self) {
        let red = rng::any_bool(rng);
        let green = rng::any_bool(rng);
        let blue = rng::any_bool(rng);
        BitColorNodes::Constant { value: BitColor { red, green, blue } }
    }
}

#[derive(Debug, PartialEq, Eq, Structural)]
pub enum CoordMapNodes {
    /// Leaves the coordinate set as it is.
    Identity,
    /// Moves to a fixed coordinate set.
    Replace { value: CoordinateSet },
}

impl CoordMapNodes {
    pub open spec fn computed(self, arg: ComArg) -> CoordinateSet {
        match self {
            CoordMapNodes::Identity => arg.coordinate_set,
            CoordMapNodes::Replace { value } => value,
        }
    }

    pub fn compute(&self, arg: ComArg) -> (r: CoordinateSet)
        ensures
            r == self.computed(arg),
    {
        match self {
            CoordMapNodes::Identity => arg.coordinate_set,
            CoordMapNodes::Replace { value } => *value,
        }
    }

    /// An update pass over this leaf, which carries no state.
    pub fn updated(self, arg: ComArg) -> (r: Self)
        ensures
            r == self,
    {
        self
    }

    /// What a mutation pass may make of this leaf: a redrawn one, when the
    /// chance allows it, or the leaf itself, when the chance is not certain.
    pub open spec fn passes_to(self, r: Self, arg: MutArg) -> bool {
        arg.reroll_chance > 0 || (arg.reroll_chance < REROLL_SCALE && r == self)
    }

    /// A mutation pass over this leaf: it is redrawn or kept.
    pub fn mutated(self, rng: &mut rand::rngs::StdRng, arg: MutArg) -> (r: Self)
        requires
            arg.wf(),
        ensures
            arg.reroll_chance == 0 ==> r == self,
            self.passes_to(r, arg),
    {
        if arg.reroll(rng) {
            Self::generate(rng, arg.generation())
        } else {
            self
        }
    }

    pub fn generate(rng: &mut rand::rngs::StdRng, arg: GenArg) -> (r: Self) {
        if rng::any_bool(rng) {
            CoordMapNodes::Identity
        } else {
            let x = SNFloat { key: rng::any_i32(rng) };
            let y = SNFloat { key: rng::any_i32(rng) };
            let t = rng::any_u32(rng);
            let byte_t = Byte::random(rng);
            CoordMapNodes::Replace { value: CoordinateSet { x, y, t, byte_t } }
        }
    }
}

#[derive(Debug, PartialEq, Eq, Structural)]
pub enum IterativeFunctionNodes {
    Constant { value: IterativeResult },
}

impl IterativeFunctionNodes {
    pub open spec fn computed(self, arg: ComArg) -> IterativeResult {
        match self {
            IterativeFunctionNodes::Constant { value } => value,
        }
    }

    pub fn compute(&self, arg: ComArg) -> (r: IterativeResult)
        ensures
            r == self.computed(arg),
    {
        match self {
            IterativeFunctionNodes::Constant { value } => *value,
        }
    }

    /// An update pass over this leaf, which carries no state.
    pub fn updated(self, arg: ComArg) -> (r: Self)
        ensures
            r == self,
    {
        self
    }

    /// What a mutation pass may make of this leaf: a redrawn one, when the
    /// chance allows it, or the leaf itself, when the chance is not certain.
    pub open spec fn passes_to(self, r: Self, arg: MutArg) -> bool {
        arg.reroll_chance > 0 || (arg.reroll_chance < REROLL_SCALE && r == self)
    }

    /// A mutation pass over this leaf: it is redrawn or kept.
    pub fn mutated(self, rng: &mut rand::rngs::StdRng, arg: MutArg) -> (r: Self)
        requires
            arg.wf(),
        ensures
            arg.reroll_chance == 0 ==> r == self,
            self.passes_to(r, arg),
    {
        if arg.reroll(rng) {
            Self::generate(rng, arg.generation())
        } else {
            self
        }
    }

    pub fn generate(rng: &mut rand::rngs::StdRng, arg: GenArg) -> (r: Self) {
        let iter_final = Byte::random(rng);
        IterativeFunctionNodes::Constant { value: IterativeResult { iter_final } }
    }
}

} // verus!
