//! Laws that relate evaluations of different trees.
use crate::nodes::{strictly_between, BooleanNodes, ByteNodes, NibbleNodes, SIntNodes, UIntNodes};
use crate::siblings::{ComArg, SNFloatNodes, UNFloatNodes};
use vstd::prelude::*;

verus! {

/// A between-range node tests for a value strictly inside the interval that
/// its bounds span, so swapping the two bounds never changes its result.
pub proof fn lemma_between_bound_order(
    value: UNFloatNodes,
    range_a: UNFloatNodes,
    range_b: UNFloatNodes,
    arg: ComArg,
)
    ensures
        (BooleanNodes::UNFloatBetween {
            child_value: Box::new(value),
            child_range_a: Box::new(range_a),
            child_range_b: Box::new(range_b),
        }).computed(arg) == (BooleanNodes::UNFloatBetween {
            child_value: Box::new(value),
            child_range_a: Box::new(range_b),
            child_range_b: Box::new(range_a),
        }).computed(arg),
        (BooleanNodes::UNFloatBetween {
            child_value: Box::new(value),
            child_range_a: Box::new(range_a),
            child_range_b: Box::new(range_b),
        }).computed(arg).value == strictly_between(
            value.computed(arg).key as int,
            range_a.computed(arg).key as int,
            range_b.computed(arg).key as int,
        ),
{
}

/// The same for signed scalars.
pub proof fn lemma_signed_between_bound_order(
    value: SNFloatNodes,
    range_a: SNFloatNodes,
    range_b: SNFloatNodes,
    arg: ComArg,
)
    ensures
        (BooleanNodes::SNFloatBetween {
            child_value: Box::new(value),
            child_range_a: Box::new(range_a),
            child_range_b: Box::new(range_b),
        }).computed(arg) == (BooleanNodes::SNFloatBetween {
            child_value: Box::new(value),
            child_range_a: Box::new(range_b),
            child_range_b: Box::new(range_a),
        }).computed(arg),
{
}

/// An if-else node evaluates only the branch its predicate selects: it can be
/// evaluated whenever the predicate and that branch can, whatever the other
/// branch holds (an out-of-range nibble included), and its value is that
/// branch's value. Replacing the branch not taken changes nothing.
pub proof fn lemma_boolean_if_else_one_branch(
    predicate: BooleanNodes,
    child_a: BooleanNodes,
    child_b: BooleanNodes,
    other: BooleanNodes,
    arg: ComArg,
)
    requires
        predicate.sound(arg),
        predicate.computed(arg).value ==> child_a.sound(arg),
        !predicate.computed(arg).value ==> child_b.sound(arg),
    ensures
        (BooleanNodes::IfElse {
            predicate: Box::new(predicate),
            child_a: Box::new(child_a),
            child_b: Box::new(child_b),
        }).sound(arg),
        predicate.computed(arg).value ==> (BooleanNodes::IfElse {
            predicate: Box::new(predicate),
            child_a: Box::new(child_a),
            child_b: Box::new(child_b),
        }).computed(arg) == child_a.computed(arg),
        !predicate.computed(arg).value ==> (BooleanNodes::IfElse {
            predicate: Box::new(predicate),
            child_a: Box::new(child_a),
            child_b: Box::new(child_b),
        }).computed(arg) == child_b.computed(arg),
        predicate.computed(arg).value ==> (BooleanNodes::IfElse {
            predicate: Box::new(predicate),
            child_a: Box::new(child_a),
            child_b: Box::new(child_b),
        }).computed(arg) == (BooleanNodes::IfElse {
            predicate: Box::new(predicate),
            child_a: Box::new(child_a),
            child_b: Box::new(other),
        }).computed(arg),
        !predicate.computed(arg).value ==> (BooleanNodes::IfElse {
            predicate: Box::new(predicate),
            child_a: Box::new(child_a),
            child_b: Box::new(child_b),
        }).computed(arg) == (BooleanNodes::IfElse {
            predicate: Box::new(predicate),
            child_a: Box::new(other),
            child_b: Box::new(child_b),
        }).computed(arg),
{
}

/// An if-else node evaluates only the branch its predicate selects: it can be
/// evaluated whenever the predicate and that branch can, whatever the other
/// branch holds (an out-of-range nibble included), and its value is that
/// branch's value. Replacing the branch not taken changes nothing.
pub proof fn lemma_nibble_if_else_one_branch(
    predicate: BooleanNodes,
    child_a: NibbleNodes,
    child_b: NibbleNodes,
    other: NibbleNodes,
    arg: ComArg,
)
    requires
        predicate.sound(arg),
        predicate.computed(arg).value ==> child_a.sound(arg),
        !predicate.computed(arg).value ==> child_b.sound(arg),
    ensures
        (NibbleNodes::IfElse {
            predicate: Box::new(predicate),
            child_a: Box::new(child_a),
            child_b: Box::new(child_b),
        }).sound(arg),
        predicate.computed(arg).value ==> (NibbleNodes::IfElse {
            predicate: Box::new(predicate),
            child_a: Box::new(child_a),
            child_b: Box::new(child_b),
        }).computed(arg) == child_a.computed(arg),
        !predicate.computed(arg).value ==> (NibbleNodes::IfElse {
            predicate: Box::new(predicate),
            child_a: Box::new(child_a),
            child_b: Box::new(child_b),
        }).computed(arg) == child_b.computed(arg),
        predicate.computed(arg).value ==> (NibbleNodes::IfElse {
            predicate: Box::new(predicate),
            child_a: Box::new(child_a),
            child_b: Box::new(child_b),
        }).computed(arg) == (NibbleNodes::IfElse {
            predicate: Box::new(predicate),
            child_a: Box::new(child_a),
            child_b: Box::new(other),
        }).computed(arg),
        !predicate.computed(arg).value ==> (NibbleNodes::IfElse {
            predicate: Box::new(predicate),
            child_a: Box::new(child_a),
            child_b: Box::new(child_b),
        }).computed(arg) == (NibbleNodes::IfElse {
            predicate: Box::new(predicate),
            child_a: Box::new(other),
            child_b: Box::new(child_b),
        }).computed(arg),
{
}

/// An if-else node evaluates only the branch its predicate selects: it can be
/// evaluated whenever the predicate and that branch can, whatever the other
/// branch holds (an out-of-range nibble included), and its value is that
/// branch's value. Replacing the branch not taken changes nothing.
pub proof fn lemma_byte_if_else_one_branch(
    predicate: BooleanNodes,
    child_a: ByteNodes,
    child_b: ByteNodes,
    other: ByteNodes,
    arg: ComArg,
)
    requires
        predicate.sound(arg),
        predicate.computed(arg).value ==> child_a.sound(arg),
        !predicate.computed(arg).value ==> child_b.sound(arg),
    ensures
        (ByteNodes::IfElse {
            predicate: Box::new(predicate),
            child_a: Box::new(child_a),
            child_b: Box::new(child_b),
        }).sound(arg),
        predicate.computed(arg).value ==> (ByteNodes::IfElse {
            predicate: Box::new(predicate),
            child_a: Box::new(child_a),
            child_b: Box::new(child_b),
        }).computed(arg) == child_a.computed(arg),
        !predicate.computed(arg).value ==> (ByteNodes::IfElse {
            predicate: Box::new(predicate),
            child_a: Box::new(child_a),
            child_b: Box::new(child_b),
        }).computed(arg) == child_b.computed(arg),
        predicate.computed(arg).value ==> (ByteNodes::IfElse {
            predicate: Box::new(predicate),
            child_a: Box::new(child_a),
            child_b: Box::new(child_b),
        }).computed(arg) == (ByteNodes::IfElse {
            predicate: Box::new(predicate),
            child_a: Box::new(child_a),
            child_b: Box::new(other),
        }).computed(arg),
        !predicate.computed(arg).value ==> (ByteNodes::IfElse {
            predicate: Box::new(predicate),
            child_a: Box::new(child_a),
            child_b: Box::new(child_b),
        }).computed(arg) == (ByteNodes::IfElse {
            predicate: Box::new(predicate),
            child_a: Box::new(other),
            child_b: Box::new(child_b),
        }).computed(arg),
{
}

/// An if-else node evaluates only the branch its predicate selects: it can be
/// evaluated whenever the predicate and that branch can, whatever the other
/// branch holds (an out-of-range nibble included), and its value is that
/// branch's value. Replacing the branch not taken changes nothing.
pub proof fn lemma_uint_if_else_one_branch(
    predicate: BooleanNodes,
    child_a: UIntNodes,
    child_b: UIntNodes,
    other: UIntNodes,
    arg: ComArg,
)
    requires
        predicate.sound(arg),
        predicate.computed(arg).value ==> child_a.sound(arg),
        !predicate.computed(arg).value ==> child_b.sound(arg),
    ensures
        (UIntNodes::IfElse {
            predicate: Box::new(predicate),
            child_a: Box::new(child_a),
            child_b: Box::new(child_b),
        }).sound(arg),
        predicate.computed(arg).value ==> (UIntNodes::IfElse {
            predicate: Box::new(predicate),
            child_a: Box::new(child_a),
            child_b: Box::new(child_b),
        }).computed(arg) == child_a.computed(arg),
        !predicate.computed(arg).value ==> (UIntNodes::IfElse {
            predicate: Box::new(predicate),
            child_a: Box::new(child_a),
            child_b: Box::new(child_b),
        }).computed(arg) == child_b.computed(arg),
        predicate.computed(arg).value ==> (UIntNodes::IfElse {
            predicate: Box::new(predicate),
            child_a: Box::new(child_a),
            child_b: Box::new(child_b),
        }).computed(arg) == (UIntNodes::IfElse {
            predicate: Box::new(predicate),
            child_a: Box::new(child_a),
            child_b: Box::new(other),
        }).computed(arg),
        !predicate.computed(arg).value ==> (UIntNodes::IfElse {
            predicate: Box::new(predicate),
            child_a: Box::new(child_a),
            child_b: Box::new(child_b),
        }).computed(arg) == (UIntNodes::IfElse {
            predicate: Box::new(predicate),
            child_a: Box::new(other),
            child_b: Box::new(child_b),
        }).computed(arg),
{
}

/// An if-else node evaluates only the branch its predicate selects: it can be
/// evaluated whenever the predicate and that branch can, whatever the other
/// branch holds (an out-of-range nibble included), and its value is that
/// branch's value. Replacing the branch not taken changes nothing.
pub proof fn lemma_sint_if_else_one_branch(
    predicate: BooleanNodes,
    child_a: SIntNodes,
    child_b: SIntNodes,
    other: SIntNodes,
    arg: ComArg,
)
    requires
        predicate.sound(arg),
        predicate.computed(arg).value ==> child_a.sound(arg),
        !predicate.computed(arg).value ==> child_b.sound(arg),
    ensures
        (SIntNodes::IfElse {
            predicate: Box::new(predicate),
            child_a: Box::new(child_a),
            child_b: Box::new(child_b),
        }).sound(arg),
        predicate.computed(arg).value ==> (SIntNodes::IfElse {
            predicate: Box::new(predicate),
            child_a: Box::new(child_a),
            child_b: Box::new(child_b),
        }).computed(arg) == child_a.computed(arg),
        !predicate.computed(arg).value ==> (SIntNodes::IfElse {
            predicate: Box::new(predicate),
            child_a: Box::new(child_a),
            child_b: Box::new(child_b),
        }).computed(arg) == child_b.computed(arg),
        predicate.computed(arg).value ==> (SIntNodes::IfElse {
            predicate: Box::new(predicate),
            child_a: Box::new(child_a),
            child_b: Box::new(child_b),
        }).computed(arg) == (SIntNodes::IfElse {
            predicate: Box::new(predicate),
            child_a: Box::new(child_a),
            child_b: Box::new(other),
        }).computed(arg),
        !predicate.computed(arg).value ==> (SIntNodes::IfElse {
            predicate: Box::new(predicate),
            child_a: Box::new(child_a),
            child_b: Box::new(child_b),
        }).computed(arg) == (SIntNodes::IfElse {
            predicate: Box::new(predicate),
            child_a: Box::new(other),
            child_b: Box::new(child_b),
        }).computed(arg),
{
}

} // verus!
