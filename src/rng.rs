//! The random source used by generation and mutation: rand's `StdRng`,
//! reached only through the trusted items below.
use rand::Rng;
use vstd::prelude::*;

verus! {

/// rand's standard generator, carried through opaquely.
#[verifier::external_type_specification]
#[verifier::external_body]
pub struct ExStdRng(rand::rngs::StdRng);

/// Relies on `Rng::gen_range(0, hi)` (rand 0.7): a value in `[0, hi)`; it panics
/// when the range is empty, hence `hi > 0`.
#[verifier::external_body]
pub(crate) fn below(rng: &mut rand::rngs::StdRng, hi: u32) -> (r: u32)
    requires
        hi > 0,
    ensures
        r < hi,
{
    rng.gen_range(0, hi)
}

/// Relies on `Rng::gen_ratio(n, d)` (rand 0.7): `false` whenever `n == 0`,
/// `true` whenever `n == d`; it panics when `d == 0` or `n > d`.
#[verifier::external_body]
pub(crate) fn ratio(rng: &mut rand::rngs::StdRng, n: u32, d: u32) -> (r: bool)
    requires
        0 < d,
        n <= d,
    ensures
        n == 0 ==> !r,
        n == d ==> r,
{
    rng.gen_ratio(n, d)
}

/// Relies on `Rng::gen::<u32>()` (rand 0.7): any `u32`.
#[verifier::external_body]
pub(crate) fn any_u32(rng: &mut rand::rngs::StdRng) -> (r: u32) {
    rng.gen::<u32>()
}

/// Relies on `Rng::gen_range(0, hi)` (rand 0.7) on bytes: a value in
/// `[0, hi)`; it panics when the range is empty, hence `hi > 0`.
#[verifier::external_body]
pub(crate) fn below_u8(rng: &mut rand::rngs::StdRng, hi: u8) -> (r: u8)
    requires
        hi > 0,
    ensures
        r < hi,
{
    rng.gen_range(0, hi)
}

/// Relies on `Rng::gen::<bool>()` (rand 0.7): any boolean.
#[verifier::external_body]
pub(crate) fn any_bool(rng: &mut rand::rngs::StdRng) -> (r: bool) {
    rng.gen::<bool>()
}

/// Relies on `Rng::gen::<u8>()` (rand 0.7): any byte.
#[verifier::external_body]
pub(crate) fn any_u8(rng: &mut rand::rngs::StdRng) -> (r: u8) {
    rng.gen::<u8>()
}

/// Relies on `Rng::gen::<i32>()` (rand 0.7): any `i32`.
#[verifier::external_body]
pub(crate) fn any_i32(rng: &mut rand::rngs::StdRng) -> (r: i32) {
    rng.gen::<i32>()
}

} // verus!
