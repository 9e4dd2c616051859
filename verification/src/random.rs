//! The random source: `rand`'s standard generator behind contracts.
//!
//! Nothing in this file is proved. Each function makes one call into `rand`
//! and states of its result only what holds of every outcome.

use crate::synth::params::WaveType;
use rand::rngs::StdRng;
use rand::seq::IndexedRandom;
use rand::Rng;
use rand::SeedableRng;
use vstd::prelude::*;

verus! {

/// `rand::rngs::StdRng`, carried through as an opaque value.
#[verifier::external_type_specification]
#[verifier::external_body]
pub struct ExStdRng(StdRng);

/// `SeedableRng::seed_from_u64` on `StdRng`: a generator whose output is
/// fixed by `seed`. Nothing is claimed of the generator.
#[verifier::external_body]
pub(crate) fn seeded(seed: u64) -> StdRng {
    StdRng::seed_from_u64(seed)
}

/// `Rng::random::<bool>`: a fair coin. Either outcome may come.
#[verifier::external_body]
pub(crate) fn flip(rng: &mut StdRng) -> bool {
    rng.random::<bool>()
}

/// `Rng::random_ratio`: true with chance `numerator / denominator`. The
/// call panics on a zero denominator and on a numerator above it, so both
/// are excluded; the ends of the scale are certain.
#[verifier::external_body]
pub(crate) fn ratio(rng: &mut StdRng, numerator: u32, denominator: u32) -> (hit: bool)
    requires
        denominator != 0,
        numerator <= denominator,
    ensures
        numerator == denominator ==> hit,
        numerator == 0 ==> !hit,
{
    rng.random_ratio(numerator, denominator)
}

/// `Rng::random_range` on `low..high`: a value of the half-open range. The
/// call panics on an empty range, which is excluded.
#[verifier::external_body]
pub(crate) fn uniform(rng: &mut StdRng, low: i32, high: i32) -> (value: i32)
    requires
        low < high,
    ensures
        low <= value < high,
{
    rng.random_range(low..high)
}

/// `IndexedRandom::choose` on a slice of waveforms: one of its elements, or
/// `None` when the slice is empty.
#[verifier::external_body]
pub(crate) fn pick_wave(rng: &mut StdRng, waves: &[WaveType]) -> (wave: Option<WaveType>)
    ensures
        wave is None <==> waves@.len() == 0,
        wave matches Some(w) ==> waves@.contains(w),
{
    waves.choose(rng).copied()
}

/// The weights of `waves` added up.
pub open spec fn total_weight(waves: Seq<(WaveType, u32)>) -> int
    decreases waves.len(),
{
    if waves.len() == 0 {
        0
    } else {
        total_weight(waves.drop_last()) + waves.last().1
    }
}

/// `IndexedRandom::choose_weighted` on a slice of waveforms with their
/// weights: an element of positive weight. The call fails, and `None`
/// comes back, exactly where the slice is empty, every weight is 0, or the
/// weights add up to more than a `u32` holds.
#[verifier::external_body]
pub(crate) fn pick_weighted(rng: &mut StdRng, waves: &[(WaveType, u32)]) -> (wave: Option<
    WaveType,
>)
    ensures
        wave is Some <==> 0 < total_weight(waves@) <= u32::MAX,
        wave matches Some(w) ==> exists|i: int|
            0 <= i < waves@.len() && (#[trigger] waves@[i]).0 == w && waves@[i].1 > 0,
{
    waves.choose_weighted(rng, |item| item.1).ok().map(|item| item.0)
}

} // verus!
