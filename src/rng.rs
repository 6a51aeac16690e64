use oorandom::Rand32;
use vstd::prelude::*;

verus! {

/// The pseudorandom generator that draws spawn batches and score increments.
#[verifier::external_type_specification]
#[verifier::external_body]
pub struct ExRand32(Rand32);

/// Relies on `oorandom::Rand32::new`: a generator built from a seed; nothing
/// is promised of the numbers it will produce.
pub assume_specification[ Rand32::new ](seed: u64) -> Rand32;

/// Relies on `oorandom::Rand32::rand_range`: for a non-empty range it returns
/// a value of the range (`(m >> 32) + start` with `m < 2^32 * (end - start)`).
pub assume_specification[ Rand32::rand_range ](rng: &mut Rand32, range: core::ops::Range<u32>) -> (r: u32)
    requires
        range.start < range.end,
    ensures
        range.start <= r < range.end,
;

} // verus!
