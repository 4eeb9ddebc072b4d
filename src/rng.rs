//! The random source: rand's small, fast generator. Seeding it is the
//! caller's choice; the library only draws from it.
use rand::Rng;
use vstd::prelude::*;

verus! {

/// rand's `SmallRng`, carried through the library as an opaque value.
#[verifier::external_type_specification]
#[verifier::external_body]
pub struct ExSmallRng(rand::rngs::SmallRng);

/// Relies on `rand::Rng::gen_range` over `0..upper`: the value drawn lies in
/// `[0, upper)`. The call panics on an empty range, which `requires` excludes.
#[verifier::external_body]
pub(crate) fn draw_below(rng: &mut rand::rngs::SmallRng, upper: u32) -> (r: u32)
    requires
        0 < upper,
    ensures
        r < upper,
{
    rng.gen_range(0..upper)
}

} // verus!
