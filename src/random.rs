use vstd::prelude::*;

verus! {

/// fastrand's seedable generator, carried through the simulation as an opaque
/// value.
#[verifier::external_type_specification]
#[verifier::external_body]
pub struct ExRng(fastrand::Rng);

/// Relies on fastrand::Rng::u32: on the range `0..bound` with `bound > 0` it
/// returns a value below `bound` (it panics on an empty range, which `requires`
/// leaves out).
#[verifier::external_body]
pub(crate) fn draw_below(rng: &mut fastrand::Rng, bound: u32) -> (r: u32)
    requires
        bound > 0,
    ensures
        r < bound,
{
    rng.u32(0..bound)
}

} // verus!
