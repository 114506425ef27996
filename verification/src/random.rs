use rand::prelude::Distribution;
use vstd::prelude::*;

verus! {

/// A number below `len`, drawn by `rand`'s `Uniform::from(0..len)` from
/// `thread_rng()`. The distribution samples from the half-open range; it
/// cannot be made for an empty one, so `len` must not be zero.
#[verifier::external_body]
pub(crate) fn random_index(len: usize) -> (r: usize)
    requires
        len > 0,
    ensures
        r < len,
{
    rand::distributions::Uniform::from(0..len).sample(&mut rand::thread_rng())
}

} // verus!
