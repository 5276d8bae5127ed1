//! The secure random source, behind trusted declarations. The generator is a
//! ChaCha20 stream seeded from the operating system's entropy source; indices
//! into the character universe are drawn through rand's uniform-range
//! distribution, which rejects rather than folds the raw stream, so every
//! index in range is equally likely. Nothing beyond the range of each draw
//! can be promised of a random value, and nothing more is.

use vstd::prelude::*;

use rand::distributions::{Distribution, Uniform};
use rand_chacha::ChaCha20Rng;
use rand_core::{OsRng, SeedableRng};

use crate::errors::PasswordError;

verus! {

#[verifier::external_type_specification]
#[verifier::external_body]
pub struct ExChaCha20Rng(ChaCha20Rng);

/// A uniform distribution over a non-empty half-open index range, held
/// opaquely: rand's `Uniform` cannot be declared to the verifier because its
/// generic parameter is bound by a trait of that crate.
#[verifier::external_body]
pub struct IndexDistribution {
    dist: Uniform<usize>,
}

/// The number of values a uniform index distribution ranges over: every
/// sample drawn from `d` lies in `[0, uniform_upper(d))`.
pub uninterp spec fn uniform_upper(d: IndexDistribution) -> nat;

/// Relies on rand_chacha's ChaCha20Rng::from_rng seeded from rand_core's
/// OsRng: either a generator freshly seeded from OS entropy, or the entropy
/// source's error — never a fallback to a weaker source. The only error the
/// conversion produces is the seeding failure.
#[verifier::external_body]
pub(crate) fn get_secure_rng() -> (r: Result<ChaCha20Rng, PasswordError>)
    ensures
        r matches Err(e) ==> e == PasswordError::RngInitializationError,
{
    ChaCha20Rng::from_rng(&mut OsRng).map_err(|_| PasswordError::RngInitializationError)
}

/// Relies on rand's Uniform::from on a half-open range: a distribution that
/// samples uniformly from `[0, n)`. It panics on an empty range, so the
/// range is required to be non-empty.
#[verifier::external_body]
pub(crate) fn uniform_below(n: usize) -> (d: IndexDistribution)
    requires
        n > 0,
    ensures
        uniform_upper(d) == n,
{
    IndexDistribution { dist: Uniform::from(0..n) }
}

/// Relies on rand's Distribution::sample for Uniform: each draw lies in the
/// range the distribution was built over, whatever the generator state.
#[verifier::external_body]
pub(crate) fn sample_index(d: &IndexDistribution, rng: &mut ChaCha20Rng) -> (i: usize)
    ensures
        i < uniform_upper(*d),
{
    d.dist.sample(rng)
}

/// Relies on std's FromIterator for String: collecting characters yields the
/// string of exactly those characters in order.
#[verifier::external_body]
pub(crate) fn chars_to_string(v: &Vec<char>) -> (s: String)
    ensures
        s@ == v@,
{
    v.iter().collect()
}

} // verus!
