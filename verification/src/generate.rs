//! The secure sampler: one generation call seeds its own generator from OS
//! entropy, assembles the character universe for the configuration, and
//! draws one uniformly distributed index per output position.

use vstd::prelude::*;

use rand_chacha::ChaCha20Rng;

use crate::errors::PasswordError;
use crate::rng::{chars_to_string, get_secure_rng, sample_index, uniform_below, uniform_upper};
use crate::universe::{
    alphanum_chars, build_universe, is_alphanum_char, lemma_universe_no_symbols, universe_spec,
};

verus! {

/// Draws a whole password from an already-seeded generator: one uniformly
/// distributed index into the universe per output position. Once a generator
/// is at hand, generation always succeeds: the result has exactly `length`
/// characters, each offered by the universe the flags select, and — with
/// symbols excluded — each alphanumeric, or the space character when spaces
/// are allowed.
pub fn fill_password(
    rng: &mut ChaCha20Rng,
    length: u16,
    include_symbols: bool,
    include_extended: bool,
    allow_space: bool,
) -> (p: String)
    ensures
        p@.len() == length as nat,
        forall|i: int|
            0 <= i < p@.len() ==> universe_spec(
                include_symbols,
                include_extended,
                allow_space,
            ).contains(#[trigger] p@[i]),
        !include_symbols ==> forall|i: int|
            0 <= i < p@.len() ==> is_alphanum_char(#[trigger] p@[i]) || (allow_space && p@[i]
                == ' '),
{
    let chars = match build_universe(include_symbols, include_extended, allow_space) {
        Ok(u) => u,
        Err(_) => {
            // Unreachable: the contract of build_universe rules the error out.
            Vec::new()
        },
    };
    // The base set is always present, so the universe is never empty.
    assert(chars@.len() >= alphanum_chars().len());
    let dist = uniform_below(chars.len());
    let mut password: Vec<char> = Vec::new();
    let ghost universe = universe_spec(include_symbols, include_extended, allow_space);
    for k in 0..length
        invariant
            password@.len() == k as nat,
            uniform_upper(dist) == chars@.len(),
            chars@ == universe,
            forall|i: int| 0 <= i < password@.len() ==> universe.contains(#[trigger] password@[i]),
    {
        let index = sample_index(&dist, rng);
        password.push(chars[index]);
    }
    let result = chars_to_string(&password);
    proof {
        if !include_symbols {
            assert forall|i: int| 0 <= i < result@.len() implies is_alphanum_char(
                #[trigger] result@[i],
            ) || (allow_space && result@[i] == ' ') by {
                lemma_universe_no_symbols(include_extended, allow_space, result@[i]);
            }
        }
    }
    result
}

/// Generates a password of exactly `length` characters, each drawn
/// independently and uniformly from the universe the flags select. The
/// extended set is only ever added on top of the base symbol set. The one
/// failure is the OS entropy source being unavailable at seeding time;
/// generation never falls back to a weaker source, and succeeds whenever
/// seeding does.
pub fn generate_password(
    length: u16,
    include_symbols: bool,
    include_extended: bool,
    allow_space: bool,
) -> (r: Result<String, PasswordError>)
    ensures
        r matches Ok(p) ==> {
            &&& p@.len() == length as nat
            &&& forall|i: int|
                0 <= i < p@.len() ==> universe_spec(
                    include_symbols,
                    include_extended,
                    allow_space,
                ).contains(#[trigger] p@[i])
        },
        r matches Ok(p) ==> !include_symbols ==> forall|i: int|
            0 <= i < p@.len() ==> is_alphanum_char(#[trigger] p@[i]) || (allow_space && p@[i]
                == ' '),
        r matches Err(e) ==> e == PasswordError::RngInitializationError,
{
    let mut rng = match get_secure_rng() {
        Ok(rng) => rng,
        Err(e) => {
            return Err(e);
        },
    };
    Ok(fill_password(&mut rng, length, include_symbols, include_extended, allow_space))
}

} // verus!
