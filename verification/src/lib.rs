//! Generation of fixed-length random passwords drawn from a configurable
//! character universe, sampled uniformly from a cryptographically secure
//! random source.

pub mod errors;
pub mod generate;
pub mod rng;
pub mod universe;
pub mod validate;

pub use errors::PasswordError;
pub use generate::{fill_password, generate_password};
pub use universe::build_universe;
pub use validate::{Args, validate_args, validate_length};
