//! The errors a password generation request can end in. All of them are
//! terminal for the request; none is retried.

use vstd::prelude::*;

verus! {

/// Why a generation request failed.
#[derive(Clone, Copy, Debug, PartialEq, Eq, Structural)]
pub enum PasswordError {
    /// Extended symbols were requested while the base symbol set was excluded.
    InvalidSymbolCombination,
    /// The assembled character universe holds no characters.
    EmptyCharacterSet,
    /// The OS entropy source could not seed the secure generator.
    RngInitializationError,
}

impl PasswordError {
    /// The human-readable description of this error.
    pub open spec fn message_spec(self) -> Seq<char> {
        match self {
            PasswordError::InvalidSymbolCombination => {
                "Cannot use extended symbols (-e) when symbols are excluded (-n)"@
            },
            PasswordError::EmptyCharacterSet => {
                "No character sets available for password generation"@
            },
            PasswordError::RngInitializationError => {
                "Failed to initialize secure random number generator"@
            },
        }
    }

    /// A human-readable description, one fixed line per variant.
    pub fn message(&self) -> (r: &'static str)
        ensures
            r@ == self.message_spec(),
    {
        match self {
            PasswordError::InvalidSymbolCombination => {
                "Cannot use extended symbols (-e) when symbols are excluded (-n)"
            },
            PasswordError::EmptyCharacterSet => {
                "No character sets available for password generation"
            },
            PasswordError::RngInitializationError => {
                "Failed to initialize secure random number generator"
            },
        }
    }
}

} // verus!
