use vstd::prelude::*;
use vstd::std_specs::convert::IntoSpec;

verus! {

/// Closed set of reasons why an input is rejected.
#[derive(Debug, Clone, PartialEq, Eq)]
pub enum ValidationError {
    /// The decoded input holds forbidden characters.
    DangerousCharacters {
        /// The offending characters, each quoted, separated by `", "`.
        symbols: String,
        /// How many offending characters were found, repeats included.
        count: usize,
    },
    /// The cleaned input does not have the shape the validator expects.
    InvalidFormat {
        /// Name of the type the validator produces.
        target_type: &'static str,
    },
    /// The cleaned input matches a blocked pattern.
    BlockedPattern {
        /// A stable description of the block; the pattern itself is not disclosed.
        pattern: String,
    },
    /// A validator-defined failure.
    Custom {
        /// Free-text explanation.
        message: String,
    },
}

impl ValidationError {
    /// Builds a `Custom` error from anything that converts into a `String`.
    pub fn custom<S: Into<String>>(message: S) -> (r: Self)
        ensures
            r is Custom,
            S::obeys_into_spec() ==> r == (ValidationError::Custom { message: message.into_spec() }),
    {
        ValidationError::Custom { message: message.into() }
    }
}

} // verus!
