//! Sanitization and validation of untrusted text.
//!
//! Raw input is percent-decoded, scanned for forbidden characters, checked
//! against blocked patterns, and only then handed to a caller-supplied
//! [`Validator`] that turns it into a typed value.

pub mod config;
pub mod decode;
pub mod error;
pub mod pattern;
pub mod validation;

pub use config::{SecurityConfig, SecurityConfigBuilder};
pub use error::ValidationError;
pub use validation::{sanitize_and_validate, sanitize_input, SanitizedInput, Validator};
