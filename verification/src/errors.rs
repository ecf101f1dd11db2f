//! Errors reported while a keyboard is being configured.

use vstd::prelude::*;

verus! {

/// Why loading a keyboard configuration failed.
///
/// Every variant carries a human-readable description; configuration
/// errors are fatal at startup and the listening loop never starts.
#[derive(Debug, PartialEq, Eq)]
pub enum KeyboardError {
    /// The configuration text could not be scanned as a structured document.
    ScanError(String),
    /// The document structure misses or mistypes a required field.
    Config(String),
    /// A key-code pattern did not compile as a regular expression.
    Regex(String),
}

} // verus!
