//! The failures an option-validating call can report.
//!
//! Every validating call detects its failure synchronously and returns it;
//! a rejected call never leaves a partial mutation behind.

use crate::fraction::BoundedFractionError;
use vstd::prelude::*;

verus! {

/// Why a text-endpoint option call was rejected.
#[derive(Debug, Clone, PartialEq)]
pub enum TextOptionsError {
    /// An unrecognized token for a closed vocabulary, or an out-of-range
    /// numeric value.
    BadOption(BadOptionError),
    /// Contradictory requests inside one call.
    LogicalFallacy(LogicalFallacyError),
    /// A configuration that would resolve to a degenerate, unusable state.
    UnreasonableOptions(UnreasonableOptionsError),
}

/// A degenerate, operationally meaningless configuration.
#[derive(Debug, Clone, Copy, PartialEq, Eq, Structural)]
pub enum UnreasonableOptionsError {
    /// Every alphabet would be disallowed: no output could be produced.
    NoAlphabetsAllowed,
}

/// Contradictory requests inside one call.
#[derive(Debug, Clone, PartialEq)]
pub enum LogicalFallacyError {
    /// The same alphabet was requested both allowed and disallowed.
    AlphabetsAllowedLogicalFallacy { false_alphabet: String, true_alphabet: String },
}

/// An option value the closed vocabularies do not contain.
#[derive(Debug, Clone, PartialEq)]
pub enum BadOptionError {
    /// Not a text output format.
    TextFormat(String),
    /// Not a data-output option token.
    DataOption(String),
    /// Not an alphabet token.
    AlphabetAllowed(String),
    /// A confidence threshold outside [0, 1].
    ConfidenceThreshold(BoundedFractionError),
}

} // verus!
