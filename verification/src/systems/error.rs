//! Errors of the systems measurements.
use vstd::prelude::*;

verus! {

/// Name of the operation that produced an error.
#[derive(Debug, Clone, Copy, PartialEq, Eq)]
pub struct OperationName(pub &'static str);

impl OperationName {
    /// The operation name as text.
    pub fn as_str(&self) -> (s: &'static str)
        ensures
            s == self.0,
    {
        self.0
    }
}

/// Short learner-facing explanation attached to an error.
#[derive(Debug, Clone, Copy, PartialEq, Eq)]
pub struct ErrorDetails(pub &'static str);

impl ErrorDetails {
    /// The explanation as text.
    pub fn as_str(&self) -> (s: &'static str)
        ensures
            s == self.0,
    {
        self.0
    }
}

/// Failures of the integer resource arithmetic.
#[derive(Debug, Clone, PartialEq, Eq)]
pub enum SystemsError {
    /// A count, size or duration that must be positive was zero, or a label was blank.
    EmptyInput {
        /// The operation that failed.
        operation: OperationName,
        /// What was missing.
        details: ErrorDetails,
    },
    /// An intermediate product or sum did not fit its integer type.
    Overflow {
        /// The operation that failed.
        operation: OperationName,
        /// Which quantity overflowed.
        details: ErrorDetails,
    },
}

impl SystemsError {
    pub(crate) fn empty_input(operation: &'static str, details: &'static str) -> (e: Self)
        ensures
            e == (SystemsError::EmptyInput {
                operation: OperationName(operation),
                details: ErrorDetails(details),
            }),
    {
        SystemsError::EmptyInput { operation: OperationName(operation), details: ErrorDetails(details) }
    }

    pub(crate) fn overflow(operation: &'static str, details: &'static str) -> (e: Self)
        ensures
            e == (SystemsError::Overflow {
                operation: OperationName(operation),
                details: ErrorDetails(details),
            }),
    {
        SystemsError::Overflow { operation: OperationName(operation), details: ErrorDetails(details) }
    }
}

} // verus!
