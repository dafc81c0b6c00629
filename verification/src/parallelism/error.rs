//! Errors of the parallel layouts and sharding plans.
use vstd::prelude::*;

verus! {

/// Name of the operation that produced an error.
#[derive(Debug, Clone, Copy, PartialEq, Eq)]
pub struct OperationName(pub &'static str);

impl OperationName {
    /// The operation name as text.
    pub fn as_str(&self) -> (s: &'static str)
        ensures
            s == self.0,
    {
        self.0
    }
}

/// Short learner-facing explanation attached to an error.
#[derive(Debug, Clone, Copy, PartialEq, Eq)]
pub struct ErrorDetails(pub &'static str);

impl ErrorDetails {
    /// The explanation as text.
    pub fn as_str(&self) -> (s: &'static str)
        ensures
            s == self.0,
    {
        self.0
    }
}

/// Name of the value whose range was violated.
#[derive(Debug, Clone, Copy, PartialEq, Eq)]
pub struct ValueRole(pub &'static str);

impl ValueRole {
    /// The role as text.
    pub fn as_str(&self) -> (s: &'static str)
        ensures
            s == self.0,
    {
        self.0
    }
}

/// Human-readable range that a value had to respect.
#[derive(Debug, Clone, Copy, PartialEq, Eq)]
pub struct ValueRange(pub &'static str);

impl ValueRange {
    /// The range as text.
    pub fn as_str(&self) -> (s: &'static str)
        ensures
            s == self.0,
    {
        self.0
    }
}

/// Failures of the parallel layouts, collectives and public-report boundary.
#[derive(Debug, Clone, PartialEq, Eq)]
pub enum ParallelismError {
    /// A count that must be positive was zero.
    EmptyInput {
        /// The operation that failed.
        operation: OperationName,
        /// What was missing.
        details: ErrorDetails,
    },
    /// A checked sum or product overflowed.
    Overflow {
        /// The operation that failed.
        operation: OperationName,
        /// Which quantity overflowed.
        details: ErrorDetails,
    },
    /// A value did not divide evenly across the ranks.
    UnevenSplit {
        /// The operation that failed.
        operation: OperationName,
        /// Why the split was rejected.
        details: ErrorDetails,
    },
    /// A count fell outside its allowed range.
    CountOutOfRange {
        /// The value being checked.
        role: ValueRole,
        /// The allowed range.
        range: ValueRange,
        /// The rejected count.
        value: usize,
    },
    /// A restricted or private trace tried to enter a public report.
    InvalidPublicReport {
        /// The operation that failed.
        operation: OperationName,
        /// Why the release was refused.
        details: ErrorDetails,
    },
}

impl ParallelismError {
    pub(crate) fn empty_input(operation: &'static str, details: &'static str) -> (e: Self)
        ensures
            e == (ParallelismError::EmptyInput {
                operation: OperationName(operation),
                details: ErrorDetails(details),
            }),
    {
        ParallelismError::EmptyInput { operation: OperationName(operation), details: ErrorDetails(details) }
    }

    pub(crate) fn overflow(operation: &'static str, details: &'static str) -> (e: Self)
        ensures
            e == (ParallelismError::Overflow {
                operation: OperationName(operation),
                details: ErrorDetails(details),
            }),
    {
        ParallelismError::Overflow { operation: OperationName(operation), details: ErrorDetails(details) }
    }

    pub(crate) fn uneven_split(operation: &'static str, details: &'static str) -> (e: Self)
        ensures
            e == (ParallelismError::UnevenSplit {
                operation: OperationName(operation),
                details: ErrorDetails(details),
            }),
    {
        ParallelismError::UnevenSplit { operation: OperationName(operation), details: ErrorDetails(details) }
    }

    pub(crate) fn count_out_of_range(role: &'static str, range: &'static str, value: usize) -> (e: Self)
        ensures
            e == (ParallelismError::CountOutOfRange {
                role: ValueRole(role),
                range: ValueRange(range),
                value,
            }),
    {
        ParallelismError::CountOutOfRange { role: ValueRole(role), range: ValueRange(range), value }
    }

    pub(crate) fn invalid_public_report(operation: &'static str, details: &'static str) -> (e: Self)
        ensures
            e == (ParallelismError::InvalidPublicReport {
                operation: OperationName(operation),
                details: ErrorDetails(details),
            }),
    {
        ParallelismError::InvalidPublicReport {
            operation: OperationName(operation),
            details: ErrorDetails(details),
        }
    }
}

} // verus!
