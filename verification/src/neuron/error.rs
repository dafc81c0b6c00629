//! Errors of the neuron lessons.
use vstd::prelude::*;

use crate::text::{decimal_chars, decimal_string};

verus! {

/// Name of the operation that produced an error.
#[derive(Debug, Clone, Copy, PartialEq, Eq)]
pub struct OperationName(pub &'static str);

impl OperationName {
    /// The operation name as text.
    pub fn as_str(&self) -> (s: &'static str)
        ensures
            s == self.0,
    {
        self.0
    }
}

/// Short learner-facing explanation attached to an error.
#[derive(Debug, Clone, Copy, PartialEq, Eq)]
pub struct ErrorDetails(pub &'static str);

impl ErrorDetails {
    /// The explanation as text.
    pub fn as_str(&self) -> (s: &'static str)
        ensures
            s == self.0,
    {
        self.0
    }
}

/// Name of a scalar role being validated.
#[derive(Debug, Clone, Copy, PartialEq, Eq)]
pub struct ValueRole(pub &'static str);

impl ValueRole {
    /// The role as text.
    pub fn as_str(&self) -> (s: &'static str)
        ensures
            s == self.0,
    {
        self.0
    }
}

/// Learner-facing label for one side of a length comparison.
#[derive(Debug, Clone, Copy, PartialEq, Eq)]
pub struct LengthLabel(pub &'static str);

impl LengthLabel {
    /// The label as text.
    pub fn as_str(&self) -> (s: &'static str)
        ensures
            s == self.0,
    {
        self.0
    }
}

/// Length observed while validating an aligned vector operation.
#[derive(Debug, Clone, Copy, PartialEq, Eq, PartialOrd, Ord)]
pub struct VectorLength(pub usize);

impl VectorLength {
    /// The length as a raw integer.
    pub fn as_usize(&self) -> (v: usize)
        ensures
            v == self.0,
    {
        self.0
    }

    /// Renders the length in decimal.
    pub fn to_string(&self) -> (s: String)
        ensures
            s@ == decimal_chars(self.0 as nat),
    {
        decimal_string(self.0 as u128)
    }
}

/// Failures of the integer-level checks of a neuron operation.
#[derive(Debug, Clone, PartialEq, Eq)]
pub enum NeuronError {
    /// A collection that must contain at least one value was empty.
    EmptyInput {
        /// The operation that failed.
        operation: OperationName,
        /// What was missing.
        details: ErrorDetails,
    },
    /// Two learner-visible vectors had incompatible lengths.
    DimensionMismatch {
        /// The operation that failed.
        operation: OperationName,
        /// Label of the left value.
        left_label: LengthLabel,
        /// Length of the left value.
        left_len: VectorLength,
        /// Label of the right value.
        right_label: LengthLabel,
        /// Length of the right value.
        right_len: VectorLength,
        /// Guidance for fixing the mismatch.
        hint: ErrorDetails,
    },
    /// A computed value left its valid range.
    NumericalIssue {
        /// The operation that failed.
        operation: OperationName,
        /// What went wrong.
        details: ErrorDetails,
    },
}

impl NeuronError {
    /// An empty input.
    pub fn empty_input(operation: &'static str, details: &'static str) -> (e: Self)
        ensures
            e == (NeuronError::EmptyInput { operation: OperationName(operation), details: ErrorDetails(details) }),
    {
        NeuronError::EmptyInput { operation: OperationName(operation), details: ErrorDetails(details) }
    }

    /// Two lengths that should agree and do not.
    pub fn dimension_mismatch(
        operation: &'static str,
        left_label: &'static str,
        left_len: usize,
        right_label: &'static str,
        right_len: usize,
        hint: &'static str,
    ) -> (e: Self)
        ensures
            e == (NeuronError::DimensionMismatch {
                operation: OperationName(operation),
                left_label: LengthLabel(left_label),
                left_len: VectorLength(left_len),
                right_label: LengthLabel(right_label),
                right_len: VectorLength(right_len),
                hint: ErrorDetails(hint),
            }),
    {
        NeuronError::DimensionMismatch {
            operation: OperationName(operation),
            left_label: LengthLabel(left_label),
            left_len: VectorLength(left_len),
            right_label: LengthLabel(right_label),
            right_len: VectorLength(right_len),
            hint: ErrorDetails(hint),
        }
    }

    /// A computed value outside its valid range.
    pub fn numerical_issue(operation: &'static str, details: &'static str) -> (e: Self)
        ensures
            e == (NeuronError::NumericalIssue { operation: OperationName(operation), details: ErrorDetails(details) }),
    {
        NeuronError::NumericalIssue { operation: OperationName(operation), details: ErrorDetails(details) }
    }
}

} // verus!
