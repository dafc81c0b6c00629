//! Shape-aware errors of the Transformer building blocks.
use vstd::prelude::*;

use crate::text::{decimal_chars, decimal_string};

verus! {

/// Name of the operation that produced an error.
#[derive(Debug, Clone, Copy, PartialEq, Eq)]
pub struct OperationName(pub &'static str);

impl OperationName {
    /// Wraps the text.
    pub fn new(value: &'static str) -> (l: Self)
        ensures
            l.0 == value,
    {
        OperationName(value)
    }

    /// The wrapped text.
    pub fn as_str(&self) -> (s: &'static str)
        ensures
            s == self.0,
    {
        self.0
    }
}

/// Short learner-facing explanation attached to an error.
#[derive(Debug, Clone, Copy, PartialEq, Eq)]
pub struct ErrorDetails(pub &'static str);

impl ErrorDetails {
    /// Wraps the text.
    pub fn new(value: &'static str) -> (l: Self)
        ensures
            l.0 == value,
    {
        ErrorDetails(value)
    }

    /// The wrapped text.
    pub fn as_str(&self) -> (s: &'static str)
        ensures
            s == self.0,
    {
        self.0
    }
}

/// Name of a scalar role being validated.
#[derive(Debug, Clone, Copy, PartialEq, Eq)]
pub struct ValueRole(pub &'static str);

impl ValueRole {
    /// Wraps the text.
    pub fn new(value: &'static str) -> (l: Self)
        ensures
            l.0 == value,
    {
        ValueRole(value)
    }

    /// The wrapped text.
    pub fn as_str(&self) -> (s: &'static str)
        ensures
            s == self.0,
    {
        self.0
    }
}

/// Human-readable range expected for a scalar role.
#[derive(Debug, Clone, Copy, PartialEq, Eq)]
pub struct ValueRange(pub &'static str);

impl ValueRange {
    /// Wraps the text.
    pub fn new(value: &'static str) -> (l: Self)
        ensures
            l.0 == value,
    {
        ValueRange(value)
    }

    /// The wrapped text.
    pub fn as_str(&self) -> (s: &'static str)
        ensures
            s == self.0,
    {
        self.0
    }
}

/// Learner-facing label for one side of a shape comparison.
#[derive(Debug, Clone, Copy, PartialEq, Eq)]
pub struct ShapeLabel(pub &'static str);

impl ShapeLabel {
    /// Wraps the text.
    pub fn new(value: &'static str) -> (l: Self)
        ensures
            l.0 == value,
    {
        ShapeLabel(value)
    }

    /// The wrapped text.
    pub fn as_str(&self) -> (s: &'static str)
        ensures
            s == self.0,
    {
        self.0
    }
}

/// Shape observed while validating a Transformer operation.
#[derive(Debug, PartialEq, Eq)]
pub struct ShapeSignature(pub(crate) Vec<usize>);

impl Clone for ShapeSignature {
    fn clone(&self) -> (c: Self)
        ensures
            c@ == self@,
    {
        ShapeSignature(self.0.clone())
    }
}

impl View for ShapeSignature {
    type V = Seq<usize>;

    closed spec fn view(&self) -> Seq<usize> {
        self.0@
    }
}

impl ShapeSignature {
    /// Wraps the dimensions.
    pub fn new(value: Vec<usize>) -> (s: Self)
        ensures
            s@ == value@,
    {
        ShapeSignature(value)
    }

    /// The dimensions, outermost first.
    pub fn dims(&self) -> (d: &Vec<usize>)
        ensures
            d@ == self@,
    {
        &self.0
    }
}

/// Matrix row count in a diagnostic.
#[derive(Debug, Clone, Copy, PartialEq, Eq, PartialOrd, Ord)]
pub struct MatrixRowCount(pub usize);

impl MatrixRowCount {
    /// Wraps the count.
    pub fn new(value: usize) -> (c: Self)
        ensures
            c.0 == value,
    {
        MatrixRowCount(value)
    }

    /// The wrapped count.
    pub fn as_usize(&self) -> (v: usize)
        ensures
            v == self.0,
    {
        self.0
    }

    /// Renders the count in decimal.
    pub fn to_string(&self) -> (s: String)
        ensures
            s@ == decimal_chars(self.0 as nat),
    {
        decimal_string(self.0 as u128)
    }
}

/// Matrix column count in a diagnostic.
#[derive(Debug, Clone, Copy, PartialEq, Eq, PartialOrd, Ord)]
pub struct MatrixColumnCount(pub usize);

impl MatrixColumnCount {
    /// Wraps the count.
    pub fn new(value: usize) -> (c: Self)
        ensures
            c.0 == value,
    {
        MatrixColumnCount(value)
    }

    /// The wrapped count.
    pub fn as_usize(&self) -> (v: usize)
        ensures
            v == self.0,
    {
        self.0
    }

    /// Renders the count in decimal.
    pub fn to_string(&self) -> (s: String)
        ensures
            s@ == decimal_chars(self.0 as nat),
    {
        decimal_string(self.0 as u128)
    }
}

/// Scalar data length observed while validating matrix data.
#[derive(Debug, Clone, Copy, PartialEq, Eq, PartialOrd, Ord)]
pub struct MatrixStorageLength(pub usize);

impl MatrixStorageLength {
    /// Wraps the count.
    pub fn new(value: usize) -> (c: Self)
        ensures
            c.0 == value,
    {
        MatrixStorageLength(value)
    }

    /// The wrapped count.
    pub fn as_usize(&self) -> (v: usize)
        ensures
            v == self.0,
    {
        self.0
    }

    /// Renders the count in decimal.
    pub fn to_string(&self) -> (s: String)
        ensures
            s@ == decimal_chars(self.0 as nat),
    {
        decimal_string(self.0 as u128)
    }
}

/// Requested index in a vector, token sequence, or matrix.
#[derive(Debug, Clone, Copy, PartialEq, Eq, PartialOrd, Ord)]
pub struct RequestedIndex(pub usize);

impl RequestedIndex {
    /// Wraps the count.
    pub fn new(value: usize) -> (c: Self)
        ensures
            c.0 == value,
    {
        RequestedIndex(value)
    }

    /// The wrapped count.
    pub fn as_usize(&self) -> (v: usize)
        ensures
            v == self.0,
    {
        self.0
    }

    /// Renders the count in decimal.
    pub fn to_string(&self) -> (s: String)
        ensures
            s@ == decimal_chars(self.0 as nat),
    {
        decimal_string(self.0 as u128)
    }
}

/// Available length or dimension in an index or dimension diagnostic.
#[derive(Debug, Clone, Copy, PartialEq, Eq, PartialOrd, Ord)]
pub struct AvailableLength(pub usize);

impl AvailableLength {
    /// Wraps the count.
    pub fn new(value: usize) -> (c: Self)
        ensures
            c.0 == value,
    {
        AvailableLength(value)
    }

    /// The wrapped count.
    pub fn as_usize(&self) -> (v: usize)
        ensures
            v == self.0,
    {
        self.0
    }

    /// Renders the count in decimal.
    pub fn to_string(&self) -> (s: String)
        ensures
            s@ == decimal_chars(self.0 as nat),
    {
        decimal_string(self.0 as u128)
    }
}

/// Shape-aware failures of the Transformer building blocks.
#[derive(Debug, Clone, PartialEq, Eq)]
pub enum ModelError {
    /// Two operands had incompatible shapes for an operation.
    DimensionMismatch {
        /// The operation that failed.
        operation: OperationName,
        /// Label of the left operand.
        left_label: ShapeLabel,
        /// Shape of the left operand.
        left_shape: ShapeSignature,
        /// Label of the right operand.
        right_label: ShapeLabel,
        /// Shape of the right operand.
        right_shape: ShapeSignature,
        /// Guidance for fixing the mismatch.
        hint: ErrorDetails,
    },
    /// An operation requiring data received an empty input.
    EmptyInput {
        /// The operation that failed.
        operation: OperationName,
        /// What was missing.
        details: ErrorDetails,
    },
    /// A matrix was built from dimensions that do not match its data length.
    InvalidMatrixData {
        /// The operation that failed.
        operation: OperationName,
        /// Requested row count.
        rows: MatrixRowCount,
        /// Requested column count.
        cols: MatrixColumnCount,
        /// Actual element count.
        data_len: MatrixStorageLength,
    },
    /// A token sequence contained tokens of different widths.
    InconsistentTokenDimensions {
        /// The operation that failed.
        operation: OperationName,
        /// Index of the offending token.
        token_index: RequestedIndex,
        /// Width of the first token.
        expected_dim: AvailableLength,
        /// Width of the offending token.
        actual_dim: AvailableLength,
    },
    /// A token index did not exist in a sequence.
    InvalidTokenIndex {
        /// The operation that failed.
        operation: OperationName,
        /// Requested token index.
        index: RequestedIndex,
        /// Available token count.
        len: AvailableLength,
    },
    /// A vector index did not exist.
    InvalidVectorIndex {
        /// The operation that failed.
        operation: OperationName,
        /// Requested vector index.
        index: RequestedIndex,
        /// Available vector length.
        len: AvailableLength,
    },
    /// A matrix index did not exist.
    InvalidMatrixIndex {
        /// The operation that failed.
        operation: OperationName,
        /// Requested row.
        row: RequestedIndex,
        /// Requested column.
        col: RequestedIndex,
        /// Available rows.
        rows: MatrixRowCount,
        /// Available columns.
        cols: MatrixColumnCount,
    },
    /// A projection layer had incompatible weights and bias.
    InvalidProjection {
        /// The operation that failed.
        operation: OperationName,
        /// What is inconsistent.
        details: ErrorDetails,
    },
    /// An attention or encoder configuration was internally inconsistent.
    InvalidHeadConfiguration {
        /// The operation that failed.
        operation: OperationName,
        /// What is inconsistent.
        details: ErrorDetails,
    },
    /// A checked integer computation did not fit its type.
    NumericalIssue {
        /// The operation that failed.
        operation: OperationName,
        /// What went wrong.
        details: ErrorDetails,
    },
    /// Restricted evidence tried to enter learner-facing public material.
    InvalidPublicTrace {
        /// The operation that failed.
        operation: OperationName,
        /// Why the release was refused.
        details: ErrorDetails,
    },
}

/// Whether `e` is the `DimensionMismatch` of `operation` between a left
/// operand of one dimension `left_dim` and a right operand of one dimension
/// `right_dim`, with these labels and hint.
pub open spec fn is_dimension_mismatch(
    e: ModelError,
    operation: &'static str,
    left_label: &'static str,
    left_dim: usize,
    right_label: &'static str,
    right_dim: usize,
    hint: &'static str,
) -> bool {
    e matches ModelError::DimensionMismatch {
        operation: o,
        left_label: ll,
        left_shape: ls,
        right_label: rl,
        right_shape: rs,
        hint: h,
    } && o.0 == operation && ll.0 == left_label && ls@ == seq![left_dim] && rl.0 == right_label && rs@
        == seq![right_dim] && h.0 == hint
}

impl ModelError {
    /// A shape mismatch between two one-dimensional operands.
    pub fn dimension_mismatch(
        operation: &'static str,
        left_label: &'static str,
        left_dim: usize,
        right_label: &'static str,
        right_dim: usize,
        hint: &'static str,
    ) -> (e: Self)
        ensures
            is_dimension_mismatch(e, operation, left_label, left_dim, right_label, right_dim, hint),
    {
        let mut left = Vec::new();
        left.push(left_dim);
        let mut right = Vec::new();
        right.push(right_dim);
        proof {
            assert(left@ =~= seq![left_dim]);
            assert(right@ =~= seq![right_dim]);
        }
        ModelError::DimensionMismatch {
            operation: OperationName(operation),
            left_label: ShapeLabel(left_label),
            left_shape: ShapeSignature(left),
            right_label: ShapeLabel(right_label),
            right_shape: ShapeSignature(right),
            hint: ErrorDetails(hint),
        }
    }

    /// An empty input.
    pub fn empty_input(operation: &'static str, details: &'static str) -> (e: Self)
        ensures
            e == (ModelError::EmptyInput { operation: OperationName(operation), details: ErrorDetails(details) }),
    {
        ModelError::EmptyInput { operation: OperationName(operation), details: ErrorDetails(details) }
    }

    /// Matrix dimensions that disagree with the data length.
    pub fn invalid_matrix_data(operation: &'static str, rows: usize, cols: usize, data_len: usize) -> (e: Self)
        ensures
            e == (ModelError::InvalidMatrixData {
                operation: OperationName(operation),
                rows: MatrixRowCount(rows),
                cols: MatrixColumnCount(cols),
                data_len: MatrixStorageLength(data_len),
            }),
    {
        ModelError::InvalidMatrixData {
            operation: OperationName(operation),
            rows: MatrixRowCount(rows),
            cols: MatrixColumnCount(cols),
            data_len: MatrixStorageLength(data_len),
        }
    }

    /// A token whose width differs from the first token's.
    pub fn inconsistent_token_dimensions(
        operation: &'static str,
        token_index: usize,
        expected_dim: usize,
        actual_dim: usize,
    ) -> (e: Self)
        ensures
            e == (ModelError::InconsistentTokenDimensions {
                operation: OperationName(operation),
                token_index: RequestedIndex(token_index),
                expected_dim: AvailableLength(expected_dim),
                actual_dim: AvailableLength(actual_dim),
            }),
    {
        ModelError::InconsistentTokenDimensions {
            operation: OperationName(operation),
            token_index: RequestedIndex(token_index),
            expected_dim: AvailableLength(expected_dim),
            actual_dim: AvailableLength(actual_dim),
        }
    }

    /// A token index past the end of a sequence.
    pub fn invalid_token_index(operation: &'static str, index: usize, len: usize) -> (e: Self)
        ensures
            e == (ModelError::InvalidTokenIndex {
                operation: OperationName(operation),
                index: RequestedIndex(index),
                len: AvailableLength(len),
            }),
    {
        ModelError::InvalidTokenIndex {
            operation: OperationName(operation),
            index: RequestedIndex(index),
            len: AvailableLength(len),
        }
    }

    /// A vector index past the end of a vector.
    pub fn invalid_vector_index(operation: &'static str, index: usize, len: usize) -> (e: Self)
        ensures
            e == (ModelError::InvalidVectorIndex {
                operation: OperationName(operation),
                index: RequestedIndex(index),
                len: AvailableLength(len),
            }),
    {
        ModelError::InvalidVectorIndex {
            operation: OperationName(operation),
            index: RequestedIndex(index),
            len: AvailableLength(len),
        }
    }

    /// A matrix position outside the matrix.
    pub fn invalid_matrix_index(operation: &'static str, row: usize, col: usize, rows: usize, cols: usize) -> (e: Self)
        ensures
            e == (ModelError::InvalidMatrixIndex {
                operation: OperationName(operation),
                row: RequestedIndex(row),
                col: RequestedIndex(col),
                rows: MatrixRowCount(rows),
                cols: MatrixColumnCount(cols),
            }),
    {
        ModelError::InvalidMatrixIndex {
            operation: OperationName(operation),
            row: RequestedIndex(row),
            col: RequestedIndex(col),
            rows: MatrixRowCount(rows),
            cols: MatrixColumnCount(cols),
        }
    }

    /// An inconsistent projection layer.
    pub fn invalid_projection(operation: &'static str, details: &'static str) -> (e: Self)
        ensures
            e == (ModelError::InvalidProjection { operation: OperationName(operation), details: ErrorDetails(details) }),
    {
        ModelError::InvalidProjection { operation: OperationName(operation), details: ErrorDetails(details) }
    }

    /// An inconsistent attention or encoder configuration.
    pub fn invalid_head_configuration(operation: &'static str, details: &'static str) -> (e: Self)
        ensures
            e == (ModelError::InvalidHeadConfiguration {
                operation: OperationName(operation),
                details: ErrorDetails(details),
            }),
    {
        ModelError::InvalidHeadConfiguration { operation: OperationName(operation), details: ErrorDetails(details) }
    }

    /// A checked integer computation that did not fit.
    pub fn numerical_issue(operation: &'static str, details: &'static str) -> (e: Self)
        ensures
            e == (ModelError::NumericalIssue { operation: OperationName(operation), details: ErrorDetails(details) }),
    {
        ModelError::NumericalIssue { operation: OperationName(operation), details: ErrorDetails(details) }
    }

    /// A refused public release.
    pub fn invalid_public_trace(operation: &'static str, details: &'static str) -> (e: Self)
        ensures
            e == (ModelError::InvalidPublicTrace { operation: OperationName(operation), details: ErrorDetails(details) }),
    {
        ModelError::InvalidPublicTrace { operation: OperationName(operation), details: ErrorDetails(details) }
    }
}

} // verus!
