//! Semantic widths, indices and matrix shapes.
use vstd::prelude::*;
use vstd::std_specs::convert::TryFromSpecImpl;

use crate::text::{decimal_chars, decimal_string};
use crate::transformer::error::{
    AvailableLength, ErrorDetails, MatrixColumnCount, MatrixRowCount, MatrixStorageLength, ModelError,
    OperationName, RequestedIndex,
};

verus! {

/// A non-zero vector length or model width.
#[derive(Debug, Clone, Copy, PartialEq, Eq, PartialOrd, Ord)]
pub struct VectorLength(usize);

impl View for VectorLength {
    type V = nat;

    closed spec fn view(&self) -> nat {
        self.0 as nat
    }
}

impl VectorLength {
    #[verifier::type_invariant]
    spec fn positive(self) -> bool {
        self.0 > 0
    }

    /// The length as a raw integer.
    pub fn as_usize(self) -> (v: usize)
        ensures
            v == self@,
            v > 0,
    {
        proof {
            use_type_invariant(&self);
        }
        self.0
    }

    /// Renders the count in decimal.
    pub fn to_string(&self) -> (s: String)
        ensures
            s@ == decimal_chars(self@),
    {
        decimal_string(self.0 as u128)
    }
}

/// What `VectorLength::try_from` returns for `value`.
pub closed spec fn vector_length_from(value: usize) -> Result<VectorLength, ModelError> {
    if value == 0 {
        Err(ModelError::EmptyInput {
            operation: OperationName("VectorLength::try_from"),
            details: ErrorDetails("length must be greater than zero"),
        })
    } else {
        Ok(VectorLength(value))
    }
}

impl TryFrom<usize> for VectorLength {
    type Error = ModelError;

    /// Accepts any positive count.
    fn try_from(value: usize) -> (r: Result<VectorLength, ModelError>)
        ensures
            r == vector_length_from(value),
            r is Ok <==> value > 0,
            r matches Ok(c) ==> c@ == value,
            r matches Err(e) ==> e == (ModelError::EmptyInput {
                operation: OperationName("VectorLength::try_from"),
                details: ErrorDetails("length must be greater than zero"),
            }),
    {
        if value == 0 {
            return Err(ModelError::empty_input("VectorLength::try_from", "length must be greater than zero"));
        }
        Ok(VectorLength(value))
    }
}

impl TryFromSpecImpl<usize> for VectorLength {
    open spec fn obeys_try_from_spec() -> bool {
        true
    }

    open spec fn try_from_spec(value: usize) -> Result<VectorLength, ModelError> {
        vector_length_from(value)
    }
}

impl VectorLength {
    pub(crate) fn from_raw(value: usize, operation: &'static str) -> (r: Result<Self, ModelError>)
        ensures
            r is Ok <==> value > 0,
            r matches Ok(l) ==> l@ == value,
            r matches Err(e) ==> e == (ModelError::EmptyInput {
                operation: OperationName(operation),
                details: ErrorDetails("length must be greater than zero"),
            }),
    {
        if value == 0 {
            return Err(ModelError::empty_input(operation, "length must be greater than zero"));
        }
        Ok(VectorLength(value))
    }
}

/// A zero-based index into a vector.
#[derive(Debug, Clone, Copy, PartialEq, Eq, PartialOrd, Ord)]
pub struct VectorIndex(usize);

impl View for VectorIndex {
    type V = nat;

    closed spec fn view(&self) -> nat {
        self.0 as nat
    }
}

impl VectorIndex {
    /// The index as a raw integer.
    pub fn as_usize(self) -> (v: usize)
        ensures
            v == self@,
    {
        self.0
    }

    /// Renders the index in decimal.
    pub fn to_string(&self) -> (s: String)
        ensures
            s@ == decimal_chars(self@),
    {
        decimal_string(self.0 as u128)
    }
}

/// What `VectorIndex::try_from` returns: every index is accepted.
pub closed spec fn vector_index_from(value: usize) -> Result<VectorIndex, ModelError> {
    Ok(VectorIndex(value))
}

impl TryFrom<usize> for VectorIndex {
    type Error = ModelError;

    /// Accepts any index; bounds are checked where the index is used.
    fn try_from(value: usize) -> (r: Result<VectorIndex, ModelError>)
        ensures
            r == vector_index_from(value),
            r matches Ok(i) && i@ == value,
    {
        Ok(VectorIndex(value))
    }
}

impl TryFromSpecImpl<usize> for VectorIndex {
    open spec fn obeys_try_from_spec() -> bool {
        true
    }

    open spec fn try_from_spec(value: usize) -> Result<VectorIndex, ModelError> {
        vector_index_from(value)
    }
}

/// A zero-based matrix row index.
#[derive(Debug, Clone, Copy, PartialEq, Eq, PartialOrd, Ord)]
pub struct RowIndex(usize);

impl View for RowIndex {
    type V = nat;

    closed spec fn view(&self) -> nat {
        self.0 as nat
    }
}

impl RowIndex {
    /// The index as a raw integer.
    pub fn as_usize(self) -> (v: usize)
        ensures
            v == self@,
    {
        self.0
    }

    /// Renders the index in decimal.
    pub fn to_string(&self) -> (s: String)
        ensures
            s@ == decimal_chars(self@),
    {
        decimal_string(self.0 as u128)
    }
}

/// What `RowIndex::try_from` returns: every index is accepted.
pub closed spec fn row_index_from(value: usize) -> Result<RowIndex, ModelError> {
    Ok(RowIndex(value))
}

impl TryFrom<usize> for RowIndex {
    type Error = ModelError;

    /// Accepts any index; bounds are checked where the index is used.
    fn try_from(value: usize) -> (r: Result<RowIndex, ModelError>)
        ensures
            r == row_index_from(value),
            r matches Ok(i) && i@ == value,
    {
        Ok(RowIndex(value))
    }
}

impl TryFromSpecImpl<usize> for RowIndex {
    open spec fn obeys_try_from_spec() -> bool {
        true
    }

    open spec fn try_from_spec(value: usize) -> Result<RowIndex, ModelError> {
        row_index_from(value)
    }
}

/// A zero-based matrix column index.
#[derive(Debug, Clone, Copy, PartialEq, Eq, PartialOrd, Ord)]
pub struct ColumnIndex(usize);

impl View for ColumnIndex {
    type V = nat;

    closed spec fn view(&self) -> nat {
        self.0 as nat
    }
}

impl ColumnIndex {
    /// The index as a raw integer.
    pub fn as_usize(self) -> (v: usize)
        ensures
            v == self@,
    {
        self.0
    }

    /// Renders the index in decimal.
    pub fn to_string(&self) -> (s: String)
        ensures
            s@ == decimal_chars(self@),
    {
        decimal_string(self.0 as u128)
    }
}

/// What `ColumnIndex::try_from` returns: every index is accepted.
pub closed spec fn column_index_from(value: usize) -> Result<ColumnIndex, ModelError> {
    Ok(ColumnIndex(value))
}

impl TryFrom<usize> for ColumnIndex {
    type Error = ModelError;

    /// Accepts any index; bounds are checked where the index is used.
    fn try_from(value: usize) -> (r: Result<ColumnIndex, ModelError>)
        ensures
            r == column_index_from(value),
            r matches Ok(i) && i@ == value,
    {
        Ok(ColumnIndex(value))
    }
}

impl TryFromSpecImpl<usize> for ColumnIndex {
    open spec fn obeys_try_from_spec() -> bool {
        true
    }

    open spec fn try_from_spec(value: usize) -> Result<ColumnIndex, ModelError> {
        column_index_from(value)
    }
}

/// Matrix shape with non-zero row and column counts.
#[derive(Debug, Clone, Copy, PartialEq, Eq)]
pub struct MatrixShape {
    rows: VectorLength,
    cols: VectorLength,
}

impl MatrixShape {
    /// Creates a matrix shape from checked non-zero dimensions.
    pub fn new(rows: VectorLength, cols: VectorLength) -> (s: Self)
        ensures
            s.rows() == rows,
            s.cols() == cols,
    {
        MatrixShape { rows, cols }
    }

    /// The row count.
    pub closed spec fn spec_rows(self) -> VectorLength {
        self.rows
    }

    /// The column count.
    pub closed spec fn spec_cols(self) -> VectorLength {
        self.cols
    }

    /// Returns row count.
    #[verifier::when_used_as_spec(spec_rows)]
    pub fn rows(self) -> (r: VectorLength)
        ensures
            r == self.spec_rows(),
    {
        self.rows
    }

    /// Returns column count.
    #[verifier::when_used_as_spec(spec_cols)]
    pub fn cols(self) -> (c: VectorLength)
        ensures
            c == self.spec_cols(),
    {
        self.cols
    }

    /// Checks row-major matrix data of `data_len` elements against `rows` by
    /// `cols`: both must be positive and their product must equal the length.
    pub fn from_dims(operation: &'static str, rows: usize, cols: usize, data_len: usize) -> (r: Result<Self, ModelError>)
        ensures
            r is Ok <==> rows > 0 && cols > 0 && rows * cols == data_len,
            r matches Ok(s) ==> s.rows()@ == rows && s.cols()@ == cols,
            r matches Err(e) ==> (rows == 0 || cols == 0 ==> e == (ModelError::EmptyInput {
                operation: OperationName(operation),
                details: ErrorDetails("length must be greater than zero"),
            })),
            r matches Err(e) ==> (rows > 0 && cols > 0 ==> e == (ModelError::InvalidMatrixData {
                operation: OperationName(operation),
                rows: MatrixRowCount(rows),
                cols: MatrixColumnCount(cols),
                data_len: MatrixStorageLength(data_len),
            })),
    {
        let row_length = VectorLength::from_raw(rows, operation)?;
        let col_length = VectorLength::from_raw(cols, operation)?;
        proof {
            assert((rows as int) * (cols as int) <= u64::MAX * u64::MAX) by (nonlinear_arith)
                requires
                    0 <= rows <= u64::MAX,
                    0 <= cols <= u64::MAX,
            ;
        }
        if (rows as u128) * (cols as u128) != data_len as u128 {
            return Err(ModelError::invalid_matrix_data(operation, rows, cols, data_len));
        }
        Ok(MatrixShape { rows: row_length, cols: col_length })
    }

    /// Checks nested row data by its row lengths: there must be a row, the
    /// first row must be non-empty, and every row must be as long as the
    /// first. A ragged matrix fails with `InvalidMatrixData` carrying the total
    /// number of values.
    pub fn from_row_lengths(operation: &'static str, row_lengths: &Vec<usize>) -> (r: Result<Self, ModelError>)
        requires
            total_length(row_lengths@) <= usize::MAX,
        ensures
            r is Ok <==> row_lengths@.len() > 0 && row_lengths@[0] > 0 && same_lengths(row_lengths@),
            r matches Ok(s) ==> s.rows()@ == row_lengths@.len() && s.cols()@ == row_lengths@[0]
                && s.rows()@ * s.cols()@ == total_length(row_lengths@),
            r matches Err(e) ==> (row_lengths@.len() == 0 ==> e == (ModelError::EmptyInput {
                operation: OperationName(operation),
                details: ErrorDetails("matrix cannot be empty"),
            })),
            r matches Err(e) ==> (row_lengths@.len() > 0 && row_lengths@[0] == 0 ==> e == (
            ModelError::EmptyInput {
                operation: OperationName(operation),
                details: ErrorDetails("matrix rows cannot be empty"),
            })),
            r matches Err(e) ==> (row_lengths@.len() > 0 && row_lengths@[0] > 0 ==> e == (
            ModelError::InvalidMatrixData {
                operation: OperationName(operation),
                rows: MatrixRowCount(row_lengths@.len() as usize),
                cols: MatrixColumnCount(row_lengths@[0]),
                data_len: MatrixStorageLength(total_length(row_lengths@) as usize),
            })),
    {
        let rows = row_lengths.len();
        if rows == 0 {
            return Err(ModelError::empty_input(operation, "matrix cannot be empty"));
        }
        let cols = row_lengths[0];
        if cols == 0 {
            return Err(ModelError::empty_input(operation, "matrix rows cannot be empty"));
        }
        let mut total: usize = 0;
        let mut ragged = false;
        let mut i: usize = 0;
        while i < rows
            invariant
                rows == row_lengths@.len(),
                rows > 0,
                cols == row_lengths@[0],
                i <= rows,
                total == total_length(row_lengths@.subrange(0, i as int)),
                total_length(row_lengths@) <= usize::MAX,
                ragged <==> !same_lengths(row_lengths@.subrange(0, i as int)),
            decreases rows - i,
        {
            proof {
                let prefix = row_lengths@.subrange(0, i as int + 1);
                assert(prefix.drop_last() =~= row_lengths@.subrange(0, i as int));
                assert(prefix.last() == row_lengths@[i as int]);
                lemma_total_length_prefix(row_lengths@, i as int + 1);
                assert(prefix[0] == row_lengths@[0]);
                if same_lengths(prefix) {
                    assert forall|j: int| 0 <= j < i implies #[trigger] row_lengths@.subrange(0, i as int)[j]
                        == row_lengths@[0] by {
                        assert(prefix[j] == row_lengths@.subrange(0, i as int)[j]);
                    }
                }
                if !same_lengths(row_lengths@.subrange(0, i as int)) {
                    let k = choose|k: int|
                        0 <= k < i && #[trigger] row_lengths@.subrange(0, i as int)[k] != row_lengths@.subrange(
                            0,
                            i as int,
                        )[0];
                    assert(prefix[k] == row_lengths@.subrange(0, i as int)[k]);
                }
            }
            total = total + row_lengths[i];
            if row_lengths[i] != cols {
                ragged = true;
            }
            i = i + 1;
        }
        proof {
            assert(row_lengths@.subrange(0, rows as int) =~= row_lengths@);
        }
        if ragged {
            return Err(ModelError::invalid_matrix_data(operation, rows, cols, total));
        }
        proof {
            lemma_uniform_total(row_lengths@);
        }
        let row_length = VectorLength::from_raw(rows, operation)?;
        let col_length = VectorLength::from_raw(cols, operation)?;
        Ok(MatrixShape { rows: row_length, cols: col_length })
    }

    /// The row-major offset of `(row, col)`, or `InvalidMatrixIndex` when the
    /// position lies outside the shape.
    pub fn offset(self, operation: &'static str, row: RowIndex, col: ColumnIndex) -> (r: Result<usize, ModelError>)
        requires
            self.rows()@ * self.cols()@ <= usize::MAX,
        ensures
            r is Ok <==> row@ < self.rows()@ && col@ < self.cols()@,
            r matches Ok(o) ==> o == row@ * self.cols()@ + col@,
            r matches Err(e) ==> e == (ModelError::InvalidMatrixIndex {
                operation: OperationName(operation),
                row: RequestedIndex(row@ as usize),
                col: RequestedIndex(col@ as usize),
                rows: MatrixRowCount(self.rows()@ as usize),
                cols: MatrixColumnCount(self.cols()@ as usize),
            }),
    {
        let rows = self.rows.as_usize();
        let cols = self.cols.as_usize();
        if row.as_usize() >= rows || col.as_usize() >= cols {
            return Err(ModelError::invalid_matrix_index(operation, row.as_usize(), col.as_usize(), rows, cols));
        }
        proof {
            assert(row@ * cols + col@ < rows * cols) by (nonlinear_arith)
                requires
                    row@ < rows,
                    col@ < cols,
            ;
            assert(row@ * cols <= row@ * cols + col@);
        }
        proof {
        }
        Ok(row.as_usize() * cols + col.as_usize())
    }
}

/// The sum of a sequence of lengths.
pub open spec fn total_length(lengths: Seq<usize>) -> nat
    decreases lengths.len(),
{
    if lengths.len() == 0 {
        0
    } else {
        total_length(lengths.drop_last()) + lengths.last() as nat
    }
}

/// Whether every length equals the first.
pub open spec fn same_lengths(lengths: Seq<usize>) -> bool {
    forall|i: int| 0 <= i < lengths.len() ==> #[trigger] lengths[i] == lengths[0]
}

proof fn lemma_total_length_prefix(lengths: Seq<usize>, k: int)
    requires
        0 <= k <= lengths.len(),
    ensures
        total_length(lengths.subrange(0, k)) <= total_length(lengths),
    decreases lengths.len(),
{
    if k < lengths.len() {
        assert(lengths.drop_last().subrange(0, k) =~= lengths.subrange(0, k));
        lemma_total_length_prefix(lengths.drop_last(), k);
    } else {
        assert(lengths.subrange(0, k) =~= lengths);
    }
}

proof fn lemma_uniform_total(lengths: Seq<usize>)
    requires
        lengths.len() > 0,
        same_lengths(lengths),
    ensures
        total_length(lengths) == lengths.len() * lengths[0],
    decreases lengths.len(),
{
    let shorter = lengths.drop_last();
    if shorter.len() > 0 {
        assert forall|i: int| 0 <= i < shorter.len() implies #[trigger] shorter[i] == shorter[0] by {
            assert(shorter[i] == lengths[i]);
        }
        lemma_uniform_total(shorter);
        assert(shorter[0] == lengths[0]);
        assert(lengths.last() == lengths[lengths.len() - 1]);
        assert(lengths[lengths.len() - 1] == lengths[0]);
        let n = shorter.len() as int;
        let w = lengths[0] as int;
        assert(n * w + w == (n + 1) * w) by (nonlinear_arith);
        assert(total_length(lengths) == total_length(shorter) + lengths.last());
        assert(total_length(lengths) == n * w + w);
        assert(n + 1 == lengths.len());
    } else {
        assert(total_length(shorter) == 0);
        assert(lengths.last() == lengths[0]);
        assert(lengths.len() == 1);
        assert(total_length(lengths) == lengths[0]);
    }
}

/// Checks `index` against a vector of `len` elements.
pub fn check_vector_index(operation: &'static str, index: VectorIndex, len: usize) -> (r: Result<usize, ModelError>)
    ensures
        r is Ok <==> index@ < len,
        r matches Ok(i) ==> i == index@,
        r matches Err(e) ==> e == (ModelError::InvalidVectorIndex {
            operation: OperationName(operation),
            index: RequestedIndex(index@ as usize),
            len: AvailableLength(len),
        }),
{
    if index.as_usize() >= len {
        return Err(ModelError::invalid_vector_index(operation, index.as_usize(), len));
    }
    Ok(index.as_usize())
}

} // verus!
