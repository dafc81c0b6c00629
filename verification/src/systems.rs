//! Typed resource accounting for small model workloads.
//!
//! ```text
//! shape -> elements -> bytes
//! shape -> operations -> FLOPs
//! repeated timings -> median timing
//! bytes / bandwidth -> transfer time
//! ```
//!
//! Raw numbers enter through `TryFrom` adapters that reject zero; every
//! estimate is computed with checked arithmetic and reports overflow instead
//! of wrapping.
use vstd::prelude::*;
use vstd::relations::{sorted_by, total_ordering};
use vstd::std_specs::convert::TryFromSpecImpl;
use vstd::std_specs::ops::{AddSpecImpl, DivSpecImpl, MulSpecImpl};
use vstd::string::*;

use crate::text::{decimal_chars, decimal_string, is_blank, is_blank_text};

pub mod error;

pub use error::SystemsError as Error;

use error::{ErrorDetails, OperationName, SystemsError};

verus! {

/// Nanoseconds in one second.
pub const NANOS_PER_SECOND: u128 = 1_000_000_000;

/// Ceiling of `n / d`.
pub open spec fn ceil_div(n: nat, d: nat) -> nat
    recommends
        d > 0,
{
    if n % d == 0 {
        n / d
    } else {
        n / d + 1
    }
}

/// The error of a checked `usize` product inside `operation`.
pub open spec fn product_overflow(operation: &'static str) -> SystemsError {
    SystemsError::Overflow {
        operation: OperationName(operation),
        details: ErrorDetails("multiplication exceeded usize"),
    }
}

/// The error of a byte count that left `u64`.
pub open spec fn byte_count_overflow() -> SystemsError {
    SystemsError::Overflow {
        operation: OperationName("ElementCount::mul"),
        details: ErrorDetails("byte count exceeded u64"),
    }
}

/// The error of a FLOP sum that left `u64`.
pub open spec fn flop_sum_overflow() -> SystemsError {
    SystemsError::Overflow { operation: OperationName("Flops::add"), details: ErrorDetails("FLOP count exceeded u64") }
}

fn checked_mul(operation: &'static str, left: usize, right: usize) -> (r: Result<usize, SystemsError>)
    ensures
        r is Ok <==> left * right <= usize::MAX,
        r matches Ok(v) ==> v == left * right,
        r matches Err(e) ==> e == product_overflow(operation),
{
    match left.checked_mul(right) {
        Some(v) => Ok(v),
        None => Err(SystemsError::overflow(operation, "multiplication exceeded usize")),
    }
}

proof fn lemma_mul_grows(a: int, b: int)
    requires
        a >= 0,
        b >= 1,
    ensures
        a <= a * b,
{
    assert(a <= a * b) by (nonlinear_arith)
        requires
            a >= 0,
            b >= 1,
    ;
}

/// Number of examples processed together.
#[derive(Debug, Clone, Copy, PartialEq, Eq, PartialOrd, Ord)]
pub struct BatchSize(usize);

impl View for BatchSize {
    type V = nat;

    closed spec fn view(&self) -> nat {
        self.0 as nat
    }
}

impl BatchSize {
    #[verifier::type_invariant]
    spec fn positive(self) -> bool {
        self.0 > 0
    }

    /// The value as a raw integer.
    pub fn as_usize(self) -> (v: usize)
        ensures
            v == self@,
            v > 0,
    {
        proof {
            use_type_invariant(&self);
        }
        self.0
    }

    /// Renders the count in decimal.
    pub fn to_string(&self) -> (s: String)
        ensures
            s@ == decimal_chars(self@),
    {
        decimal_string(self.0 as u128)
    }
}

/// What `BatchSize::try_from` returns for `value`.
pub closed spec fn batch_size_from(value: usize) -> Result<BatchSize, SystemsError> {
    if value == 0 {
        Err(SystemsError::EmptyInput {
            operation: OperationName("BatchSize::try_from"),
            details: ErrorDetails("batch size must be greater than zero"),
        })
    } else {
        Ok(BatchSize(value))
    }
}

impl TryFrom<usize> for BatchSize {
    type Error = SystemsError;

    /// Accepts any positive count.
    fn try_from(value: usize) -> (r: Result<BatchSize, SystemsError>)
        ensures
            r == batch_size_from(value),
            r is Ok <==> value > 0,
            r matches Ok(c) ==> c@ == value,
            r matches Err(e) ==> e == (SystemsError::EmptyInput {
                operation: OperationName("BatchSize::try_from"),
                details: ErrorDetails("batch size must be greater than zero"),
            }),
    {
        if value == 0 {
            return Err(SystemsError::empty_input("BatchSize::try_from", "batch size must be greater than zero"));
        }
        Ok(BatchSize(value))
    }
}

impl TryFromSpecImpl<usize> for BatchSize {
    open spec fn obeys_try_from_spec() -> bool {
        true
    }

    open spec fn try_from_spec(value: usize) -> Result<BatchSize, SystemsError> {
        batch_size_from(value)
    }
}

/// Number of token positions in one sequence.
#[derive(Debug, Clone, Copy, PartialEq, Eq, PartialOrd, Ord)]
pub struct SequenceLength(usize);

impl View for SequenceLength {
    type V = nat;

    closed spec fn view(&self) -> nat {
        self.0 as nat
    }
}

impl SequenceLength {
    #[verifier::type_invariant]
    spec fn positive(self) -> bool {
        self.0 > 0
    }

    /// The value as a raw integer.
    pub fn as_usize(self) -> (v: usize)
        ensures
            v == self@,
            v > 0,
    {
        proof {
            use_type_invariant(&self);
        }
        self.0
    }

    /// Renders the count in decimal.
    pub fn to_string(&self) -> (s: String)
        ensures
            s@ == decimal_chars(self@),
    {
        decimal_string(self.0 as u128)
    }
}

/// What `SequenceLength::try_from` returns for `value`.
pub closed spec fn sequence_length_from(value: usize) -> Result<SequenceLength, SystemsError> {
    if value == 0 {
        Err(SystemsError::EmptyInput {
            operation: OperationName("SequenceLength::try_from"),
            details: ErrorDetails("sequence length must be greater than zero"),
        })
    } else {
        Ok(SequenceLength(value))
    }
}

impl TryFrom<usize> for SequenceLength {
    type Error = SystemsError;

    /// Accepts any positive count.
    fn try_from(value: usize) -> (r: Result<SequenceLength, SystemsError>)
        ensures
            r == sequence_length_from(value),
            r is Ok <==> value > 0,
            r matches Ok(c) ==> c@ == value,
            r matches Err(e) ==> e == (SystemsError::EmptyInput {
                operation: OperationName("SequenceLength::try_from"),
                details: ErrorDetails("sequence length must be greater than zero"),
            }),
    {
        if value == 0 {
            return Err(SystemsError::empty_input("SequenceLength::try_from", "sequence length must be greater than zero"));
        }
        Ok(SequenceLength(value))
    }
}

impl TryFromSpecImpl<usize> for SequenceLength {
    open spec fn obeys_try_from_spec() -> bool {
        true
    }

    open spec fn try_from_spec(value: usize) -> Result<SequenceLength, SystemsError> {
        sequence_length_from(value)
    }
}

/// Number of channels in one token representation.
#[derive(Debug, Clone, Copy, PartialEq, Eq, PartialOrd, Ord)]
pub struct ModelWidth(usize);

impl View for ModelWidth {
    type V = nat;

    closed spec fn view(&self) -> nat {
        self.0 as nat
    }
}

impl ModelWidth {
    #[verifier::type_invariant]
    spec fn positive(self) -> bool {
        self.0 > 0
    }

    /// The value as a raw integer.
    pub fn as_usize(self) -> (v: usize)
        ensures
            v == self@,
            v > 0,
    {
        proof {
            use_type_invariant(&self);
        }
        self.0
    }

    /// Renders the count in decimal.
    pub fn to_string(&self) -> (s: String)
        ensures
            s@ == decimal_chars(self@),
    {
        decimal_string(self.0 as u128)
    }
}

/// What `ModelWidth::try_from` returns for `value`.
pub closed spec fn model_width_from(value: usize) -> Result<ModelWidth, SystemsError> {
    if value == 0 {
        Err(SystemsError::EmptyInput {
            operation: OperationName("ModelWidth::try_from"),
            details: ErrorDetails("model width must be greater than zero"),
        })
    } else {
        Ok(ModelWidth(value))
    }
}

impl TryFrom<usize> for ModelWidth {
    type Error = SystemsError;

    /// Accepts any positive count.
    fn try_from(value: usize) -> (r: Result<ModelWidth, SystemsError>)
        ensures
            r == model_width_from(value),
            r is Ok <==> value > 0,
            r matches Ok(c) ==> c@ == value,
            r matches Err(e) ==> e == (SystemsError::EmptyInput {
                operation: OperationName("ModelWidth::try_from"),
                details: ErrorDetails("model width must be greater than zero"),
            }),
    {
        if value == 0 {
            return Err(SystemsError::empty_input("ModelWidth::try_from", "model width must be greater than zero"));
        }
        Ok(ModelWidth(value))
    }
}

impl TryFromSpecImpl<usize> for ModelWidth {
    open spec fn obeys_try_from_spec() -> bool {
        true
    }

    open spec fn try_from_spec(value: usize) -> Result<ModelWidth, SystemsError> {
        model_width_from(value)
    }
}

/// Number of rows in a matrix-shaped operation.
#[derive(Debug, Clone, Copy, PartialEq, Eq, PartialOrd, Ord)]
pub struct RowCount(usize);

impl View for RowCount {
    type V = nat;

    closed spec fn view(&self) -> nat {
        self.0 as nat
    }
}

impl RowCount {
    #[verifier::type_invariant]
    spec fn positive(self) -> bool {
        self.0 > 0
    }

    /// The value as a raw integer.
    pub fn as_usize(self) -> (v: usize)
        ensures
            v == self@,
            v > 0,
    {
        proof {
            use_type_invariant(&self);
        }
        self.0
    }

    /// Renders the count in decimal.
    pub fn to_string(&self) -> (s: String)
        ensures
            s@ == decimal_chars(self@),
    {
        decimal_string(self.0 as u128)
    }
}

/// What `RowCount::try_from` returns for `value`.
pub closed spec fn row_count_from(value: usize) -> Result<RowCount, SystemsError> {
    if value == 0 {
        Err(SystemsError::EmptyInput {
            operation: OperationName("RowCount::try_from"),
            details: ErrorDetails("row count must be greater than zero"),
        })
    } else {
        Ok(RowCount(value))
    }
}

impl TryFrom<usize> for RowCount {
    type Error = SystemsError;

    /// Accepts any positive count.
    fn try_from(value: usize) -> (r: Result<RowCount, SystemsError>)
        ensures
            r == row_count_from(value),
            r is Ok <==> value > 0,
            r matches Ok(c) ==> c@ == value,
            r matches Err(e) ==> e == (SystemsError::EmptyInput {
                operation: OperationName("RowCount::try_from"),
                details: ErrorDetails("row count must be greater than zero"),
            }),
    {
        if value == 0 {
            return Err(SystemsError::empty_input("RowCount::try_from", "row count must be greater than zero"));
        }
        Ok(RowCount(value))
    }
}

impl TryFromSpecImpl<usize> for RowCount {
    open spec fn obeys_try_from_spec() -> bool {
        true
    }

    open spec fn try_from_spec(value: usize) -> Result<RowCount, SystemsError> {
        row_count_from(value)
    }
}

/// Number of columns in a matrix-shaped operation.
#[derive(Debug, Clone, Copy, PartialEq, Eq, PartialOrd, Ord)]
pub struct ColumnCount(usize);

impl View for ColumnCount {
    type V = nat;

    closed spec fn view(&self) -> nat {
        self.0 as nat
    }
}

impl ColumnCount {
    #[verifier::type_invariant]
    spec fn positive(self) -> bool {
        self.0 > 0
    }

    /// The value as a raw integer.
    pub fn as_usize(self) -> (v: usize)
        ensures
            v == self@,
            v > 0,
    {
        proof {
            use_type_invariant(&self);
        }
        self.0
    }

    /// Renders the count in decimal.
    pub fn to_string(&self) -> (s: String)
        ensures
            s@ == decimal_chars(self@),
    {
        decimal_string(self.0 as u128)
    }
}

/// What `ColumnCount::try_from` returns for `value`.
pub closed spec fn column_count_from(value: usize) -> Result<ColumnCount, SystemsError> {
    if value == 0 {
        Err(SystemsError::EmptyInput {
            operation: OperationName("ColumnCount::try_from"),
            details: ErrorDetails("column count must be greater than zero"),
        })
    } else {
        Ok(ColumnCount(value))
    }
}

impl TryFrom<usize> for ColumnCount {
    type Error = SystemsError;

    /// Accepts any positive count.
    fn try_from(value: usize) -> (r: Result<ColumnCount, SystemsError>)
        ensures
            r == column_count_from(value),
            r is Ok <==> value > 0,
            r matches Ok(c) ==> c@ == value,
            r matches Err(e) ==> e == (SystemsError::EmptyInput {
                operation: OperationName("ColumnCount::try_from"),
                details: ErrorDetails("column count must be greater than zero"),
            }),
    {
        if value == 0 {
            return Err(SystemsError::empty_input("ColumnCount::try_from", "column count must be greater than zero"));
        }
        Ok(ColumnCount(value))
    }
}

impl TryFromSpecImpl<usize> for ColumnCount {
    open spec fn obeys_try_from_spec() -> bool {
        true
    }

    open spec fn try_from_spec(value: usize) -> Result<ColumnCount, SystemsError> {
        column_count_from(value)
    }
}

/// Number of scalar elements in a tensor-like value.
#[derive(Debug, Clone, Copy, PartialEq, Eq, PartialOrd, Ord)]
pub struct ElementCount(usize);

impl View for ElementCount {
    type V = nat;

    closed spec fn view(&self) -> nat {
        self.0 as nat
    }
}

impl ElementCount {
    #[verifier::type_invariant]
    spec fn positive(self) -> bool {
        self.0 > 0
    }

    fn from_raw(operation: &'static str, value: usize) -> (r: Result<Self, SystemsError>)
        ensures
            r is Ok <==> value > 0,
            r matches Ok(c) ==> c@ == value,
            r matches Err(e) ==> e == (SystemsError::EmptyInput {
                operation: OperationName(operation),
                details: ErrorDetails("element count must be greater than zero"),
            }),
    {
        if value == 0 {
            return Err(SystemsError::empty_input(operation, "element count must be greater than zero"));
        }
        Ok(ElementCount(value))
    }

    /// The value as a raw integer.
    pub fn as_usize(self) -> (v: usize)
        ensures
            v == self@,
            v > 0,
    {
        proof {
            use_type_invariant(&self);
        }
        self.0
    }

    /// Renders the count in decimal.
    pub fn to_string(&self) -> (s: String)
        ensures
            s@ == decimal_chars(self@),
    {
        decimal_string(self.0 as u128)
    }
}

/// Number of bytes occupied or moved by a computation.
#[derive(Debug, Clone, Copy, PartialEq, Eq, PartialOrd, Ord)]
pub struct Bytes(u64);

impl View for Bytes {
    type V = nat;

    closed spec fn view(&self) -> nat {
        self.0 as nat
    }
}

/// What `Bytes::try_from` returns for `value`.
pub closed spec fn bytes_from(value: u64) -> Result<Bytes, SystemsError> {
    if value == 0 {
        Err(SystemsError::EmptyInput {
            operation: OperationName("Bytes::try_from"),
            details: ErrorDetails("bytes must be greater than zero"),
        })
    } else {
        Ok(Bytes(value))
    }
}

/// What `left + right` returns for two byte counts.
pub closed spec fn bytes_sum(left: Bytes, right: Bytes) -> Result<Bytes, SystemsError> {
    if left.0 + right.0 > u64::MAX {
        Err(SystemsError::Overflow {
            operation: OperationName("Bytes::add"),
            details: ErrorDetails("byte count exceeded u64"),
        })
    } else {
        Ok(Bytes((left.0 + right.0) as u64))
    }
}

/// Estimated nanoseconds to move `bytes` at `bandwidth` bytes per second,
/// rounded up so that a non-empty transfer never takes zero time.
pub open spec fn transfer_nanos(bytes: nat, bandwidth: nat) -> nat {
    ceil_div(bytes * (NANOS_PER_SECOND as nat), bandwidth)
}

/// What `bytes / bandwidth` returns.
pub closed spec fn bytes_over_bandwidth(bytes: Bytes, bandwidth: BytesPerSecond) -> Result<ElapsedNanos, SystemsError> {
    Ok(ElapsedNanos(transfer_nanos(bytes.0 as nat, bandwidth.0 as nat) as u128))
}

impl Bytes {
    #[verifier::type_invariant]
    spec fn positive(self) -> bool {
        self.0 > 0
    }

    fn from_raw(operation: &'static str, value: u64) -> (r: Result<Self, SystemsError>)
        ensures
            r is Ok <==> value > 0,
            r matches Ok(b) ==> b@ == value,
            r matches Err(e) ==> e == (SystemsError::EmptyInput {
                operation: OperationName(operation),
                details: ErrorDetails("bytes must be greater than zero"),
            }),
    {
        if value == 0 {
            return Err(SystemsError::empty_input(operation, "bytes must be greater than zero"));
        }
        Ok(Bytes(value))
    }

    /// The byte count as a raw integer.
    pub fn as_u64(self) -> (v: u64)
        ensures
            v == self@,
            v > 0,
    {
        proof {
            use_type_invariant(&self);
        }
        self.0
    }

    /// Renders the count followed by its unit, such as `96 bytes`.
    pub fn to_string(&self) -> (s: String)
        ensures
            s@ == decimal_chars(self@) + " bytes"@,
    {
        let mut s = decimal_string(self.0 as u128);
        s.append(" bytes");
        s
    }
}

impl TryFrom<u64> for Bytes {
    type Error = SystemsError;

    /// Accepts any positive byte count.
    fn try_from(value: u64) -> (r: Result<Bytes, SystemsError>)
        ensures
            r == bytes_from(value),
            r is Ok <==> value > 0,
            r matches Ok(b) ==> b@ == value,
            r matches Err(e) ==> e == (SystemsError::EmptyInput {
                operation: OperationName("Bytes::try_from"),
                details: ErrorDetails("bytes must be greater than zero"),
            }),
    {
        if value == 0 {
            return Err(SystemsError::empty_input("Bytes::try_from", "bytes must be greater than zero"));
        }
        Ok(Bytes(value))
    }
}

impl TryFromSpecImpl<u64> for Bytes {
    open spec fn obeys_try_from_spec() -> bool {
        true
    }

    open spec fn try_from_spec(value: u64) -> Result<Bytes, SystemsError> {
        bytes_from(value)
    }
}

impl std::ops::Add for Bytes {
    type Output = Result<Bytes, SystemsError>;

    /// Adds two byte counts, reporting overflow of `u64`.
    fn add(self, right: Bytes) -> (r: Result<Bytes, SystemsError>)
        ensures
            r == bytes_sum(self, right),
            r is Ok <==> self@ + right@ <= u64::MAX,
            r matches Ok(b) ==> b@ == self@ + right@,
            r matches Err(e) ==> e == (SystemsError::Overflow {
                operation: OperationName("Bytes::add"),
                details: ErrorDetails("byte count exceeded u64"),
            }),
    {
        proof {
            use_type_invariant(&self);
        }
        match self.0.checked_add(right.0) {
            Some(total) => Ok(Bytes(total)),
            None => Err(SystemsError::overflow("Bytes::add", "byte count exceeded u64")),
        }
    }
}

impl AddSpecImpl for Bytes {
    open spec fn obeys_add_spec() -> bool {
        true
    }

    open spec fn add_req(self, rhs: Bytes) -> bool {
        true
    }

    open spec fn add_spec(self, rhs: Bytes) -> Result<Bytes, SystemsError> {
        bytes_sum(self, rhs)
    }
}

impl std::ops::Div<BytesPerSecond> for Bytes {
    type Output = Result<ElapsedNanos, SystemsError>;

    /// Transfer time of these bytes at the given bandwidth, in whole
    /// nanoseconds rounded up. It never fails: `u64` bytes times `10^9` fits
    /// in `u128`, and a positive byte count takes at least one nanosecond.
    fn div(self, bandwidth: BytesPerSecond) -> (r: Result<ElapsedNanos, SystemsError>)
        ensures
            r == bytes_over_bandwidth(self, bandwidth),
            r matches Ok(e) && e@ == transfer_nanos(self@, bandwidth@),
    {
        proof {
            use_type_invariant(&self);
            use_type_invariant(&bandwidth);
            assert(self.0 as int * NANOS_PER_SECOND as int <= u64::MAX as int * NANOS_PER_SECOND as int)
                by (nonlinear_arith)
                requires
                    self.0 <= u64::MAX,
            ;
        }
        let numerator = match (self.0 as u128).checked_mul(NANOS_PER_SECOND) {
            Some(n) => n,
            None => {
                return Err(
                    SystemsError::overflow(
                        "Bytes::div<BytesPerSecond>",
                        "byte-nanosecond product exceeded u128",
                    ),
                );
            },
        };
        let denominator = bandwidth.0;
        let quotient = numerator / denominator;
        let remainder = numerator % denominator;
        proof {
            assert(quotient <= numerator) by (nonlinear_arith)
                requires
                    denominator >= 1,
                    quotient == numerator / denominator,
            ;
            assert(numerator > 0);
        }
        let elapsed = if remainder == 0 {
            proof {
                assert(quotient > 0) by (nonlinear_arith)
                    requires
                        denominator >= 1,
                        numerator > 0,
                        remainder == 0,
                        quotient == numerator / denominator,
                        remainder == numerator % denominator,
                ;
            }
            quotient
        } else {
            quotient + 1
        };
        Ok(ElapsedNanos(elapsed))
    }
}

impl DivSpecImpl<BytesPerSecond> for Bytes {
    open spec fn obeys_div_spec() -> bool {
        true
    }

    open spec fn div_req(self, rhs: BytesPerSecond) -> bool {
        true
    }

    open spec fn div_spec(self, rhs: BytesPerSecond) -> Result<ElapsedNanos, SystemsError> {
        bytes_over_bandwidth(self, rhs)
    }
}

/// Sustained memory bandwidth in bytes per second.
#[derive(Debug, Clone, Copy, PartialEq, Eq, PartialOrd, Ord)]
pub struct BytesPerSecond(u128);

impl View for BytesPerSecond {
    type V = nat;

    closed spec fn view(&self) -> nat {
        self.0 as nat
    }
}

/// What `BytesPerSecond::try_from` returns for `value`.
pub closed spec fn bandwidth_from(value: u128) -> Result<BytesPerSecond, SystemsError> {
    if value == 0 {
        Err(SystemsError::EmptyInput {
            operation: OperationName("BytesPerSecond::try_from"),
            details: ErrorDetails("bandwidth must be greater than zero"),
        })
    } else {
        Ok(BytesPerSecond(value))
    }
}

impl BytesPerSecond {
    #[verifier::type_invariant]
    spec fn positive(self) -> bool {
        self.0 > 0
    }

    /// The bandwidth as a raw integer.
    pub fn as_u128(self) -> (v: u128)
        ensures
            v == self@,
            v > 0,
    {
        proof {
            use_type_invariant(&self);
        }
        self.0
    }

    /// Renders the bandwidth with its unit, such as `512 bytes/s`.
    pub fn to_string(&self) -> (s: String)
        ensures
            s@ == decimal_chars(self@) + " bytes/s"@,
    {
        let mut s = decimal_string(self.0);
        s.append(" bytes/s");
        s
    }
}

impl TryFrom<u128> for BytesPerSecond {
    type Error = SystemsError;

    /// Accepts any positive bandwidth.
    fn try_from(value: u128) -> (r: Result<BytesPerSecond, SystemsError>)
        ensures
            r == bandwidth_from(value),
            r is Ok <==> value > 0,
            r matches Ok(b) ==> b@ == value,
            r matches Err(e) ==> e == (SystemsError::EmptyInput {
                operation: OperationName("BytesPerSecond::try_from"),
                details: ErrorDetails("bandwidth must be greater than zero"),
            }),
    {
        if value == 0 {
            return Err(SystemsError::empty_input("BytesPerSecond::try_from", "bandwidth must be greater than zero"));
        }
        Ok(BytesPerSecond(value))
    }
}

impl TryFromSpecImpl<u128> for BytesPerSecond {
    open spec fn obeys_try_from_spec() -> bool {
        true
    }

    open spec fn try_from_spec(value: u128) -> Result<BytesPerSecond, SystemsError> {
        bandwidth_from(value)
    }
}

/// Number of bytes used by one scalar element.
#[derive(Debug, Clone, Copy, PartialEq, Eq, PartialOrd, Ord)]
pub struct ElementSize(Bytes);

impl View for ElementSize {
    type V = nat;

    closed spec fn view(&self) -> nat {
        self.0@
    }
}

/// What `elements * element_size` returns.
pub closed spec fn element_bytes(elements: ElementCount, size: ElementSize) -> Result<Bytes, SystemsError> {
    if elements.0 * size.0.0 > u64::MAX {
        Err(SystemsError::Overflow {
            operation: OperationName("ElementCount::mul"),
            details: ErrorDetails("byte count exceeded u64"),
        })
    } else {
        Ok(Bytes((elements.0 * size.0.0) as u64))
    }
}

impl ElementSize {
    /// Returns the size of one `f32` scalar.
    pub fn float32() -> (s: Self)
        ensures
            s@ == 4,
    {
        ElementSize(Bytes(4))
    }

    /// Returns the size of one `f64` scalar.
    pub fn float64() -> (s: Self)
        ensures
            s@ == 8,
    {
        ElementSize(Bytes(8))
    }

    fn bytes(self) -> (b: Bytes)
        ensures
            b@ == self@,
    {
        self.0
    }

    /// Renders the size with its unit, such as `4 bytes`.
    pub fn to_string(&self) -> (s: String)
        ensures
            s@ == decimal_chars(self@) + " bytes"@,
    {
        self.0.to_string()
    }
}

impl std::ops::Mul<ElementSize> for ElementCount {
    type Output = Result<Bytes, SystemsError>;

    /// Bytes occupied by this many elements, reporting overflow of `u64`.
    fn mul(self, element_size: ElementSize) -> (r: Result<Bytes, SystemsError>)
        ensures
            r == element_bytes(self, element_size),
            r is Ok <==> self@ * element_size@ <= u64::MAX,
            r matches Ok(b) ==> b@ == self@ * element_size@,
            r matches Err(e) ==> e == byte_count_overflow(),
    {
        let elements = self.as_usize() as u64;
        let size = element_size.bytes().as_u64();
        proof {
            use_type_invariant(&self);
            use_type_invariant(&element_size.0);
            assert(elements * size >= 1) by (nonlinear_arith)
                requires
                    elements >= 1,
                    size >= 1,
            ;
        }
        match elements.checked_mul(size) {
            Some(bytes) => Ok(Bytes(bytes)),
            None => Err(SystemsError::overflow("ElementCount::mul", "byte count exceeded u64")),
        }
    }
}

impl MulSpecImpl<ElementSize> for ElementCount {
    open spec fn obeys_mul_spec() -> bool {
        true
    }

    open spec fn mul_req(self, rhs: ElementSize) -> bool {
        true
    }

    open spec fn mul_spec(self, rhs: ElementSize) -> Result<Bytes, SystemsError> {
        element_bytes(self, rhs)
    }
}

/// Number of floating-point operations in an estimate.
#[derive(Debug, Clone, Copy, PartialEq, Eq, PartialOrd, Ord)]
pub struct Flops(u64);

impl View for Flops {
    type V = nat;

    closed spec fn view(&self) -> nat {
        self.0 as nat
    }
}

/// What `Flops::try_from` returns for `value`.
pub closed spec fn flops_from(value: u64) -> Result<Flops, SystemsError> {
    if value == 0 {
        Err(SystemsError::EmptyInput {
            operation: OperationName("Flops::try_from"),
            details: ErrorDetails("FLOP count must be greater than zero"),
        })
    } else {
        Ok(Flops(value))
    }
}

/// What `left + right` returns for two FLOP counts.
pub closed spec fn flops_sum(left: Flops, right: Flops) -> Result<Flops, SystemsError> {
    if left.0 + right.0 > u64::MAX {
        Err(SystemsError::Overflow {
            operation: OperationName("Flops::add"),
            details: ErrorDetails("FLOP count exceeded u64"),
        })
    } else {
        Ok(Flops((left.0 + right.0) as u64))
    }
}

impl Flops {
    #[verifier::type_invariant]
    spec fn positive(self) -> bool {
        self.0 > 0
    }

    fn from_raw(operation: &'static str, value: u64) -> (r: Result<Self, SystemsError>)
        ensures
            r is Ok <==> value > 0,
            r matches Ok(f) ==> f@ == value,
            r matches Err(e) ==> e == (SystemsError::EmptyInput {
                operation: OperationName(operation),
                details: ErrorDetails("FLOP count must be greater than zero"),
            }),
    {
        if value == 0 {
            return Err(SystemsError::empty_input(operation, "FLOP count must be greater than zero"));
        }
        Ok(Flops(value))
    }

    /// The FLOP count as a raw integer.
    pub fn as_u64(self) -> (v: u64)
        ensures
            v == self@,
            v > 0,
    {
        proof {
            use_type_invariant(&self);
        }
        self.0
    }

    /// Renders the count with its unit, such as `72 FLOPs`.
    pub fn to_string(&self) -> (s: String)
        ensures
            s@ == decimal_chars(self@) + " FLOPs"@,
    {
        let mut s = decimal_string(self.0 as u128);
        s.append(" FLOPs");
        s
    }
}

impl TryFrom<u64> for Flops {
    type Error = SystemsError;

    /// Accepts any positive FLOP count.
    fn try_from(value: u64) -> (r: Result<Flops, SystemsError>)
        ensures
            r == flops_from(value),
            r is Ok <==> value > 0,
            r matches Ok(f) ==> f@ == value,
            r matches Err(e) ==> e == (SystemsError::EmptyInput {
                operation: OperationName("Flops::try_from"),
                details: ErrorDetails("FLOP count must be greater than zero"),
            }),
    {
        if value == 0 {
            return Err(SystemsError::empty_input("Flops::try_from", "FLOP count must be greater than zero"));
        }
        Ok(Flops(value))
    }
}

impl TryFromSpecImpl<u64> for Flops {
    open spec fn obeys_try_from_spec() -> bool {
        true
    }

    open spec fn try_from_spec(value: u64) -> Result<Flops, SystemsError> {
        flops_from(value)
    }
}

impl std::ops::Add for Flops {
    type Output = Result<Flops, SystemsError>;

    /// Adds two FLOP counts, reporting overflow of `u64`.
    fn add(self, right: Flops) -> (r: Result<Flops, SystemsError>)
        ensures
            r == flops_sum(self, right),
            r is Ok <==> self@ + right@ <= u64::MAX,
            r matches Ok(f) ==> f@ == self@ + right@,
            r matches Err(e) ==> e == flop_sum_overflow(),
    {
        proof {
            use_type_invariant(&self);
        }
        match self.0.checked_add(right.0) {
            Some(total) => Ok(Flops(total)),
            None => Err(SystemsError::overflow("Flops::add", "FLOP count exceeded u64")),
        }
    }
}

impl AddSpecImpl for Flops {
    open spec fn obeys_add_spec() -> bool {
        true
    }

    open spec fn add_req(self, rhs: Flops) -> bool {
        true
    }

    open spec fn add_spec(self, rhs: Flops) -> Result<Flops, SystemsError> {
        flops_sum(self, rhs)
    }
}

/// Elapsed time for one measured run.
#[derive(Debug, Clone, Copy, PartialEq, Eq, PartialOrd, Ord)]
pub struct ElapsedNanos(u128);

impl View for ElapsedNanos {
    type V = nat;

    closed spec fn view(&self) -> nat {
        self.0 as nat
    }
}

/// What `ElapsedNanos::try_from` returns for `value`.
pub closed spec fn elapsed_from(value: u128) -> Result<ElapsedNanos, SystemsError> {
    if value == 0 {
        Err(SystemsError::EmptyInput {
            operation: OperationName("ElapsedNanos::try_from"),
            details: ErrorDetails("elapsed time must be greater than zero"),
        })
    } else {
        Ok(ElapsedNanos(value))
    }
}

impl ElapsedNanos {
    #[verifier::type_invariant]
    spec fn positive(self) -> bool {
        self.0 > 0
    }

    fn from_raw(operation: &'static str, value: u128) -> (r: Result<Self, SystemsError>)
        ensures
            r is Ok <==> value > 0,
            r matches Ok(e) ==> e@ == value,
            r matches Err(e) ==> e == (SystemsError::EmptyInput {
                operation: OperationName(operation),
                details: ErrorDetails("elapsed time must be greater than zero"),
            }),
    {
        if value == 0 {
            return Err(SystemsError::empty_input(operation, "elapsed time must be greater than zero"));
        }
        Ok(ElapsedNanos(value))
    }

    /// The duration in nanoseconds as a raw integer.
    pub fn as_u128(self) -> (v: u128)
        ensures
            v == self@,
            v > 0,
    {
        proof {
            use_type_invariant(&self);
        }
        self.0
    }

    /// Renders the duration with its unit, such as `20 ns`.
    pub fn to_string(&self) -> (s: String)
        ensures
            s@ == decimal_chars(self@) + " ns"@,
    {
        let mut s = decimal_string(self.0);
        s.append(" ns");
        s
    }
}

impl TryFrom<u128> for ElapsedNanos {
    type Error = SystemsError;

    /// Accepts any positive duration.
    fn try_from(value: u128) -> (r: Result<ElapsedNanos, SystemsError>)
        ensures
            r == elapsed_from(value),
            r is Ok <==> value > 0,
            r matches Ok(e) ==> e@ == value,
            r matches Err(e) ==> e == (SystemsError::EmptyInput {
                operation: OperationName("ElapsedNanos::try_from"),
                details: ErrorDetails("elapsed time must be greater than zero"),
            }),
    {
        if value == 0 {
            return Err(SystemsError::empty_input("ElapsedNanos::try_from", "elapsed time must be greater than zero"));
        }
        Ok(ElapsedNanos(value))
    }
}

impl TryFromSpecImpl<u128> for ElapsedNanos {
    open spec fn obeys_try_from_spec() -> bool {
        true
    }

    open spec fn try_from_spec(value: u128) -> Result<ElapsedNanos, SystemsError> {
        elapsed_from(value)
    }
}

/// A named memory tier used for accelerator mental models.
#[derive(Debug, Clone, Copy, PartialEq, Eq, Hash)]
pub enum MemoryLevel {
    /// Registers closest to the arithmetic units.
    RegisterFile,
    /// Shared or local memory visible to a small group of execution lanes.
    SharedMemory,
    /// Device memory with high bandwidth but longer access paths than local memory.
    HighBandwidthMemory,
    /// Host memory reached across a slower device boundary.
    HostMemory,
}

/// The learner-facing name of a memory tier.
pub open spec fn memory_level_name(level: MemoryLevel) -> Seq<char> {
    match level {
        MemoryLevel::RegisterFile => "register file"@,
        MemoryLevel::SharedMemory => "shared memory"@,
        MemoryLevel::HighBandwidthMemory => "high-bandwidth memory"@,
        MemoryLevel::HostMemory => "host memory"@,
    }
}

impl MemoryLevel {
    /// Renders the tier name, such as `high-bandwidth memory`.
    pub fn to_string(&self) -> (s: String)
        ensures
            s@ == memory_level_name(*self),
    {
        match self {
            MemoryLevel::RegisterFile => String::from_str("register file"),
            MemoryLevel::SharedMemory => String::from_str("shared memory"),
            MemoryLevel::HighBandwidthMemory => String::from_str("high-bandwidth memory"),
            MemoryLevel::HostMemory => String::from_str("host memory"),
        }
    }
}

/// Estimated movement of bytes through one memory tier.
#[derive(Debug, Clone, Copy, PartialEq, Eq)]
pub struct MemoryTransfer {
    level: MemoryLevel,
    bytes_moved: Bytes,
    bandwidth: BytesPerSecond,
}

impl MemoryTransfer {
    /// Creates a typed memory-transfer estimate.
    pub fn new(level: MemoryLevel, bytes_moved: Bytes, bandwidth: BytesPerSecond) -> (t: Self)
        ensures
            t.level() == level,
            t.bytes_moved() == bytes_moved,
            t.bandwidth() == bandwidth,
    {
        MemoryTransfer { level, bytes_moved, bandwidth }
    }

    /// The memory tier, in specifications.
    pub closed spec fn spec_level(&self) -> MemoryLevel {
        self.level
    }

    /// The transferred bytes, in specifications.
    pub closed spec fn spec_bytes_moved(&self) -> Bytes {
        self.bytes_moved
    }

    /// The bandwidth, in specifications.
    pub closed spec fn spec_bandwidth(&self) -> BytesPerSecond {
        self.bandwidth
    }

    /// Returns the memory tier.
    #[verifier::when_used_as_spec(spec_level)]
    pub fn level(&self) -> (l: MemoryLevel)
        ensures
            l == self.spec_level(),
    {
        self.level
    }

    /// Returns the transferred bytes.
    #[verifier::when_used_as_spec(spec_bytes_moved)]
    pub fn bytes_moved(&self) -> (b: Bytes)
        ensures
            b == self.spec_bytes_moved(),
    {
        self.bytes_moved
    }

    /// Returns the assumed sustained bandwidth.
    #[verifier::when_used_as_spec(spec_bandwidth)]
    pub fn bandwidth(&self) -> (b: BytesPerSecond)
        ensures
            b == self.spec_bandwidth(),
    {
        self.bandwidth
    }

    /// Estimates transfer time from bytes and sustained bandwidth, rounded
    /// up to whole nanoseconds; it always succeeds.
    pub fn estimated_elapsed(&self) -> (r: Result<ElapsedNanos, SystemsError>)
        ensures
            r matches Ok(e) && e@ == transfer_nanos(self.bytes_moved()@, self.bandwidth()@),
    {
        self.bytes_moved / self.bandwidth
    }
}

/// A non-blank human-readable stage label.
#[derive(Debug, PartialEq, Eq, PartialOrd, Ord, Hash)]
pub struct StageName(String);

impl Clone for StageName {
    fn clone(&self) -> (c: Self)
        ensures
            c == *self,
    {
        proof {
            use_type_invariant(self);
        }
        StageName(self.0.clone())
    }
}

impl View for StageName {
    type V = Seq<char>;

    closed spec fn view(&self) -> Seq<char> {
        self.0@
    }
}

impl StageName {
    #[verifier::type_invariant]
    spec fn not_blank(self) -> bool {
        !is_blank(self.0@)
    }

    fn from_owned(value: String) -> (r: Result<Self, SystemsError>)
        ensures
            r is Ok <==> !is_blank(value@),
            r matches Ok(n) ==> n@ == value@,
            r matches Err(e) ==> e == blank_stage_name(),
            r == stage_name_from_string(value),
    {
        if is_blank_text(value.as_str()) {
            return Err(SystemsError::empty_input("StageName::try_from", "stage name cannot be empty"));
        }
        proof {
            assert(!is_blank(value@));
        }
        Ok(StageName(value))
    }

    /// The label text.
    pub fn as_str(&self) -> (s: &str)
        ensures
            s@ == self@,
    {
        self.0.as_str()
    }

    /// The label as an owned string.
    pub fn to_string(&self) -> (s: String)
        ensures
            s@ == self@,
    {
        self.0.clone()
    }
}

/// The error for a blank stage label.
pub open spec fn blank_stage_name() -> SystemsError {
    SystemsError::EmptyInput {
        operation: OperationName("StageName::try_from"),
        details: ErrorDetails("stage name cannot be empty"),
    }
}

impl<'a> TryFrom<&'a str> for StageName {
    type Error = SystemsError;

    /// Accepts any label that is not empty after trimming whitespace.
    fn try_from(value: &'a str) -> (r: Result<StageName, SystemsError>)
        ensures
            r is Ok <==> !is_blank(value@),
            r matches Ok(n) ==> n@ == value@,
            r matches Err(e) ==> e == blank_stage_name(),
    {
        StageName::from_owned(value.to_owned())
    }
}

impl<'a> TryFromSpecImpl<&'a str> for StageName {
    open spec fn obeys_try_from_spec() -> bool {
        false
    }

    open spec fn try_from_spec(value: &'a str) -> Result<StageName, SystemsError> {
        Err(blank_stage_name())
    }
}

impl TryFrom<String> for StageName {
    type Error = SystemsError;

    /// Accepts any label that is not empty after trimming whitespace.
    fn try_from(value: String) -> (r: Result<StageName, SystemsError>)
        ensures
            r is Ok <==> !is_blank(value@),
            r matches Ok(n) ==> n@ == value@,
            r matches Err(e) ==> e == blank_stage_name(),
            r == stage_name_from_string(value),
    {
        StageName::from_owned(value)
    }
}

impl TryFromSpecImpl<String> for StageName {
    open spec fn obeys_try_from_spec() -> bool {
        true
    }

    open spec fn try_from_spec(value: String) -> Result<StageName, SystemsError> {
        stage_name_from_string(value)
    }
}

/// What `StageName::try_from` returns for an owned string.
pub closed spec fn stage_name_from_string(value: String) -> Result<StageName, SystemsError> {
    if is_blank(value@) {
        Err(blank_stage_name())
    } else {
        Ok(StageName(value))
    }
}

/// Shape of an activation tensor.
#[derive(Debug, Clone, Copy, PartialEq, Eq)]
pub struct ActivationShape {
    batch_size: BatchSize,
    sequence_length: SequenceLength,
    model_width: ModelWidth,
}

impl View for ActivationShape {
    /// `(batch size, sequence length, model width)`.
    type V = (nat, nat, nat);

    closed spec fn view(&self) -> (nat, nat, nat) {
        (self.batch_size@, self.sequence_length@, self.model_width@)
    }
}

impl ActivationShape {
    /// Creates an activation shape from semantic dimensions.
    pub fn new(batch_size: BatchSize, sequence_length: SequenceLength, model_width: ModelWidth) -> (s: Self)
        ensures
            s@ == (batch_size@, sequence_length@, model_width@),
    {
        ActivationShape { batch_size, sequence_length, model_width }
    }

    /// Number of scalar elements, `batch * sequence * width`; fails with
    /// `Overflow` exactly when that product exceeds `usize`.
    pub fn elements(&self) -> (r: Result<ElementCount, SystemsError>)
        ensures
            r is Ok <==> self@.0 * self@.1 * self@.2 <= usize::MAX,
            r matches Ok(c) ==> c@ == self@.0 * self@.1 * self@.2,
            r matches Err(e) ==> e == product_overflow("ActivationShape::elements"),
    {
        let b = self.batch_size.as_usize();
        let s = self.sequence_length.as_usize();
        let w = self.model_width.as_usize();
        proof {
            lemma_mul_grows(b * s, w as int);
            assert(b * s * w >= 1) by (nonlinear_arith)
                requires
                    b >= 1,
                    s >= 1,
                    w >= 1,
            ;
        }
        let batch_sequence = checked_mul("ActivationShape::elements", b, s)?;
        let elements = checked_mul("ActivationShape::elements", batch_sequence, w)?;
        ElementCount::from_raw("ActivationShape::elements", elements)
    }

    /// Activation memory, `elements * element size` bytes; fails with
    /// `Overflow` when the element count exceeds `usize` or the byte count
    /// exceeds `u64`.
    pub fn activation_bytes(&self, element_size: ElementSize) -> (r: Result<Bytes, SystemsError>)
        ensures
            r is Ok <==> self@.0 * self@.1 * self@.2 <= usize::MAX && self@.0 * self@.1
                * self@.2 * element_size@ <= u64::MAX,
            r matches Ok(b) ==> b@ == self@.0 * self@.1 * self@.2 * element_size@,
            r matches Err(e) ==> e == if self@.0 * self@.1 * self@.2 > usize::MAX {
                product_overflow("ActivationShape::elements")
            } else {
                byte_count_overflow()
            },
    {
        let elements = self.elements()?;
        elements * element_size
    }
}

/// Shape of a matrix-vector multiplication.
#[derive(Debug, Clone, Copy, PartialEq, Eq)]
pub struct MatrixVectorShape {
    rows: RowCount,
    cols: ColumnCount,
}

impl View for MatrixVectorShape {
    /// `(rows, columns)`.
    type V = (nat, nat);

    closed spec fn view(&self) -> (nat, nat) {
        (self.rows@, self.cols@)
    }
}

impl MatrixVectorShape {
    /// Creates a matrix-vector shape.
    pub fn new(rows: RowCount, cols: ColumnCount) -> (s: Self)
        ensures
            s@ == (rows@, cols@),
    {
        MatrixVectorShape { rows, cols }
    }

    /// Multiply-add FLOPs of one product, `2 * rows * cols`; fails with
    /// `Overflow` exactly when that count exceeds `usize`.
    pub fn multiply_add_flops(&self) -> (r: Result<Flops, SystemsError>)
        ensures
            r is Ok <==> 2 * (self@.0 * self@.1) <= usize::MAX,
            r matches Ok(f) ==> f@ == 2 * (self@.0 * self@.1),
            r matches Err(e) ==> e == product_overflow("MatrixVectorShape::multiply_add_flops"),
    {
        let rows = self.rows.as_usize();
        let cols = self.cols.as_usize();
        proof {
            assert(rows * cols >= 1) by (nonlinear_arith)
                requires
                    rows >= 1,
                    cols >= 1,
            ;
        }
        let pairs = checked_mul("MatrixVectorShape::multiply_add_flops", rows, cols)?;
        let flops = checked_mul("MatrixVectorShape::multiply_add_flops", pairs, 2)?;
        Flops::from_raw("MatrixVectorShape::multiply_add_flops", flops as u64)
    }

    /// Bytes read for the weights and the input plus bytes written for the
    /// output: `(rows * cols + cols + rows) * element size`. Fails with
    /// `Overflow` when the element count exceeds `usize` or the byte count
    /// exceeds `u64`.
    pub fn bytes_moved(&self, element_size: ElementSize) -> (r: Result<Bytes, SystemsError>)
        ensures
            r is Ok <==> self@.0 * self@.1 + self@.1 + self@.0 <= usize::MAX && (self@.0 * self@.1
                + self@.1 + self@.0) * element_size@ <= u64::MAX,
            r matches Ok(b) ==> b@ == (self@.0 * self@.1 + self@.1 + self@.0) * element_size@,
            r matches Err(e) ==> e == if self@.0 * self@.1 > usize::MAX {
                product_overflow("MatrixVectorShape::bytes_moved")
            } else if self@.0 * self@.1 + self@.1 + self@.0 > usize::MAX {
                SystemsError::Overflow {
                    operation: OperationName("MatrixVectorShape::bytes_moved"),
                    details: ErrorDetails("element count exceeded usize"),
                }
            } else {
                byte_count_overflow()
            },
    {
        let rows = self.rows.as_usize();
        let cols = self.cols.as_usize();
        proof {
            assert(rows * cols >= 1) by (nonlinear_arith)
                requires
                    rows >= 1,
                    cols >= 1,
            ;
        }
        let weight_elements = checked_mul("MatrixVectorShape::bytes_moved", rows, cols)?;
        let total_elements = match weight_elements.checked_add(cols) {
            Some(partial) => match partial.checked_add(rows) {
                Some(total) => total,
                None => {
                    return Err(
                        SystemsError::overflow("MatrixVectorShape::bytes_moved", "element count exceeded usize"),
                    );
                },
            },
            None => {
                return Err(
                    SystemsError::overflow("MatrixVectorShape::bytes_moved", "element count exceeded usize"),
                );
            },
        };
        let elements = ElementCount::from_raw("MatrixVectorShape::bytes_moved", total_elements)?;
        elements * element_size
    }
}

/// Estimate for one dense self-attention pass.
#[derive(Debug, Clone, Copy, PartialEq, Eq)]
pub struct AttentionEstimate {
    sequence_length: SequenceLength,
    model_width: ModelWidth,
}

/// FLOPs of one all-pairs pass over `sequence` tokens of width `width`:
/// `2 * sequence * sequence * width`.
pub open spec fn token_pair_flops(sequence: nat, width: nat) -> nat {
    2 * (sequence * sequence * width)
}

/// Attention over token pairs costs `2 * sequence^2 * width` FLOPs, so the
/// cost is quadratic in the sequence length: doubling the sequence at a fixed
/// width multiplies it by four, while doubling the width only doubles it.
pub proof fn lemma_attention_flops_quadratic(sequence: nat, width: nat)
    ensures
        token_pair_flops(sequence, width) == 2 * (sequence * sequence) * width,
        token_pair_flops(2 * sequence, width) == 4 * token_pair_flops(sequence, width),
        token_pair_flops(sequence, 2 * width) == 2 * token_pair_flops(sequence, width),
{
    assert(2 * (sequence * sequence * width) == 2 * (sequence * sequence) * width) by (nonlinear_arith);
    assert((2 * sequence) * (2 * sequence) * width == 4 * (sequence * sequence * width)) by (nonlinear_arith);
    assert(sequence * sequence * (2 * width) == 2 * (sequence * sequence * width)) by (nonlinear_arith);
}

impl View for AttentionEstimate {
    /// `(sequence length, model width)`.
    type V = (nat, nat);

    closed spec fn view(&self) -> (nat, nat) {
        (self.sequence_length@, self.model_width@)
    }
}

impl AttentionEstimate {
    /// Creates an attention estimate from semantic dimensions.
    pub fn new(sequence_length: SequenceLength, model_width: ModelWidth) -> (e: Self)
        ensures
            e@ == (sequence_length@, model_width@),
    {
        AttentionEstimate { sequence_length, model_width }
    }

    /// Query-key score FLOPs for all token pairs.
    pub fn score_flops(&self) -> (r: Result<Flops, SystemsError>)
        ensures
            r is Ok <==> token_pair_flops(self@.0, self@.1) <= usize::MAX,
            r matches Ok(f) ==> f@ == token_pair_flops(self@.0, self@.1),
            r matches Err(e) ==> e == product_overflow("AttentionEstimate::score_flops"),
            r is Ok <==> 2 * (self@.0 * self@.0) * self@.1 <= usize::MAX,
            r matches Ok(f) ==> f@ == 2 * (self@.0 * self@.0) * self@.1,
    {
        self.token_pair_width_flops("AttentionEstimate::score_flops")
    }

    /// Value-mixing FLOPs for all token pairs.
    pub fn value_mix_flops(&self) -> (r: Result<Flops, SystemsError>)
        ensures
            r is Ok <==> token_pair_flops(self@.0, self@.1) <= usize::MAX,
            r matches Ok(f) ==> f@ == token_pair_flops(self@.0, self@.1),
            r matches Err(e) ==> e == product_overflow("AttentionEstimate::value_mix_flops"),
            r is Ok <==> 2 * (self@.0 * self@.0) * self@.1 <= usize::MAX,
            r matches Ok(f) ==> f@ == 2 * (self@.0 * self@.0) * self@.1,
    {
        self.token_pair_width_flops("AttentionEstimate::value_mix_flops")
    }

    /// Score plus value-mixing FLOPs.
    pub fn total_flops(&self) -> (r: Result<Flops, SystemsError>)
        ensures
            r is Ok <==> token_pair_flops(self@.0, self@.1) <= usize::MAX && 2
                * token_pair_flops(self@.0, self@.1) <= u64::MAX,
            r matches Ok(f) ==> f@ == 2 * token_pair_flops(self@.0, self@.1),
            r matches Err(e) ==> e == if token_pair_flops(self@.0, self@.1) > usize::MAX {
                product_overflow("AttentionEstimate::score_flops")
            } else {
                flop_sum_overflow()
            },
            r is Ok <==> 2 * (self@.0 * self@.0) * self@.1 <= usize::MAX && 4 * (self@.0 * self@.0)
                * self@.1 <= u64::MAX,
            r matches Ok(f) ==> f@ == 4 * (self@.0 * self@.0) * self@.1,
    {
        proof {
            lemma_attention_flops_quadratic(self@.0, self@.1);
            let x = self@.0;
            let w = self@.1;
            assert(2 * (2 * (x * x) * w) == 4 * (x * x) * w) by (nonlinear_arith);
        }
        let score = self.score_flops()?;
        let value_mix = self.value_mix_flops()?;
        score + value_mix
    }

    /// Bytes needed to materialize the dense score matrix,
    /// `sequence * sequence * element size`.
    pub fn score_matrix_bytes(&self, element_size: ElementSize) -> (r: Result<Bytes, SystemsError>)
        ensures
            r is Ok <==> self@.0 * self@.0 <= usize::MAX && self@.0 * self@.0 * element_size@
                <= u64::MAX,
            r matches Ok(b) ==> b@ == self@.0 * self@.0 * element_size@,
            r matches Err(e) ==> e == if self@.0 * self@.0 > usize::MAX {
                product_overflow("AttentionEstimate::score_matrix_bytes")
            } else {
                byte_count_overflow()
            },
    {
        let s = self.sequence_length.as_usize();
        proof {
            assert(s * s >= 1) by (nonlinear_arith)
                requires
                    s >= 1,
            ;
        }
        let entries = checked_mul("AttentionEstimate::score_matrix_bytes", s, s)?;
        let elements = ElementCount::from_raw("AttentionEstimate::score_matrix_bytes", entries)?;
        elements * element_size
    }

    fn token_pair_width_flops(&self, operation: &'static str) -> (r: Result<Flops, SystemsError>)
        ensures
            r is Ok <==> token_pair_flops(self@.0, self@.1) <= usize::MAX,
            r matches Ok(f) ==> f@ == token_pair_flops(self@.0, self@.1),
            r matches Err(e) ==> e == product_overflow(operation),
            r is Ok <==> 2 * (self@.0 * self@.0) * self@.1 <= usize::MAX,
            r matches Ok(f) ==> f@ == 2 * (self@.0 * self@.0) * self@.1,
    {
        let s = self.sequence_length.as_usize();
        let w = self.model_width.as_usize();
        proof {
            lemma_attention_flops_quadratic(s as nat, w as nat);
            lemma_mul_grows(s * s, w as int);
            assert(s * s * w >= 1) by (nonlinear_arith)
                requires
                    s >= 1,
                    w >= 1,
            ;
        }
        let token_pairs = checked_mul(operation, s, s)?;
        let multiply_add_pairs = checked_mul(operation, token_pairs, w)?;
        let flops = checked_mul(operation, multiply_add_pairs, 2)?;
        Flops::from_raw(operation, flops as u64)
    }
}

/// One measured or estimated stage in a systems trace.
#[derive(Debug, PartialEq, Eq)]
pub struct StageMeasurement {
    name: StageName,
    elapsed: ElapsedNanos,
    flops: Flops,
    bytes_moved: Bytes,
}

impl Clone for StageMeasurement {
    fn clone(&self) -> (c: Self)
        ensures
            c == *self,
    {
        StageMeasurement {
            name: self.name.clone(),
            elapsed: self.elapsed,
            flops: self.flops,
            bytes_moved: self.bytes_moved,
        }
    }
}

impl StageMeasurement {
    /// Creates a typed stage measurement.
    pub fn new(name: StageName, elapsed: ElapsedNanos, flops: Flops, bytes_moved: Bytes) -> (m: Self)
        ensures
            m.name()@ == name@,
            m.elapsed() == elapsed,
            m.flops() == flops,
            m.bytes_moved() == bytes_moved,
    {
        StageMeasurement { name, elapsed, flops, bytes_moved }
    }

    /// The stage label, in specifications.
    pub closed spec fn spec_name(&self) -> &StageName {
        &self.name
    }

    /// The elapsed time, in specifications.
    pub closed spec fn spec_elapsed(&self) -> ElapsedNanos {
        self.elapsed
    }

    /// The FLOPs, in specifications.
    pub closed spec fn spec_flops(&self) -> Flops {
        self.flops
    }

    /// The moved bytes, in specifications.
    pub closed spec fn spec_bytes_moved(&self) -> Bytes {
        self.bytes_moved
    }

    /// Returns the stage label.
    #[verifier::when_used_as_spec(spec_name)]
    pub fn name(&self) -> (n: &StageName)
        ensures
            n == self.spec_name(),
    {
        &self.name
    }

    /// Returns elapsed time.
    #[verifier::when_used_as_spec(spec_elapsed)]
    pub fn elapsed(&self) -> (e: ElapsedNanos)
        ensures
            e == self.spec_elapsed(),
    {
        self.elapsed
    }

    /// Returns FLOPs.
    #[verifier::when_used_as_spec(spec_flops)]
    pub fn flops(&self) -> (f: Flops)
        ensures
            f == self.spec_flops(),
    {
        self.flops
    }

    /// Returns moved bytes.
    #[verifier::when_used_as_spec(spec_bytes_moved)]
    pub fn bytes_moved(&self) -> (b: Bytes)
        ensures
            b == self.spec_bytes_moved(),
    {
        self.bytes_moved
    }
}

/// Non-empty repeated measurements for one stage.
#[derive(Debug, PartialEq, Eq)]
pub struct StageMeasurements(Vec<StageMeasurement>);

impl Clone for StageMeasurements {
    fn clone(&self) -> (c: Self)
        ensures
            c@ == self@,
    {
        proof {
            use_type_invariant(self);
        }
        let items = self.0.clone();
        proof {
            assert forall|i: int| 0 <= i < items@.len() implies items@[i] == self.0@[i] by {
                assert(cloned::<StageMeasurement>(self.0@[i], items@[i]));
            }
            assert(items@ =~= self.0@);
        }
        StageMeasurements(items)
    }
}

impl View for StageMeasurements {
    type V = Seq<StageMeasurement>;

    closed spec fn view(&self) -> Seq<StageMeasurement> {
        self.0@
    }
}

/// Ascending order on durations.
pub open spec fn duration_le() -> spec_fn(u128, u128) -> bool {
    |a: u128, b: u128| a <= b
}

/// The elapsed times of the measurements, in measurement order.
pub open spec fn elapsed_times(measurements: Seq<StageMeasurement>) -> Seq<u128> {
    measurements.map_values(|m: StageMeasurement| m.elapsed()@ as u128)
}

/// The elapsed times sorted in ascending order.
pub open spec fn sorted_elapsed_times(measurements: Seq<StageMeasurement>) -> Seq<u128> {
    elapsed_times(measurements).sort_by(duration_le())
}

/// Whether the median of these times is representable: an even count needs
/// the two middle times to add up within `u128`.
pub open spec fn median_fits(sorted: Seq<u128>) -> bool {
    sorted.len() % 2 == 1 || sorted[sorted.len() / 2 - 1] + sorted[(sorted.len() / 2) as int] <= u128::MAX
}

/// The median of an ascending sequence: the middle element for an odd
/// count, the floor of the mean of the two middle elements otherwise.
pub open spec fn median_of_sorted(sorted: Seq<u128>) -> nat {
    let mid = sorted.len() / 2;
    if sorted.len() % 2 == 1 {
        sorted[mid as int] as nat
    } else {
        ((sorted[mid - 1] + sorted[mid as int]) / 2) as nat
    }
}

proof fn lemma_duration_le_total()
    ensures
        total_ordering(duration_le()),
{
}

impl StageMeasurements {
    #[verifier::type_invariant]
    spec fn non_empty(self) -> bool {
        self.0.len() > 0
    }

    /// Creates a checked non-empty measurement set.
    pub fn from_measurements(measurements: Vec<StageMeasurement>) -> (r: Result<Self, SystemsError>)
        ensures
            r is Ok <==> measurements@.len() > 0,
            r matches Ok(m) ==> m@ == measurements@,
            r matches Err(e) ==> e == (SystemsError::EmptyInput {
                operation: OperationName("StageMeasurements::from_measurements"),
                details: ErrorDetails("measurement set cannot be empty"),
            }),
    {
        if measurements.len() == 0 {
            return Err(
                SystemsError::empty_input(
                    "StageMeasurements::from_measurements",
                    "measurement set cannot be empty",
                ),
            );
        }
        proof {
            assert(measurements@.len() > 0);
        }
        Ok(StageMeasurements(measurements))
    }

    /// The measurements, in the order given.
    pub fn measurements(&self) -> (m: &[StageMeasurement])
        ensures
            m@ == self@,
            m@.len() > 0,
    {
        proof {
            use_type_invariant(self);
        }
        self.0.as_slice()
    }

    /// Median elapsed time over the measurements. It fails, with
    /// `Overflow`, only when an even number of measurements has two middle
    /// times whose sum exceeds `u128`.
    pub fn median_elapsed(&self) -> (r: Result<ElapsedNanos, SystemsError>)
        ensures
            r is Ok <==> median_fits(sorted_elapsed_times(self@)),
            r matches Ok(e) ==> e@ == median_of_sorted(sorted_elapsed_times(self@)),
            r matches Err(e) ==> e == (SystemsError::Overflow {
                operation: OperationName("StageMeasurements::median_elapsed"),
                details: ErrorDetails("elapsed time exceeded u128"),
            }),
            self@.len() % 2 == 1 ==> r is Ok,
            r matches Ok(e) ==> (self@.len() % 2 == 1 ==> {
                &&& exists|i: int| 0 <= i < self@.len() && #[trigger] elapsed_times(self@)[i] as nat == e@
                &&& elapsed_times(self@).filter(times_below(e@)).len() <= self@.len() / 2
                &&& elapsed_times(self@).filter(times_above(e@)).len() <= self@.len() / 2
            }),
    {
        proof {
            use_type_invariant(self);
            if self@.len() % 2 == 1 {
                lemma_median_is_middle_measurement(self@);
            }
        }
        let n = self.0.len();
        let mut elapsed: Vec<u128> = Vec::new();
        let mut i: usize = 0;
        while i < n
            invariant
                n == self.0@.len(),
                i <= n,
                elapsed@ == elapsed_times(self.0@).take(i as int),
                forall|k: int| 0 <= k < elapsed@.len() ==> elapsed@[k] > 0,
            decreases n - i,
        {
            let t = self.0[i].elapsed.as_u128();
            elapsed.push(t);
            assert(elapsed_times(self.0@).take(i + 1) =~= elapsed_times(self.0@).take(i as int).push(t));
            i = i + 1;
        }
        assert(elapsed_times(self.0@).take(n as int) =~= elapsed_times(self.0@));
        let ghost unsorted = elapsed@;
        sort_ascending(&mut elapsed);
        proof {
            lemma_duration_le_total();
            unsorted.lemma_sort_by_ensures(duration_le());
            vstd::seq_lib::lemma_sorted_unique(elapsed@, unsorted.sort_by(duration_le()), duration_le());
            assert forall|k: int| 0 <= k < elapsed@.len() implies elapsed@[k] > 0 by {
                assert(elapsed@.contains(elapsed@[k]));
                assert(unsorted.contains(elapsed@[k]));
            }
        }
        let midpoint = n / 2;
        let median = if n % 2 == 0 {
            match elapsed[midpoint - 1].checked_add(elapsed[midpoint]) {
                Some(total) => total / 2,
                None => {
                    return Err(
                        SystemsError::overflow("StageMeasurements::median_elapsed", "elapsed time exceeded u128"),
                    );
                },
            }
        } else {
            elapsed[midpoint]
        };
        ElapsedNanos::from_raw("StageMeasurements::median_elapsed", median)
    }
}

/// Sorts durations in ascending order, keeping the same values.
fn sort_ascending(v: &mut Vec<u128>)
    ensures
        final(v)@.to_multiset() == old(v)@.to_multiset(),
        sorted_by(final(v)@, duration_le()),
        final(v)@.len() == old(v)@.len(),
{
    broadcast use vstd::seq_lib::group_to_multiset_ensures;
    let n = v.len();
    let ghost initial = v@;
    let mut i: usize = 1;
    while i < n
        invariant
            n == v@.len(),
            1 <= i,
            n > 0 ==> i <= n,
            v@.to_multiset() == initial.to_multiset(),
            forall|a: int, b: int| 0 <= a < b < i && b < n ==> v@[a] <= v@[b],
        decreases n - i,
    {
        let mut j: usize = i;
        while j > 0 && v[j - 1] > v[j]
            invariant
                n == v@.len(),
                0 <= j <= i < n,
                v@.to_multiset() == initial.to_multiset(),
                forall|a: int, b: int| 0 <= a < b <= i && a != j && b != j ==> v@[a] <= v@[b],
                forall|k: int| j < k <= i ==> v@[j as int] <= v@[k],
            decreases j,
        {
            let upper = v[j];
            let lower = v[j - 1];
            let ghost before = v@;
            v.set(j, lower);
            v.set(j - 1, upper);
            proof {
                assert(v@ =~= before.update(j as int, lower).update(j - 1, upper));
                let mid = before.update(j as int, lower);
                vstd::seq_lib::to_multiset_update(before, j as int, lower);
                vstd::seq_lib::to_multiset_update(mid, j - 1, upper);
                assert(mid[j - 1] == lower);
                broadcast use vstd::multiset::group_multiset_axioms;
                vstd::seq_lib::to_multiset_contains(before, upper);
                assert(before.contains(upper)) by {
                    assert(before[j as int] == upper);
                }
                assert(v@.to_multiset() =~= before.to_multiset());
            }
            j = j - 1;
        }
        i = i + 1;
    }
    assert(sorted_by(v@, duration_le()));
}

/// The transfer-time estimate is the exact ceiling of `bytes * 10^9 /
/// bandwidth`: the smallest whole number of nanoseconds in which the link
/// moves all the bytes. In particular a non-empty transfer takes at least
/// one nanosecond.
pub proof fn lemma_transfer_time_is_ceiling(bytes: nat, bandwidth: nat)
    requires
        bytes > 0,
        bandwidth > 0,
    ensures
        transfer_nanos(bytes, bandwidth) >= 1,
        transfer_nanos(bytes, bandwidth) * bandwidth >= bytes * (NANOS_PER_SECOND as nat),
        (transfer_nanos(bytes, bandwidth) - 1) * bandwidth < bytes * (NANOS_PER_SECOND as nat),
{
    let n = bytes * (NANOS_PER_SECOND as nat);
    let d = bandwidth;
    assert(n >= 1) by (nonlinear_arith)
        requires
            bytes >= 1,
            n == bytes * 1_000_000_000,
    ;
    let q = n / d;
    let r = n % d;
    assert(n == q * d + r && 0 <= r < d) by (nonlinear_arith)
        requires
            d > 0,
            q == n / d,
            r == n % d,
    ;
    if r == 0 {
        assert(q >= 1) by (nonlinear_arith)
            requires
                n >= 1,
                n == q * d,
                d > 0,
        ;
        assert((q - 1) * d < n) by (nonlinear_arith)
            requires
                n == q * d,
                d > 0,
        ;
    } else {
        assert((q + 1) * d >= n) by (nonlinear_arith)
            requires
                n == q * d + r,
                r < d,
        ;
        assert(q * d < n) by (nonlinear_arith)
            requires
                n == q * d + r,
                r > 0,
        ;
    }
}

/// The median depends only on which times were measured, not on the order
/// in which they were recorded: two measurement sets with the same elapsed
/// times (as a multiset) have the same sorted times, hence the same median
/// and the same overflow outcome.
pub proof fn lemma_median_ignores_order(a: Seq<StageMeasurement>, b: Seq<StageMeasurement>)
    requires
        elapsed_times(a).to_multiset() == elapsed_times(b).to_multiset(),
    ensures
        sorted_elapsed_times(a) == sorted_elapsed_times(b),
        median_fits(sorted_elapsed_times(a)) == median_fits(sorted_elapsed_times(b)),
        median_of_sorted(sorted_elapsed_times(a)) == median_of_sorted(sorted_elapsed_times(b)),
{
    lemma_duration_le_total();
    elapsed_times(a).lemma_sort_by_ensures(duration_le());
    elapsed_times(b).lemma_sort_by_ensures(duration_le());
    vstd::seq_lib::lemma_sorted_unique(sorted_elapsed_times(a), sorted_elapsed_times(b), duration_le());
}

/// The median lies between the fastest and the slowest measurement.
pub proof fn lemma_median_within_range(measurements: Seq<StageMeasurement>)
    requires
        measurements.len() > 0,
    ensures
        exists|i: int|
            0 <= i < measurements.len() && #[trigger] elapsed_times(measurements)[i] <= median_of_sorted(
                sorted_elapsed_times(measurements),
            ),
        exists|j: int|
            0 <= j < measurements.len() && #[trigger] elapsed_times(measurements)[j] >= median_of_sorted(
                sorted_elapsed_times(measurements),
            ),
{
    broadcast use vstd::seq_lib::group_to_multiset_ensures;

    let times = elapsed_times(measurements);
    let sorted = sorted_elapsed_times(measurements);
    lemma_duration_le_total();
    times.lemma_sort_by_ensures(duration_le());
    let n = sorted.len();
    let mid = n / 2;
    assert(times.len() == measurements.len());
    assert(times.to_multiset().len() == times.len());
    assert(sorted.to_multiset().len() == sorted.len());
    assert(n == measurements.len());
    assert forall|x: int, y: int| 0 <= x <= y < n implies sorted[x] <= sorted[y] by {
        if x < y {
            assert(duration_le()(sorted[x], sorted[y]));
        }
    }
    assert(sorted[0] <= sorted[mid as int]);
    assert(sorted[mid as int] <= sorted[n - 1]);
    if n % 2 == 0 {
        assert(sorted[0] <= sorted[mid - 1]);
        assert(sorted[mid - 1] <= sorted[n - 1]);
    }
    assert(median_of_sorted(sorted) >= sorted[0]);
    assert(median_of_sorted(sorted) <= sorted[n - 1]);
    assert(sorted.contains(sorted[0]));
    assert(sorted.contains(sorted[n - 1]));
    assert(times.contains(sorted[0]));
    assert(times.contains(sorted[n - 1]));
    let i = choose|i: int| 0 <= i < times.len() && times[i] == sorted[0];
    let j = choose|j: int| 0 <= j < times.len() && times[j] == sorted[n - 1];
    assert(times[i] <= median_of_sorted(sorted));
    assert(times[j] >= median_of_sorted(sorted));
}

/// The measured times strictly below `m`.
pub open spec fn times_below(m: nat) -> spec_fn(u128) -> bool {
    |t: u128| (t as nat) < m
}

/// The measured times strictly above `m`.
pub open spec fn times_above(m: nat) -> spec_fn(u128) -> bool {
    |t: u128| (t as nat) > m
}

/// Filtering keeps the same number of items from two sequences that hold the
/// same items in any order.
proof fn lemma_filter_len_reordered(a: Seq<u128>, b: Seq<u128>, p: spec_fn(u128) -> bool)
    requires
        a.to_multiset() == b.to_multiset(),
    ensures
        a.filter(p).len() == b.filter(p).len(),
    decreases a.len(),
{
    broadcast use vstd::seq_lib::group_to_multiset_ensures;
    broadcast use vstd::multiset::group_multiset_axioms;

    if a.len() == 0 {
        assert(b.to_multiset().len() == 0);
        assert(b.len() == 0);
        assert(a =~= b);
    } else {
        let x = a.last();
        let rest = a.drop_last();
        assert(a =~= rest.push(x));
        assert(a.contains(x)) by {
            assert(a[a.len() - 1] == x);
        }
        assert(b.to_multiset().count(x) > 0);
        assert(b.contains(x));
        let j = choose|j: int| 0 <= j < b.len() && b[j] == x;
        let b2 = b.remove(j);
        vstd::seq_lib::to_multiset_remove(b, j);
        vstd::seq_lib::to_multiset_build(rest, x);
        assert(rest.to_multiset() =~= a.to_multiset().remove(x));
        assert(b2.to_multiset() =~= rest.to_multiset());
        lemma_filter_len_reordered(rest, b2, p);
        rest.lemma_filter_len_push(p, x);
        let left = b.subrange(0, j);
        let right = b.subrange(j + 1, b.len() as int);
        assert(b =~= left.push(x) + right);
        assert(b2 =~= left + right);
        Seq::filter_distributes_over_add(left.push(x), right, p);
        Seq::filter_distributes_over_add(left, right, p);
        left.lemma_filter_len_push(p, x);
    }
}

/// In an ascending sequence at most `k` items lie strictly below the item
/// at `k`, and at most `len - k - 1` strictly above it.
proof fn lemma_sorted_rank(s: Seq<u128>, k: int)
    requires
        0 <= k < s.len(),
        forall|x: int, y: int| 0 <= x <= y < s.len() ==> s[x] <= s[y],
    ensures
        s.filter(times_below(s[k] as nat)).len() <= k,
        s.filter(times_above(s[k] as nat)).len() <= s.len() - k - 1,
{
    broadcast use vstd::seq_lib::group_filter_ensures;

    let m = s[k] as nat;
    let low = s.take(k);
    let high = s.skip(k);
    assert(s =~= low + high);
    Seq::filter_distributes_over_add(low, high, times_below(m));
    assert forall|i: int| 0 <= i < high.len() implies !#[trigger] times_below(m)(high[i]) by {
        assert(high[i] == s[k + i]);
    }
    high.lemma_all_neg_filter_empty(times_below(m));
    low.lemma_filter_len(times_below(m));

    let low2 = s.take(k + 1);
    let high2 = s.skip(k + 1);
    assert(s =~= low2 + high2);
    Seq::filter_distributes_over_add(low2, high2, times_above(m));
    assert forall|i: int| 0 <= i < low2.len() implies !#[trigger] times_above(m)(low2[i]) by {
        assert(low2[i] == s[i]);
    }
    low2.lemma_all_neg_filter_empty(times_above(m));
    high2.lemma_filter_len(times_above(m));
}

/// For an odd number of measurements the median is a measured time with at
/// most half of the measurements strictly faster and at most half strictly
/// slower: the middle measurement, never a value between measurements.
pub proof fn lemma_median_is_middle_measurement(measurements: Seq<StageMeasurement>)
    requires
        measurements.len() % 2 == 1,
    ensures
        median_fits(sorted_elapsed_times(measurements)),
        exists|i: int|
            0 <= i < measurements.len() && #[trigger] elapsed_times(measurements)[i] as nat == median_of_sorted(
                sorted_elapsed_times(measurements),
            ),
        elapsed_times(measurements).filter(times_below(median_of_sorted(sorted_elapsed_times(measurements)))).len()
            <= measurements.len() / 2,
        elapsed_times(measurements).filter(times_above(median_of_sorted(sorted_elapsed_times(measurements)))).len()
            <= measurements.len() / 2,
{
    broadcast use vstd::seq_lib::group_to_multiset_ensures;

    let times = elapsed_times(measurements);
    let sorted = sorted_elapsed_times(measurements);
    lemma_duration_le_total();
    times.lemma_sort_by_ensures(duration_le());
    assert(times.len() == measurements.len());
    assert(times.to_multiset().len() == times.len());
    assert(sorted.to_multiset().len() == sorted.len());
    let n = sorted.len();
    let mid = (n / 2) as int;
    assert forall|x: int, y: int| 0 <= x <= y < n implies sorted[x] <= sorted[y] by {
        if x < y {
            assert(duration_le()(sorted[x], sorted[y]));
        }
    }
    let med = median_of_sorted(sorted);
    assert(med == sorted[mid] as nat);
    assert(sorted.contains(sorted[mid]));
    assert(times.contains(sorted[mid]));
    let i = choose|i: int| 0 <= i < times.len() && times[i] == sorted[mid];
    assert(times[i] as nat == med);
    lemma_sorted_rank(sorted, mid);
    lemma_filter_len_reordered(times, sorted, times_below(med));
    lemma_filter_len_reordered(times, sorted, times_above(med));
}

} // verus!
