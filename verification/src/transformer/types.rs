//! Token counts, token indices and checked token sequences.
use vstd::prelude::*;
use vstd::std_specs::convert::TryFromSpecImpl;

use crate::text::{decimal_chars, decimal_string};
use crate::transformer::error::{AvailableLength, ErrorDetails, ModelError, OperationName, RequestedIndex};
use crate::transformer::math::VectorLength;

verus! {

/// Number of tokens, scores, weights, or head outputs.
#[derive(Debug, Clone, Copy, PartialEq, Eq, PartialOrd, Ord)]
pub struct TokenCount(usize);

impl View for TokenCount {
    type V = nat;

    closed spec fn view(&self) -> nat {
        self.0 as nat
    }
}

impl TokenCount {
    #[verifier::type_invariant]
    spec fn positive(self) -> bool {
        self.0 > 0
    }

    /// The count as a raw integer.
    pub fn as_usize(self) -> (v: usize)
        ensures
            v == self@,
            v > 0,
    {
        proof {
            use_type_invariant(&self);
        }
        self.0
    }

    /// Renders the count in decimal.
    pub fn to_string(&self) -> (s: String)
        ensures
            s@ == decimal_chars(self@),
    {
        decimal_string(self.0 as u128)
    }
}

/// What `TokenCount::try_from` returns for `value`.
pub closed spec fn token_count_from(value: usize) -> Result<TokenCount, ModelError> {
    if value == 0 {
        Err(ModelError::EmptyInput {
            operation: OperationName("TokenCount::try_from"),
            details: ErrorDetails("token count must be greater than zero"),
        })
    } else {
        Ok(TokenCount(value))
    }
}

impl TryFrom<usize> for TokenCount {
    type Error = ModelError;

    /// Accepts any positive count.
    fn try_from(value: usize) -> (r: Result<TokenCount, ModelError>)
        ensures
            r == token_count_from(value),
            r is Ok <==> value > 0,
            r matches Ok(c) ==> c@ == value,
            r matches Err(e) ==> e == (ModelError::EmptyInput {
                operation: OperationName("TokenCount::try_from"),
                details: ErrorDetails("token count must be greater than zero"),
            }),
    {
        if value == 0 {
            return Err(ModelError::empty_input("TokenCount::try_from", "token count must be greater than zero"));
        }
        Ok(TokenCount(value))
    }
}

impl TryFromSpecImpl<usize> for TokenCount {
    open spec fn obeys_try_from_spec() -> bool {
        true
    }

    open spec fn try_from_spec(value: usize) -> Result<TokenCount, ModelError> {
        token_count_from(value)
    }
}

impl TokenCount {
    /// A count already known to be positive.
    pub fn from_known_nonzero(value: usize) -> (c: Self)
        requires
            value > 0,
        ensures
            c@ == value,
    {
        TokenCount(value)
    }
}

/// Zero-based token index.
#[derive(Debug, Clone, Copy, PartialEq, Eq, PartialOrd, Ord)]
pub struct TokenIndex(usize);

impl View for TokenIndex {
    type V = nat;

    closed spec fn view(&self) -> nat {
        self.0 as nat
    }
}

impl TokenIndex {
    /// Wraps a raw position.
    pub fn from_raw(value: usize) -> (i: Self)
        ensures
            i@ == value,
    {
        TokenIndex(value)
    }

    /// The index as a raw integer.
    pub fn as_usize(self) -> (v: usize)
        ensures
            v == self@,
    {
        self.0
    }

    /// Renders the index in decimal.
    pub fn to_string(&self) -> (s: String)
        ensures
            s@ == decimal_chars(self@),
    {
        decimal_string(self.0 as u128)
    }
}

/// What `TokenIndex::try_from` returns: every index is accepted.
pub closed spec fn token_index_from(value: usize) -> Result<TokenIndex, ModelError> {
    Ok(TokenIndex(value))
}

impl TryFrom<usize> for TokenIndex {
    type Error = ModelError;

    /// Accepts any index; bounds are checked where the index is used.
    fn try_from(value: usize) -> (r: Result<TokenIndex, ModelError>)
        ensures
            r == token_index_from(value),
            r matches Ok(i) && i@ == value,
    {
        Ok(TokenIndex(value))
    }
}

impl TryFromSpecImpl<usize> for TokenIndex {
    open spec fn obeys_try_from_spec() -> bool {
        true
    }

    open spec fn try_from_spec(value: usize) -> Result<TokenIndex, ModelError> {
        token_index_from(value)
    }
}

/// Outputs from running one attention head across a sequence: one output
/// per token, never empty.
#[derive(Debug, PartialEq)]
pub struct AttentionOutputSequence<T>(Vec<T>);

impl<T: Clone> Clone for AttentionOutputSequence<T> {
    fn clone(&self) -> (c: Self)
        ensures
            c@.len() == self@.len(),
            forall|i: int| 0 <= i < self@.len() ==> cloned::<T>(#[trigger] self@[i], c@[i]),
    {
        proof {
            use_type_invariant(self);
        }
        AttentionOutputSequence(self.0.clone())
    }
}

impl<T> View for AttentionOutputSequence<T> {
    type V = Seq<T>;

    closed spec fn view(&self) -> Seq<T> {
        self.0@
    }
}

impl<T> AttentionOutputSequence<T> {
    #[verifier::type_invariant]
    spec fn non_empty(self) -> bool {
        self.0@.len() > 0
    }

    /// Creates a non-empty output sequence.
    pub fn from_outputs(outputs: Vec<T>) -> (r: Result<Self, ModelError>)
        ensures
            r is Ok <==> outputs@.len() > 0,
            r matches Ok(s) ==> s@ == outputs@,
            r matches Err(e) ==> e == (ModelError::EmptyInput {
                operation: OperationName("AttentionOutputSequence::from_outputs"),
                details: ErrorDetails("outputs cannot be empty"),
            }),
    {
        if outputs.len() == 0 {
            return Err(ModelError::empty_input("AttentionOutputSequence::from_outputs", "outputs cannot be empty"));
        }
        assert(outputs@.len() > 0);
        Ok(AttentionOutputSequence(outputs))
    }

    /// Returns output count.
    pub fn len(&self) -> (c: TokenCount)
        ensures
            c@ == self@.len(),
    {
        proof {
            use_type_invariant(self);
        }
        TokenCount::from_known_nonzero(self.0.len())
    }

    /// The outputs in token order.
    pub fn outputs(&self) -> (o: &[T])
        ensures
            o@ == self@,
    {
        self.0.as_slice()
    }

    /// Returns one output by token index, or `InvalidTokenIndex` past the end.
    pub fn output(&self, index: TokenIndex) -> (r: Result<&T, ModelError>)
        ensures
            r is Ok <==> index@ < self@.len(),
            r matches Ok(t) ==> *t == self@[index@ as int],
            r matches Err(e) ==> e == (ModelError::InvalidTokenIndex {
                operation: OperationName("AttentionOutputSequence::output"),
                index: RequestedIndex(index@ as usize),
                len: AvailableLength(self@.len() as usize),
            }),
    {
        if index.as_usize() >= self.0.len() {
            return Err(
                ModelError::invalid_token_index("AttentionOutputSequence::output", index.as_usize(), self.0.len()),
            );
        }
        Ok(&self.0[index.as_usize()])
    }
}

/// Whether every width equals the first.
pub open spec fn uniform_widths(widths: Seq<VectorLength>) -> bool {
    forall|i: int| 0 <= i < widths.len() ==> #[trigger] widths[i]@ == widths[0]@
}

/// Index of the first width that differs from the first, if any.
pub open spec fn first_width_mismatch(widths: Seq<VectorLength>, i: int) -> bool {
    &&& 0 < i < widths.len()
    &&& widths[i]@ != widths[0]@
    &&& forall|j: int| 0 <= j < i ==> #[trigger] widths[j]@ == widths[0]@
}

/// Checks that a non-empty sequence of token (or value) widths shares one
/// width and returns it. An empty sequence fails with `EmptyInput` carrying
/// `empty_details`; the first token whose width differs from the first
/// token's fails with `InconsistentTokenDimensions`.
pub fn check_uniform_widths(
    operation: &'static str,
    empty_details: &'static str,
    widths: &Vec<VectorLength>,
) -> (r: Result<VectorLength, ModelError>)
    ensures
        r is Ok <==> widths@.len() > 0 && uniform_widths(widths@),
        r matches Ok(w) ==> w == widths@[0],
        r matches Err(e) ==> (widths@.len() == 0 <==> e == (ModelError::EmptyInput {
            operation: OperationName(operation),
            details: ErrorDetails(empty_details),
        })),
        r matches Err(e) ==> (widths@.len() > 0 ==> exists|i: int|
            first_width_mismatch(widths@, i) && e == (ModelError::InconsistentTokenDimensions {
                operation: OperationName(operation),
                token_index: RequestedIndex(i as usize),
                expected_dim: AvailableLength(widths@[0]@ as usize),
                actual_dim: AvailableLength(widths@[i]@ as usize),
            })),
{
    if widths.len() == 0 {
        return Err(ModelError::empty_input(operation, empty_details));
    }
    let expected = widths[0];
    let mut index: usize = 0;
    while index < widths.len()
        invariant
            widths@.len() > 0,
            expected == widths@[0],
            index <= widths@.len(),
            forall|j: int| 0 <= j < index ==> #[trigger] widths@[j]@ == widths@[0]@,
        decreases widths@.len() - index,
    {
        let width = widths[index];
        if width.as_usize() != expected.as_usize() {
            proof {
                assert(index > 0);
                assert(first_width_mismatch(widths@, index as int));
            }
            return Err(
                ModelError::inconsistent_token_dimensions(
                    operation,
                    index,
                    expected.as_usize(),
                    width.as_usize(),
                ),
            );
        }
        index = index + 1;
    }
    Ok(expected)
}

} // verus!
