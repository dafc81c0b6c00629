//! Width checks that decide whether attention, feed-forward and encoder
//! layers fit together, and the positional-encoding table.
//!
//! A layer's weight matrix has one row per output and one column per input,
//! so its shape gives the layer's output width (rows) and input width
//! (columns).
use vstd::prelude::*;

use crate::transformer::error::{ErrorDetails, ModelError, OperationName};
use crate::transformer::math::{MatrixShape, VectorLength};

verus! {

/// Checks that a projection's bias has one entry per output row.
pub fn validate_projection(operation: &'static str, weight: MatrixShape, bias_len: VectorLength) -> (r: Result<
    (),
    ModelError,
>)
    ensures
        r is Ok <==> weight.rows()@ == bias_len@,
        r matches Err(e) ==> e == (ModelError::InvalidProjection {
            operation: OperationName(operation),
            details: ErrorDetails("weight output dimension must match bias length"),
        }),
{
    if weight.rows().as_usize() != bias_len.as_usize() {
        return Err(ModelError::invalid_projection(operation, "weight output dimension must match bias length"));
    }
    Ok(())
}

/// Checks that the query, key and value projections of one attention head
/// read the same token width and that queries and keys share a width.
pub fn check_attention_head(query: MatrixShape, key: MatrixShape, value: MatrixShape) -> (r: Result<
    (),
    ModelError,
>)
    ensures
        r is Ok <==> query.cols()@ == key.cols()@ && query.cols()@ == value.cols()@ && query.rows()@
            == key.rows()@,
        r matches Err(e) ==> (query.cols()@ != key.cols()@ || query.cols()@ != value.cols()@ ==> e == (
        ModelError::InvalidHeadConfiguration {
            operation: OperationName("AttentionHead::new"),
            details: ErrorDetails("query, key, and value layers must accept the same token width"),
        })),
        r matches Err(e) ==> (query.cols()@ == key.cols()@ && query.cols()@ == value.cols()@ ==> e == (
        ModelError::InvalidHeadConfiguration {
            operation: OperationName("AttentionHead::new"),
            details: ErrorDetails("query and key layers must produce the same head dimension"),
        })),
{
    let input = query.cols().as_usize();
    if input != key.cols().as_usize() || input != value.cols().as_usize() {
        return Err(
            ModelError::invalid_head_configuration(
                "AttentionHead::new",
                "query, key, and value layers must accept the same token width",
            ),
        );
    }
    if query.rows().as_usize() != key.rows().as_usize() {
        return Err(
            ModelError::invalid_head_configuration(
                "AttentionHead::new",
                "query and key layers must produce the same head dimension",
            ),
        );
    }
    Ok(())
}

/// The sum of the widths in `dims`.
pub open spec fn total_width(dims: Seq<VectorLength>) -> nat
    decreases dims.len(),
{
    if dims.len() == 0 {
        0
    } else {
        total_width(dims.drop_last()) + dims.last()@
    }
}

/// Whether every width in `dims` equals the first.
pub open spec fn all_same_width(dims: Seq<VectorLength>) -> bool {
    forall|i: int| 0 <= i < dims.len() ==> #[trigger] dims[i]@ == dims[0]@
}

/// Checks a multi-head attention configuration from its heads' input and
/// value widths (one entry per head) and the output projection's input
/// width: there must be a head, every head must read the same token width,
/// and the concatenated value widths must equal the output input width.
pub fn check_multi_head(
    head_input_dims: &Vec<VectorLength>,
    head_value_dims: &Vec<VectorLength>,
    output_input_dim: VectorLength,
) -> (r: Result<(), ModelError>)
    requires
        head_input_dims@.len() == head_value_dims@.len(),
    ensures
        r is Ok <==> head_input_dims@.len() > 0 && all_same_width(head_input_dims@) && total_width(
            head_value_dims@,
        ) == output_input_dim@,
        r matches Err(e) ==> e is InvalidHeadConfiguration,
        r matches Err(e) ==> (head_input_dims@.len() == 0 ==> e == (ModelError::InvalidHeadConfiguration {
            operation: OperationName("MultiHeadAttention::new"),
            details: ErrorDetails("multi-head attention needs at least one head"),
        })),
        r matches Err(e) ==> (head_input_dims@.len() > 0 && !all_same_width(head_input_dims@) ==> e == (
        ModelError::InvalidHeadConfiguration {
            operation: OperationName("MultiHeadAttention::new"),
            details: ErrorDetails("all heads must accept the same token width"),
        })),
        r matches Err(e) ==> (head_input_dims@.len() > 0 && all_same_width(head_input_dims@) ==> e == (
        ModelError::InvalidHeadConfiguration {
            operation: OperationName("MultiHeadAttention::new"),
            details: ErrorDetails("output layer input dimension must match concatenated head width"),
        })),
{
    if head_input_dims.len() == 0 {
        return Err(
            ModelError::invalid_head_configuration(
                "MultiHeadAttention::new",
                "multi-head attention needs at least one head",
            ),
        );
    }
    let first = head_input_dims[0].as_usize();
    let mut i: usize = 0;
    while i < head_input_dims.len()
        invariant
            head_input_dims@.len() > 0,
            first == head_input_dims@[0]@,
            i <= head_input_dims@.len(),
            forall|j: int| 0 <= j < i ==> #[trigger] head_input_dims@[j]@ == head_input_dims@[0]@,
        decreases head_input_dims@.len() - i,
    {
        if head_input_dims[i].as_usize() != first {
            return Err(
                ModelError::invalid_head_configuration(
                    "MultiHeadAttention::new",
                    "all heads must accept the same token width",
                ),
            );
        }
        i = i + 1;
    }
    let target = output_input_dim.as_usize() as u128;
    let mut total: u128 = 0;
    let mut k: usize = 0;
    while k < head_value_dims.len()
        invariant
            k <= head_value_dims@.len(),
            total == total_width(head_value_dims@.subrange(0, k as int)),
            total <= target,
            target == output_input_dim@,
            target <= usize::MAX,
            head_input_dims@.len() > 0,
            all_same_width(head_input_dims@),
        decreases head_value_dims@.len() - k,
    {
        proof {
            assert(head_value_dims@.subrange(0, k as int + 1).drop_last() =~= head_value_dims@.subrange(
                0,
                k as int,
            ));
            lemma_total_width_prefix_monotone(head_value_dims@, k as int + 1);
        }
        let next = total + head_value_dims[k].as_usize() as u128;
        if next > target {
            return Err(
                ModelError::invalid_head_configuration(
                    "MultiHeadAttention::new",
                    "output layer input dimension must match concatenated head width",
                ),
            );
        }
        total = next;
        k = k + 1;
    }
    proof {
        assert(head_value_dims@.subrange(0, head_value_dims@.len() as int) =~= head_value_dims@);
    }
    if total != target {
        return Err(
            ModelError::invalid_head_configuration(
                "MultiHeadAttention::new",
                "output layer input dimension must match concatenated head width",
            ),
        );
    }
    Ok(())
}

proof fn lemma_total_width_prefix_monotone(dims: Seq<VectorLength>, k: int)
    requires
        0 <= k <= dims.len(),
    ensures
        total_width(dims.subrange(0, k)) <= total_width(dims),
    decreases dims.len(),
{
    if k < dims.len() {
        assert(dims.drop_last().subrange(0, k) =~= dims.subrange(0, k));
        lemma_total_width_prefix_monotone(dims.drop_last(), k);
    } else {
        assert(dims.subrange(0, k) =~= dims);
    }
}

/// Checks that the first feed-forward layer's hidden width is what the
/// second layer reads.
pub fn check_feed_forward(layer1: MatrixShape, layer2: MatrixShape) -> (r: Result<(), ModelError>)
    ensures
        r is Ok <==> layer1.rows()@ == layer2.cols()@,
        r matches Err(e) ==> e == (ModelError::InvalidProjection {
            operation: OperationName("FeedForward::new"),
            details: ErrorDetails("layer1 output dimension must match layer2 input dimension"),
        }),
{
    if layer1.rows().as_usize() != layer2.cols().as_usize() {
        return Err(
            ModelError::invalid_projection(
                "FeedForward::new",
                "layer1 output dimension must match layer2 input dimension",
            ),
        );
    }
    Ok(())
}

/// Checks that every sublayer of an encoder block works at the width the
/// attention produces, so that both residual additions are defined.
pub fn check_encoder_block(
    attention_input: VectorLength,
    attention_output: VectorLength,
    norm1: VectorLength,
    feed_forward_input: VectorLength,
    feed_forward_output: VectorLength,
    norm2: VectorLength,
) -> (r: Result<(), ModelError>)
    ensures
        r is Ok <==> attention_input@ == attention_output@ && norm1@ == attention_output@ && norm2@
            == attention_output@ && feed_forward_input@ == attention_output@ && feed_forward_output@
            == attention_output@,
        r matches Err(e) ==> (attention_input@ != attention_output@ ==> e == (
        ModelError::InvalidHeadConfiguration {
            operation: OperationName("TransformerEncoderBlock::new"),
            details: ErrorDetails("attention must project back to the same token width for residual addition"),
        })),
        r matches Err(e) ==> (attention_input@ == attention_output@ ==> e == (
        ModelError::InvalidHeadConfiguration {
            operation: OperationName("TransformerEncoderBlock::new"),
            details: ErrorDetails("attention, norms, and feed-forward network must share the same model width"),
        })),
{
    let d_model = attention_output.as_usize();
    if attention_input.as_usize() != d_model {
        return Err(
            ModelError::invalid_head_configuration(
                "TransformerEncoderBlock::new",
                "attention must project back to the same token width for residual addition",
            ),
        );
    }
    if norm1.as_usize() != d_model || norm2.as_usize() != d_model || feed_forward_input.as_usize() != d_model
        || feed_forward_output.as_usize() != d_model {
        return Err(
            ModelError::invalid_head_configuration(
                "TransformerEncoderBlock::new",
                "attention, norms, and feed-forward network must share the same model width",
            ),
        );
    }
    Ok(())
}

/// Checks an encoder from its blocks' model widths: there must be a block,
/// and all blocks must share one width, which is returned.
pub fn check_encoder(block_widths: &Vec<VectorLength>) -> (r: Result<VectorLength, ModelError>)
    ensures
        r is Ok <==> block_widths@.len() > 0 && all_same_width(block_widths@),
        r matches Ok(w) ==> w == block_widths@[0],
        r matches Err(e) ==> (block_widths@.len() == 0 <==> e == (ModelError::EmptyInput {
            operation: OperationName("Encoder::new"),
            details: ErrorDetails("encoder must contain at least one block"),
        })),
        r matches Err(e) ==> (block_widths@.len() > 0 ==> e == (ModelError::InvalidHeadConfiguration {
            operation: OperationName("Encoder::new"),
            details: ErrorDetails("all encoder blocks must share the same model width"),
        })),
{
    if block_widths.len() == 0 {
        return Err(ModelError::empty_input("Encoder::new", "encoder must contain at least one block"));
    }
    let first = block_widths[0];
    let mut i: usize = 0;
    while i < block_widths.len()
        invariant
            block_widths@.len() > 0,
            first == block_widths@[0],
            i <= block_widths@.len(),
            forall|j: int| 0 <= j < i ==> #[trigger] block_widths@[j]@ == block_widths@[0]@,
        decreases block_widths@.len() - i,
    {
        if block_widths[i].as_usize() != first.as_usize() {
            return Err(
                ModelError::invalid_head_configuration(
                    "Encoder::new",
                    "all encoder blocks must share the same model width",
                ),
            );
        }
        i = i + 1;
    }
    Ok(first)
}

/// A table of sinusoidal positional encodings for one model width.
#[derive(Debug, Clone, Copy, PartialEq, Eq)]
pub struct PositionalEncodingTable {
    d_model: VectorLength,
}

impl PositionalEncodingTable {
    /// Creates a positional encoding table for a given model width.
    pub fn new(d_model: VectorLength) -> (t: Self)
        ensures
            t.d_model() == d_model,
    {
        PositionalEncodingTable { d_model }
    }

    /// The model width.
    pub closed spec fn spec_d_model(&self) -> VectorLength {
        self.d_model
    }

    /// Returns the model width.
    #[verifier::when_used_as_spec(spec_d_model)]
    pub fn d_model(&self) -> (d: VectorLength)
        ensures
            d == self.spec_d_model(),
    {
        self.d_model
    }
}

} // verus!
