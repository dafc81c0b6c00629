//! Typed Transformer architecture configuration.
//!
//! Hyperparameters become semantic values before they are combined: the model
//! width must divide evenly across the attention heads, and the encoder
//! parameter estimate is computed with checked `u128` arithmetic.
use vstd::prelude::*;
use vstd::std_specs::convert::TryFromSpecImpl;
use vstd::std_specs::ops::{AddSpecImpl, DivSpecImpl, MulSpecImpl};

use crate::text::{decimal_chars, decimal_string};
use crate::transformer::error::{ErrorDetails, ModelError, OperationName};
use crate::transformer::math::{vector_length_from, VectorLength};

verus! {

/// Number of encoder blocks in the Transformer stack.
#[derive(Debug, Clone, Copy, PartialEq, Eq, PartialOrd, Ord)]
pub struct LayerCount(usize);

impl View for LayerCount {
    type V = nat;

    closed spec fn view(&self) -> nat {
        self.0 as nat
    }
}

impl LayerCount {
    #[verifier::type_invariant]
    spec fn positive(self) -> bool {
        self.0 > 0
    }

    /// The value as a raw integer.
    pub fn as_usize(self) -> (v: usize)
        ensures
            v == self@,
            v > 0,
    {
        proof {
            use_type_invariant(&self);
        }
        self.0
    }

    /// Renders the count in decimal.
    pub fn to_string(&self) -> (s: String)
        ensures
            s@ == decimal_chars(self@),
    {
        decimal_string(self.0 as u128)
    }
}

/// What `LayerCount::try_from` returns for `value`.
pub closed spec fn layer_count_from(value: usize) -> Result<LayerCount, ModelError> {
    if value == 0 {
        Err(ModelError::EmptyInput {
            operation: OperationName("LayerCount::try_from"),
            details: ErrorDetails("layer count must be greater than zero"),
        })
    } else {
        Ok(LayerCount(value))
    }
}

impl TryFrom<usize> for LayerCount {
    type Error = ModelError;

    /// Accepts any positive count.
    fn try_from(value: usize) -> (r: Result<LayerCount, ModelError>)
        ensures
            r == layer_count_from(value),
            r is Ok <==> value > 0,
            r matches Ok(c) ==> c@ == value,
            r matches Err(e) ==> e == (ModelError::EmptyInput {
                operation: OperationName("LayerCount::try_from"),
                details: ErrorDetails("layer count must be greater than zero"),
            }),
    {
        if value == 0 {
            return Err(ModelError::empty_input("LayerCount::try_from", "layer count must be greater than zero"));
        }
        Ok(LayerCount(value))
    }
}

impl TryFromSpecImpl<usize> for LayerCount {
    open spec fn obeys_try_from_spec() -> bool {
        true
    }

    open spec fn try_from_spec(value: usize) -> Result<LayerCount, ModelError> {
        layer_count_from(value)
    }
}

/// Number of attention heads in one multi-head attention block.
#[derive(Debug, Clone, Copy, PartialEq, Eq, PartialOrd, Ord)]
pub struct HeadCount(usize);

impl View for HeadCount {
    type V = nat;

    closed spec fn view(&self) -> nat {
        self.0 as nat
    }
}

impl HeadCount {
    #[verifier::type_invariant]
    spec fn positive(self) -> bool {
        self.0 > 0
    }

    /// The value as a raw integer.
    pub fn as_usize(self) -> (v: usize)
        ensures
            v == self@,
            v > 0,
    {
        proof {
            use_type_invariant(&self);
        }
        self.0
    }

    /// Renders the count in decimal.
    pub fn to_string(&self) -> (s: String)
        ensures
            s@ == decimal_chars(self@),
    {
        decimal_string(self.0 as u128)
    }
}

/// What `HeadCount::try_from` returns for `value`.
pub closed spec fn head_count_from(value: usize) -> Result<HeadCount, ModelError> {
    if value == 0 {
        Err(ModelError::EmptyInput {
            operation: OperationName("HeadCount::try_from"),
            details: ErrorDetails("head count must be greater than zero"),
        })
    } else {
        Ok(HeadCount(value))
    }
}

impl TryFrom<usize> for HeadCount {
    type Error = ModelError;

    /// Accepts any positive count.
    fn try_from(value: usize) -> (r: Result<HeadCount, ModelError>)
        ensures
            r == head_count_from(value),
            r is Ok <==> value > 0,
            r matches Ok(c) ==> c@ == value,
            r matches Err(e) ==> e == (ModelError::EmptyInput {
                operation: OperationName("HeadCount::try_from"),
                details: ErrorDetails("head count must be greater than zero"),
            }),
    {
        if value == 0 {
            return Err(ModelError::empty_input("HeadCount::try_from", "head count must be greater than zero"));
        }
        Ok(HeadCount(value))
    }
}

impl TryFromSpecImpl<usize> for HeadCount {
    open spec fn obeys_try_from_spec() -> bool {
        true
    }

    open spec fn try_from_spec(value: usize) -> Result<HeadCount, ModelError> {
        head_count_from(value)
    }
}

/// Width of the hidden feed-forward projection inside one Transformer block.
#[derive(Debug, Clone, Copy, PartialEq, Eq, PartialOrd, Ord)]
pub struct FeedForwardWidth(VectorLength);

impl View for FeedForwardWidth {
    type V = nat;

    closed spec fn view(&self) -> nat {
        self.0@
    }
}

impl FeedForwardWidth {
    /// Creates a feed-forward width from a checked non-zero vector length.
    pub fn new(value: VectorLength) -> (w: Self)
        ensures
            w@ == value@,
    {
        FeedForwardWidth(value)
    }

    /// The value as a raw integer.
    pub fn as_usize(self) -> (v: usize)
        ensures
            v == self@,
            v > 0,
    {
        self.0.as_usize()
    }

    /// Renders the width in decimal.
    pub fn to_string(&self) -> (s: String)
        ensures
            s@ == decimal_chars(self@),
    {
        self.0.to_string()
    }
}

/// What `FeedForwardWidth::try_from` returns for `value`.
pub closed spec fn feed_forward_width_from(value: usize) -> Result<FeedForwardWidth, ModelError> {
    match vector_length_from(value) {
        Ok(l) => Ok(FeedForwardWidth(l)),
        Err(e) => Err(e),
    }
}

impl TryFrom<usize> for FeedForwardWidth {
    type Error = ModelError;

    /// Accepts any positive width.
    fn try_from(value: usize) -> (r: Result<FeedForwardWidth, ModelError>)
        ensures
            r == feed_forward_width_from(value),
            r is Ok <==> value > 0,
            r matches Ok(w) ==> w@ == value,
            r matches Err(e) ==> e == (ModelError::EmptyInput {
                operation: OperationName("VectorLength::try_from"),
                details: ErrorDetails("length must be greater than zero"),
            }),
    {
        match VectorLength::try_from(value) {
            Ok(l) => Ok(FeedForwardWidth(l)),
            Err(e) => Err(e),
        }
    }
}

impl TryFromSpecImpl<usize> for FeedForwardWidth {
    open spec fn obeys_try_from_spec() -> bool {
        true
    }

    open spec fn try_from_spec(value: usize) -> Result<FeedForwardWidth, ModelError> {
        feed_forward_width_from(value)
    }
}

/// The error for a model width that leaves a remainder across the heads.
pub open spec fn uneven_heads_error() -> ModelError {
    ModelError::InvalidHeadConfiguration {
        operation: OperationName("VectorLength::div"),
        details: ErrorDetails("model width must divide evenly across attention heads"),
    }
}

/// What `width / heads` returns.
pub closed spec fn head_width_split(width: VectorLength, heads: HeadCount) -> Result<VectorLength, ModelError> {
    if width@ % heads@ != 0 {
        Err(uneven_heads_error())
    } else {
        vector_length_from((width@ / heads@) as usize)
    }
}

impl std::ops::Div<HeadCount> for VectorLength {
    type Output = Result<VectorLength, ModelError>;

    /// Per-head width; fails with `InvalidHeadConfiguration` when the width
    /// does not divide evenly across the heads.
    fn div(self, right: HeadCount) -> (r: Result<VectorLength, ModelError>)
        ensures
            r == head_width_split(self, right),
            r is Ok <==> self@ % right@ == 0,
            r matches Ok(w) ==> w@ == self@ / right@ && w@ * right@ == self@,
            r matches Err(e) ==> e == (ModelError::InvalidHeadConfiguration {
                operation: OperationName("VectorLength::div"),
                details: ErrorDetails("model width must divide evenly across attention heads"),
            }),
    {
        let width = self.as_usize();
        let heads = right.as_usize();
        if width % heads != 0 {
            return Err(
                ModelError::invalid_head_configuration(
                    "VectorLength::div",
                    "model width must divide evenly across attention heads",
                ),
            );
        }
        proof {
            lemma_exact_quotient(width as int, heads as int);
        }
        VectorLength::try_from(width / heads)
    }
}

impl DivSpecImpl<HeadCount> for VectorLength {
    open spec fn obeys_div_spec() -> bool {
        true
    }

    open spec fn div_req(self, rhs: HeadCount) -> bool {
        true
    }

    open spec fn div_spec(self, rhs: HeadCount) -> Result<VectorLength, ModelError> {
        head_width_split(self, rhs)
    }
}

proof fn lemma_exact_quotient(n: int, d: int)
    requires
        n > 0,
        d > 0,
        n % d == 0,
    ensures
        n / d > 0,
        (n / d) * d == n,
{
    assert((n / d) * d == n) by (nonlinear_arith)
        requires
            d > 0,
            n % d == 0,
    ;
    assert(n / d > 0) by (nonlinear_arith)
        requires
            n > 0,
            d > 0,
            (n / d) * d == n,
    ;
}

/// Estimated number of learned scalar parameters.
#[derive(Debug, Clone, Copy, PartialEq, Eq, PartialOrd, Ord)]
pub struct ParameterCount(u128);

impl View for ParameterCount {
    type V = nat;

    closed spec fn view(&self) -> nat {
        self.0 as nat
    }
}

impl ParameterCount {
    #[verifier::type_invariant]
    spec fn positive(self) -> bool {
        self.0 > 0
    }

    fn from_raw(operation: &'static str, value: u128) -> (r: Result<Self, ModelError>)
        ensures
            r is Ok <==> value > 0,
            r matches Ok(p) ==> p@ == value,
            r matches Err(e) ==> e == (ModelError::EmptyInput {
                operation: OperationName(operation),
                details: ErrorDetails("parameter count must be greater than zero"),
            }),
    {
        if value == 0 {
            return Err(ModelError::empty_input(operation, "parameter count must be greater than zero"));
        }
        Ok(ParameterCount(value))
    }

    /// The count as a raw integer.
    pub fn as_u128(self) -> (v: u128)
        ensures
            v == self@,
            v > 0,
    {
        proof {
            use_type_invariant(&self);
        }
        self.0
    }

    /// Renders the count in decimal.
    pub fn to_string(&self) -> (s: String)
        ensures
            s@ == decimal_chars(self@),
    {
        decimal_string(self.0)
    }
}

/// What `ParameterCount::try_from` returns for `value`.
pub closed spec fn parameter_count_from(value: u128) -> Result<ParameterCount, ModelError> {
    if value == 0 {
        Err(ModelError::EmptyInput {
            operation: OperationName("ParameterCount::try_from"),
            details: ErrorDetails("parameter count must be greater than zero"),
        })
    } else {
        Ok(ParameterCount(value))
    }
}

impl TryFrom<u128> for ParameterCount {
    type Error = ModelError;

    /// Accepts any positive count.
    fn try_from(value: u128) -> (r: Result<ParameterCount, ModelError>)
        ensures
            r == parameter_count_from(value),
            r is Ok <==> value > 0,
            r matches Ok(p) ==> p@ == value,
            r matches Err(e) ==> e == (ModelError::EmptyInput {
                operation: OperationName("ParameterCount::try_from"),
                details: ErrorDetails("parameter count must be greater than zero"),
            }),
    {
        ParameterCount::from_raw("ParameterCount::try_from", value)
    }
}

impl TryFromSpecImpl<u128> for ParameterCount {
    open spec fn obeys_try_from_spec() -> bool {
        true
    }

    open spec fn try_from_spec(value: u128) -> Result<ParameterCount, ModelError> {
        parameter_count_from(value)
    }
}

/// The error for a parameter count that left `u128`.
pub open spec fn parameter_overflow(operation: &'static str) -> ModelError {
    ModelError::NumericalIssue {
        operation: OperationName(operation),
        details: ErrorDetails("parameter count exceeded u128"),
    }
}

/// What `left + right` returns for two parameter counts.
pub closed spec fn parameter_sum(left: ParameterCount, right: ParameterCount) -> Result<ParameterCount, ModelError> {
    if left.0 + right.0 > u128::MAX {
        Err(parameter_overflow("ParameterCount::add"))
    } else {
        Ok(ParameterCount((left.0 + right.0) as u128))
    }
}

impl std::ops::Add for ParameterCount {
    type Output = Result<ParameterCount, ModelError>;

    /// Adds two counts; fails with `NumericalIssue` past `u128`.
    fn add(self, right: ParameterCount) -> (r: Result<ParameterCount, ModelError>)
        ensures
            r == parameter_sum(self, right),
            r is Ok <==> self@ + right@ <= u128::MAX,
            r matches Ok(p) ==> p@ == self@ + right@,
            r matches Err(e) ==> e == (ModelError::NumericalIssue {
                operation: OperationName("ParameterCount::add"),
                details: ErrorDetails("parameter count exceeded u128"),
            }),
    {
        proof {
            use_type_invariant(&self);
        }
        match self.0.checked_add(right.0) {
            Some(total) => ParameterCount::from_raw("ParameterCount::add", total),
            None => Err(ModelError::numerical_issue("ParameterCount::add", "parameter count exceeded u128")),
        }
    }
}

impl AddSpecImpl for ParameterCount {
    open spec fn obeys_add_spec() -> bool {
        true
    }

    open spec fn add_req(self, rhs: ParameterCount) -> bool {
        true
    }

    open spec fn add_spec(self, rhs: ParameterCount) -> Result<ParameterCount, ModelError> {
        parameter_sum(self, rhs)
    }
}

fn checked_product(operation: &'static str, left: u128, right: u128) -> (r: Result<u128, ModelError>)
    ensures
        r is Ok <==> left * right <= u128::MAX,
        r matches Ok(v) ==> v == left * right,
        r matches Err(e) ==> e == parameter_overflow(operation),
{
    match left.checked_mul(right) {
        Some(v) => Ok(v),
        None => Err(ModelError::numerical_issue(operation, "parameter count exceeded u128")),
    }
}

/// What `count * layers` returns.
pub closed spec fn parameter_product(count: ParameterCount, layers: LayerCount) -> Result<ParameterCount, ModelError> {
    if count.0 * layers.0 > u128::MAX {
        Err(parameter_overflow("ParameterCount::mul"))
    } else {
        Ok(ParameterCount((count.0 * layers.0) as u128))
    }
}

impl std::ops::Mul<LayerCount> for ParameterCount {
    type Output = Result<ParameterCount, ModelError>;

    /// Repeats a per-layer count over the stack.
    fn mul(self, right: LayerCount) -> (r: Result<ParameterCount, ModelError>)
        ensures
            r == parameter_product(self, right),
            r is Ok <==> self@ * right@ <= u128::MAX,
            r matches Ok(p) ==> p@ == self@ * right@,
            r matches Err(e) ==> e == parameter_overflow("ParameterCount::mul"),
    {
        proof {
            use_type_invariant(&self);
            use_type_invariant(&right);
            assert(self.0 * right.0 >= 1) by (nonlinear_arith)
                requires
                    self.0 >= 1,
                    right.0 >= 1,
            ;
        }
        let total = checked_product("ParameterCount::mul", self.0, right.as_usize() as u128)?;
        ParameterCount::from_raw("ParameterCount::mul", total)
    }
}

impl MulSpecImpl<LayerCount> for ParameterCount {
    open spec fn obeys_mul_spec() -> bool {
        true
    }

    open spec fn mul_req(self, rhs: LayerCount) -> bool {
        true
    }

    open spec fn mul_spec(self, rhs: LayerCount) -> Result<ParameterCount, ModelError> {
        parameter_product(self, rhs)
    }
}

/// Learned parameters of one encoder block without embeddings, for model
/// width `d` and feed-forward width `f`: the query, key, value and output
/// projections (`4 d^2` weights, `4 d` biases), the two feed-forward
/// projections (`2 d f` weights, `f + d` biases) and two layer norms (`4 d`).
pub open spec fn encoder_block_parameters(d: nat, f: nat) -> nat {
    4 * (d * d) + 4 * d + 2 * (d * f) + (f + d) + 4 * d
}

/// Encoder architecture hyperparameters after validation.
#[derive(Debug, Clone, Copy, PartialEq, Eq)]
pub struct TransformerConfig {
    model_width: VectorLength,
    layer_count: LayerCount,
    head_count: HeadCount,
    feed_forward_width: FeedForwardWidth,
}

impl TransformerConfig {
    #[verifier::type_invariant]
    spec fn heads_divide_width(self) -> bool {
        self.model_width@ % self.head_count@ == 0
    }

    /// Creates a checked architecture configuration. The model width must
    /// divide evenly across the attention heads.
    pub fn new(
        model_width: VectorLength,
        layer_count: LayerCount,
        head_count: HeadCount,
        feed_forward_width: FeedForwardWidth,
    ) -> (r: Result<Self, ModelError>)
        ensures
            r is Ok <==> model_width@ % head_count@ == 0,
            r matches Ok(c) ==> c.model_width() == model_width && c.layer_count() == layer_count
                && c.head_count() == head_count && c.feed_forward_width() == feed_forward_width,
            r matches Err(e) ==> e == uneven_heads_error(),
    {
        let _head_width = (model_width / head_count)?;
        Ok(TransformerConfig { model_width, layer_count, head_count, feed_forward_width })
    }

    /// The shared token width.
    pub closed spec fn spec_model_width(self) -> VectorLength {
        self.model_width
    }

    /// The number of encoder blocks.
    pub closed spec fn spec_layer_count(self) -> LayerCount {
        self.layer_count
    }

    /// The number of attention heads per block.
    pub closed spec fn spec_head_count(self) -> HeadCount {
        self.head_count
    }

    /// The hidden width of the feed-forward map.
    pub closed spec fn spec_feed_forward_width(self) -> FeedForwardWidth {
        self.feed_forward_width
    }

    /// Returns the shared token width, usually called `d_model`.
    #[verifier::when_used_as_spec(spec_model_width)]
    pub fn model_width(self) -> (w: VectorLength)
        ensures
            w == self.spec_model_width(),
    {
        self.model_width
    }

    /// Returns the number of encoder blocks.
    #[verifier::when_used_as_spec(spec_layer_count)]
    pub fn layer_count(self) -> (l: LayerCount)
        ensures
            l == self.spec_layer_count(),
    {
        self.layer_count
    }

    /// Returns the number of attention heads per block.
    #[verifier::when_used_as_spec(spec_head_count)]
    pub fn head_count(self) -> (h: HeadCount)
        ensures
            h == self.spec_head_count(),
    {
        self.head_count
    }

    /// Returns the hidden width of the feed-forward map.
    #[verifier::when_used_as_spec(spec_feed_forward_width)]
    pub fn feed_forward_width(self) -> (f: FeedForwardWidth)
        ensures
            f == self.spec_feed_forward_width(),
    {
        self.feed_forward_width
    }

    /// Returns the per-head attention width, `model_width / head_count`;
    /// it always succeeds on a checked configuration.
    pub fn attention_head_width(self) -> (r: Result<VectorLength, ModelError>)
        ensures
            r matches Ok(w) && w@ == self.model_width()@ / self.head_count()@ && w@ * self.head_count()@
                == self.model_width()@,
    {
        proof {
            use_type_invariant(&self);
        }
        self.model_width / self.head_count
    }

    /// The encoder parameter estimate of this configuration.
    pub open spec fn spec_parameter_estimate(self) -> nat {
        encoder_block_parameters(self.model_width()@, self.feed_forward_width()@) * self.layer_count()@
    }

    /// The error of an estimate past `u128`: a weight term (`4 d^2` or
    /// `2 d f`) that does not fit names the estimate itself, a per-layer sum
    /// that does not fit names the addition, and otherwise the product with
    /// the layer count overflowed.
    pub open spec fn spec_estimate_error(self) -> ModelError {
        let d = self.model_width()@;
        let f = self.feed_forward_width()@;
        if 4 * (d * d) > u128::MAX || 2 * (d * f) > u128::MAX {
            parameter_overflow("TransformerConfig::encoder_parameter_estimate")
        } else if encoder_block_parameters(d, f) > u128::MAX {
            parameter_overflow("ParameterCount::add")
        } else {
            parameter_overflow("ParameterCount::mul")
        }
    }

    /// Estimates learned parameters for an encoder stack without embeddings:
    /// `encoder_block_parameters(d, f) * layers`. Fails with `NumericalIssue`
    /// when the estimate exceeds `u128`.
    pub fn encoder_parameter_estimate(self) -> (r: Result<ParameterCount, ModelError>)
        ensures
            r is Ok <==> self.spec_parameter_estimate() <= u128::MAX,
            r matches Ok(p) ==> p@ == self.spec_parameter_estimate(),
            r matches Err(e) ==> e == self.spec_estimate_error(),
    {
        let op = "TransformerConfig::encoder_parameter_estimate";
        let d = self.model_width.as_usize() as u128;
        let f = self.feed_forward_width.as_usize() as u128;
        proof {
            use_type_invariant(&self.layer_count);
            lemma_estimate_terms(d as int, f as int, self.layer_count@ as int);
        }
        let d_squared = checked_product(op, d, d)?;
        let attention_weights = ParameterCount::from_raw(op, checked_product(op, 4, d_squared)?)?;
        let attention_biases = ParameterCount::from_raw(op, checked_product(op, 4, d)?)?;
        let d_times_f = checked_product(op, d, f)?;
        let feed_forward_weights = ParameterCount::from_raw(op, checked_product(op, 2, d_times_f)?)?;
        let feed_forward_bias_total = match f.checked_add(d) {
            Some(v) => v,
            None => {
                return Err(ModelError::numerical_issue(op, "parameter count exceeded u128"));
            },
        };
        let feed_forward_biases = ParameterCount::from_raw(op, feed_forward_bias_total)?;
        let layer_norm_parameters = ParameterCount::from_raw(op, checked_product(op, 4, d)?)?;
        let per_layer = (attention_weights + attention_biases)?;
        let per_layer = (per_layer + feed_forward_weights)?;
        let per_layer = (per_layer + feed_forward_biases)?;
        let per_layer = (per_layer + layer_norm_parameters)?;
        per_layer * self.layer_count
    }
}

proof fn lemma_estimate_terms(d: int, f: int, l: int)
    requires
        d >= 1,
        f >= 1,
        l >= 1,
    ensures
        d * d >= 1,
        d * f >= 1,
        4 * (d * d) + 4 * d + 2 * (d * f) + (f + d) + 4 * d <= (4 * (d * d) + 4 * d + 2 * (d * f) + (f
            + d) + 4 * d) * l,
{
    assert(d * d >= 1) by (nonlinear_arith)
        requires
            d >= 1,
    ;
    assert(d * f >= 1) by (nonlinear_arith)
        requires
            d >= 1,
            f >= 1,
    ;
    let p = 4 * (d * d) + 4 * d + 2 * (d * f) + (f + d) + 4 * d;
    assert(p <= p * l) by (nonlinear_arith)
        requires
            p >= 1,
            l >= 1,
    ;
}

} // verus!
