//! Integer bookkeeping for tiny scaling studies.
//!
//! ```text
//! ExperimentConfig -> TrainingRun -> compute budget
//! candidate run + baseline run -> compute tradeoff -> recommendation
//! ```
//!
//! Raw numbers enter through `TryFrom` adapters that reject zero. The
//! parameter estimate is `12 * width^2 * layers`, and the training budget is
//! `6 * parameters * tokens`; both are computed with checked arithmetic.
use vstd::prelude::*;
use vstd::std_specs::convert::TryFromSpecImpl;
use vstd::std_specs::ops::{AddSpecImpl, MulSpecImpl};
use vstd::string::*;

use crate::text::{decimal_chars, decimal_string, is_blank, is_blank_text};

pub mod error;

pub use error::ScalingError as Error;

use error::{ErrorDetails, OperationName, ScalingError};

verus! {

/// Hidden width used by one tiny experiment.
#[derive(Debug, Clone, Copy, PartialEq, Eq, PartialOrd, Ord)]
pub struct ModelWidth(usize);

impl View for ModelWidth {
    type V = nat;

    closed spec fn view(&self) -> nat {
        self.0 as nat
    }
}

impl ModelWidth {
    #[verifier::type_invariant]
    spec fn positive(self) -> bool {
        self.0 > 0
    }

    /// The value as a raw integer.
    pub fn as_usize(self) -> (v: usize)
        ensures
            v == self@,
            v > 0,
    {
        proof {
            use_type_invariant(&self);
        }
        self.0
    }

    /// Renders the count in decimal.
    pub fn to_string(&self) -> (s: String)
        ensures
            s@ == decimal_chars(self@),
    {
        decimal_string(self.0 as u128)
    }
}

/// What `ModelWidth::try_from` returns for `value`.
pub closed spec fn model_width_from(value: usize) -> Result<ModelWidth, ScalingError> {
    if value == 0 {
        Err(ScalingError::EmptyInput {
            operation: OperationName("ModelWidth::try_from"),
            details: ErrorDetails("model width must be greater than zero"),
        })
    } else {
        Ok(ModelWidth(value))
    }
}

impl TryFrom<usize> for ModelWidth {
    type Error = ScalingError;

    /// Accepts any positive count.
    fn try_from(value: usize) -> (r: Result<ModelWidth, ScalingError>)
        ensures
            r == model_width_from(value),
            r is Ok <==> value > 0,
            r matches Ok(c) ==> c@ == value,
            r matches Err(e) ==> e == (ScalingError::EmptyInput {
                operation: OperationName("ModelWidth::try_from"),
                details: ErrorDetails("model width must be greater than zero"),
            }),
    {
        if value == 0 {
            return Err(ScalingError::empty_input("ModelWidth::try_from", "model width must be greater than zero"));
        }
        Ok(ModelWidth(value))
    }
}

impl TryFromSpecImpl<usize> for ModelWidth {
    open spec fn obeys_try_from_spec() -> bool {
        true
    }

    open spec fn try_from_spec(value: usize) -> Result<ModelWidth, ScalingError> {
        model_width_from(value)
    }
}

/// Number of repeated model blocks in one tiny experiment.
#[derive(Debug, Clone, Copy, PartialEq, Eq, PartialOrd, Ord)]
pub struct LayerCount(usize);

impl View for LayerCount {
    type V = nat;

    closed spec fn view(&self) -> nat {
        self.0 as nat
    }
}

impl LayerCount {
    #[verifier::type_invariant]
    spec fn positive(self) -> bool {
        self.0 > 0
    }

    /// The value as a raw integer.
    pub fn as_usize(self) -> (v: usize)
        ensures
            v == self@,
            v > 0,
    {
        proof {
            use_type_invariant(&self);
        }
        self.0
    }

    /// Renders the count in decimal.
    pub fn to_string(&self) -> (s: String)
        ensures
            s@ == decimal_chars(self@),
    {
        decimal_string(self.0 as u128)
    }
}

/// What `LayerCount::try_from` returns for `value`.
pub closed spec fn layer_count_from(value: usize) -> Result<LayerCount, ScalingError> {
    if value == 0 {
        Err(ScalingError::EmptyInput {
            operation: OperationName("LayerCount::try_from"),
            details: ErrorDetails("layer count must be greater than zero"),
        })
    } else {
        Ok(LayerCount(value))
    }
}

impl TryFrom<usize> for LayerCount {
    type Error = ScalingError;

    /// Accepts any positive count.
    fn try_from(value: usize) -> (r: Result<LayerCount, ScalingError>)
        ensures
            r == layer_count_from(value),
            r is Ok <==> value > 0,
            r matches Ok(c) ==> c@ == value,
            r matches Err(e) ==> e == (ScalingError::EmptyInput {
                operation: OperationName("LayerCount::try_from"),
                details: ErrorDetails("layer count must be greater than zero"),
            }),
    {
        if value == 0 {
            return Err(ScalingError::empty_input("LayerCount::try_from", "layer count must be greater than zero"));
        }
        Ok(LayerCount(value))
    }
}

impl TryFromSpecImpl<usize> for LayerCount {
    open spec fn obeys_try_from_spec() -> bool {
        true
    }

    open spec fn try_from_spec(value: usize) -> Result<LayerCount, ScalingError> {
        layer_count_from(value)
    }
}

/// Number of metric records used by a scaling fit.
#[derive(Debug, Clone, Copy, PartialEq, Eq, PartialOrd, Ord)]
pub struct RecordCount(usize);

impl View for RecordCount {
    type V = nat;

    closed spec fn view(&self) -> nat {
        self.0 as nat
    }
}

impl RecordCount {
    #[verifier::type_invariant]
    spec fn positive(self) -> bool {
        self.0 > 0
    }

    /// The value as a raw integer.
    pub fn as_usize(self) -> (v: usize)
        ensures
            v == self@,
            v > 0,
    {
        proof {
            use_type_invariant(&self);
        }
        self.0
    }

    /// Renders the count in decimal.
    pub fn to_string(&self) -> (s: String)
        ensures
            s@ == decimal_chars(self@),
    {
        decimal_string(self.0 as u128)
    }
}

/// What `RecordCount::try_from` returns for `value`.
pub closed spec fn record_count_from(value: usize) -> Result<RecordCount, ScalingError> {
    if value == 0 {
        Err(ScalingError::EmptyInput {
            operation: OperationName("RecordCount::try_from"),
            details: ErrorDetails("record count must be greater than zero"),
        })
    } else {
        Ok(RecordCount(value))
    }
}

impl TryFrom<usize> for RecordCount {
    type Error = ScalingError;

    /// Accepts any positive count.
    fn try_from(value: usize) -> (r: Result<RecordCount, ScalingError>)
        ensures
            r == record_count_from(value),
            r is Ok <==> value > 0,
            r matches Ok(c) ==> c@ == value,
            r matches Err(e) ==> e == (ScalingError::EmptyInput {
                operation: OperationName("RecordCount::try_from"),
                details: ErrorDetails("record count must be greater than zero"),
            }),
    {
        if value == 0 {
            return Err(ScalingError::empty_input("RecordCount::try_from", "record count must be greater than zero"));
        }
        Ok(RecordCount(value))
    }
}

impl TryFromSpecImpl<usize> for RecordCount {
    open spec fn obeys_try_from_spec() -> bool {
        true
    }

    open spec fn try_from_spec(value: usize) -> Result<RecordCount, ScalingError> {
        record_count_from(value)
    }
}

/// Number of training tokens consumed by one run.
#[derive(Debug, Clone, Copy, PartialEq, Eq, PartialOrd, Ord)]
pub struct TokenCount(u64);

impl View for TokenCount {
    type V = nat;

    closed spec fn view(&self) -> nat {
        self.0 as nat
    }
}

impl TokenCount {
    #[verifier::type_invariant]
    spec fn positive(self) -> bool {
        self.0 > 0
    }

    /// The value as a raw integer.
    pub fn as_u64(self) -> (v: u64)
        ensures
            v == self@,
            v > 0,
    {
        proof {
            use_type_invariant(&self);
        }
        self.0
    }

    /// Renders the count in decimal.
    pub fn to_string(&self) -> (s: String)
        ensures
            s@ == decimal_chars(self@),
    {
        decimal_string(self.0 as u128)
    }
}

/// What `TokenCount::try_from` returns for `value`.
pub closed spec fn token_count_from(value: u64) -> Result<TokenCount, ScalingError> {
    if value == 0 {
        Err(ScalingError::EmptyInput {
            operation: OperationName("TokenCount::try_from"),
            details: ErrorDetails("token count must be greater than zero"),
        })
    } else {
        Ok(TokenCount(value))
    }
}

impl TryFrom<u64> for TokenCount {
    type Error = ScalingError;

    /// Accepts any positive count.
    fn try_from(value: u64) -> (r: Result<TokenCount, ScalingError>)
        ensures
            r == token_count_from(value),
            r is Ok <==> value > 0,
            r matches Ok(c) ==> c@ == value,
            r matches Err(e) ==> e == (ScalingError::EmptyInput {
                operation: OperationName("TokenCount::try_from"),
                details: ErrorDetails("token count must be greater than zero"),
            }),
    {
        if value == 0 {
            return Err(ScalingError::empty_input("TokenCount::try_from", "token count must be greater than zero"));
        }
        Ok(TokenCount(value))
    }
}

impl TryFromSpecImpl<u64> for TokenCount {
    open spec fn obeys_try_from_spec() -> bool {
        true
    }

    open spec fn try_from_spec(value: u64) -> Result<TokenCount, ScalingError> {
        token_count_from(value)
    }
}

/// Number of optimizer steps in one run.
#[derive(Debug, Clone, Copy, PartialEq, Eq, PartialOrd, Ord)]
pub struct TrainingStep(u64);

impl View for TrainingStep {
    type V = nat;

    closed spec fn view(&self) -> nat {
        self.0 as nat
    }
}

impl TrainingStep {
    #[verifier::type_invariant]
    spec fn positive(self) -> bool {
        self.0 > 0
    }

    /// The value as a raw integer.
    pub fn as_u64(self) -> (v: u64)
        ensures
            v == self@,
            v > 0,
    {
        proof {
            use_type_invariant(&self);
        }
        self.0
    }

    /// Renders the count in decimal.
    pub fn to_string(&self) -> (s: String)
        ensures
            s@ == decimal_chars(self@),
    {
        decimal_string(self.0 as u128)
    }
}

/// What `TrainingStep::try_from` returns for `value`.
pub closed spec fn training_step_from(value: u64) -> Result<TrainingStep, ScalingError> {
    if value == 0 {
        Err(ScalingError::EmptyInput {
            operation: OperationName("TrainingStep::try_from"),
            details: ErrorDetails("training step count must be greater than zero"),
        })
    } else {
        Ok(TrainingStep(value))
    }
}

impl TryFrom<u64> for TrainingStep {
    type Error = ScalingError;

    /// Accepts any positive count.
    fn try_from(value: u64) -> (r: Result<TrainingStep, ScalingError>)
        ensures
            r == training_step_from(value),
            r is Ok <==> value > 0,
            r matches Ok(c) ==> c@ == value,
            r matches Err(e) ==> e == (ScalingError::EmptyInput {
                operation: OperationName("TrainingStep::try_from"),
                details: ErrorDetails("training step count must be greater than zero"),
            }),
    {
        if value == 0 {
            return Err(ScalingError::empty_input("TrainingStep::try_from", "training step count must be greater than zero"));
        }
        Ok(TrainingStep(value))
    }
}

impl TryFromSpecImpl<u64> for TrainingStep {
    open spec fn obeys_try_from_spec() -> bool {
        true
    }

    open spec fn try_from_spec(value: u64) -> Result<TrainingStep, ScalingError> {
        training_step_from(value)
    }
}

/// Approximate trainable parameter count.
#[derive(Debug, Clone, Copy, PartialEq, Eq, PartialOrd, Ord)]
pub struct ParameterCount(u64);

impl View for ParameterCount {
    type V = nat;

    closed spec fn view(&self) -> nat {
        self.0 as nat
    }
}

impl ParameterCount {
    #[verifier::type_invariant]
    spec fn positive(self) -> bool {
        self.0 > 0
    }

    /// The value as a raw integer.
    pub fn as_u64(self) -> (v: u64)
        ensures
            v == self@,
            v > 0,
    {
        proof {
            use_type_invariant(&self);
        }
        self.0
    }

    /// Renders the count in decimal.
    pub fn to_string(&self) -> (s: String)
        ensures
            s@ == decimal_chars(self@),
    {
        decimal_string(self.0 as u128)
    }
}

/// What `ParameterCount::try_from` returns for `value`.
pub closed spec fn parameter_count_from(value: u64) -> Result<ParameterCount, ScalingError> {
    if value == 0 {
        Err(ScalingError::EmptyInput {
            operation: OperationName("ParameterCount::try_from"),
            details: ErrorDetails("parameter count must be greater than zero"),
        })
    } else {
        Ok(ParameterCount(value))
    }
}

impl TryFrom<u64> for ParameterCount {
    type Error = ScalingError;

    /// Accepts any positive count.
    fn try_from(value: u64) -> (r: Result<ParameterCount, ScalingError>)
        ensures
            r == parameter_count_from(value),
            r is Ok <==> value > 0,
            r matches Ok(c) ==> c@ == value,
            r matches Err(e) ==> e == (ScalingError::EmptyInput {
                operation: OperationName("ParameterCount::try_from"),
                details: ErrorDetails("parameter count must be greater than zero"),
            }),
    {
        if value == 0 {
            return Err(ScalingError::empty_input("ParameterCount::try_from", "parameter count must be greater than zero"));
        }
        Ok(ParameterCount(value))
    }
}

impl TryFromSpecImpl<u64> for ParameterCount {
    open spec fn obeys_try_from_spec() -> bool {
        true
    }

    open spec fn try_from_spec(value: u64) -> Result<ParameterCount, ScalingError> {
        parameter_count_from(value)
    }
}

/// Multiplier that turns parameter-token products into training FLOPs.
#[derive(Debug, Clone, Copy, PartialEq, Eq, PartialOrd, Ord)]
pub struct ComputeMultiplier(u64);

impl View for ComputeMultiplier {
    type V = nat;

    closed spec fn view(&self) -> nat {
        self.0 as nat
    }
}

impl ComputeMultiplier {
    #[verifier::type_invariant]
    spec fn positive(self) -> bool {
        self.0 > 0
    }

    /// The value as a raw integer.
    pub fn as_u64(self) -> (v: u64)
        ensures
            v == self@,
            v > 0,
    {
        proof {
            use_type_invariant(&self);
        }
        self.0
    }

    /// Renders the count in decimal.
    pub fn to_string(&self) -> (s: String)
        ensures
            s@ == decimal_chars(self@),
    {
        decimal_string(self.0 as u128)
    }
}

/// What `ComputeMultiplier::try_from` returns for `value`.
pub closed spec fn compute_multiplier_from(value: u64) -> Result<ComputeMultiplier, ScalingError> {
    if value == 0 {
        Err(ScalingError::EmptyInput {
            operation: OperationName("ComputeMultiplier::try_from"),
            details: ErrorDetails("compute multiplier must be greater than zero"),
        })
    } else {
        Ok(ComputeMultiplier(value))
    }
}

impl TryFrom<u64> for ComputeMultiplier {
    type Error = ScalingError;

    /// Accepts any positive count.
    fn try_from(value: u64) -> (r: Result<ComputeMultiplier, ScalingError>)
        ensures
            r == compute_multiplier_from(value),
            r is Ok <==> value > 0,
            r matches Ok(c) ==> c@ == value,
            r matches Err(e) ==> e == (ScalingError::EmptyInput {
                operation: OperationName("ComputeMultiplier::try_from"),
                details: ErrorDetails("compute multiplier must be greater than zero"),
            }),
    {
        if value == 0 {
            return Err(ScalingError::empty_input("ComputeMultiplier::try_from", "compute multiplier must be greater than zero"));
        }
        Ok(ComputeMultiplier(value))
    }
}

impl TryFromSpecImpl<u64> for ComputeMultiplier {
    open spec fn obeys_try_from_spec() -> bool {
        true
    }

    open spec fn try_from_spec(value: u64) -> Result<ComputeMultiplier, ScalingError> {
        compute_multiplier_from(value)
    }
}

/// The parameter estimate of a dense Transformer-style stack:
/// `12 * width^2` per layer.
pub open spec fn dense_parameter_estimate(width: nat, layers: nat) -> nat {
    12 * (width * width) * layers
}

/// The conventional training-FLOP estimate `6 * parameters * tokens`.
pub open spec fn dense_training_flops(parameters: nat, tokens: nat) -> nat {
    parameters * tokens * 6
}

/// The error of a parameter estimate that leaves `u64`, naming the first
/// step that overflowed: `width^2`, then `12 * width^2`, then the product with
/// the layer count.
pub open spec fn parameter_estimate_overflow(width: nat, layers: nat) -> ScalingError {
    ScalingError::Overflow {
        operation: OperationName("ExperimentConfig::parameter_count"),
        details: ErrorDetails(
            if width * width > u64::MAX {
                "width squared exceeded u64"
            } else if 12 * (width * width) > u64::MAX {
                "per-layer parameter estimate exceeded u64"
            } else {
                "parameter estimate exceeded u64"
            },
        ),
    }
}

/// The error of a training budget that leaves `u128`.
pub open spec fn training_budget_overflow() -> ScalingError {
    ScalingError::Overflow {
        operation: OperationName("ParameterTokenProduct::mul"),
        details: ErrorDetails("compute budget exceeded u128"),
    }
}

/// Stable label for one run in a tiny scaling study.
#[derive(Debug, PartialEq, Eq, PartialOrd, Ord, Hash)]
pub struct RunId(String);

impl Clone for RunId {
    fn clone(&self) -> (c: Self)
        ensures
            c == *self,
    {
        proof {
            use_type_invariant(self);
        }
        RunId(self.0.clone())
    }
}

impl View for RunId {
    type V = Seq<char>;

    closed spec fn view(&self) -> Seq<char> {
        self.0@
    }
}

impl RunId {
    #[verifier::type_invariant]
    spec fn not_blank(self) -> bool {
        !is_blank(self.0@)
    }

    fn from_owned(value: String) -> (r: Result<Self, ScalingError>)
        ensures
            r is Ok <==> !is_blank(value@),
            r matches Ok(id) ==> id@ == value@,
            r matches Err(e) ==> e == blank_run_id(),
            r == run_id_from_string(value),
    {
        if is_blank_text(value.as_str()) {
            return Err(ScalingError::empty_input("RunId::try_from", "run id cannot be empty"));
        }
        Ok(RunId(value))
    }

    /// The label text.
    pub fn as_str(&self) -> (s: &str)
        ensures
            s@ == self@,
    {
        self.0.as_str()
    }

    /// The label as an owned string.
    pub fn to_string(&self) -> (s: String)
        ensures
            s@ == self@,
    {
        self.0.clone()
    }
}

/// The error for a blank run label.
pub open spec fn blank_run_id() -> ScalingError {
    ScalingError::EmptyInput {
        operation: OperationName("RunId::try_from"),
        details: ErrorDetails("run id cannot be empty"),
    }
}

impl<'a> TryFrom<&'a str> for RunId {
    type Error = ScalingError;

    /// Accepts any label that is not empty after trimming whitespace.
    fn try_from(value: &'a str) -> (r: Result<RunId, ScalingError>)
        ensures
            r is Ok <==> !is_blank(value@),
            r matches Ok(id) ==> id@ == value@,
            r matches Err(e) ==> e == blank_run_id(),
    {
        RunId::from_owned(value.to_owned())
    }
}

impl<'a> TryFromSpecImpl<&'a str> for RunId {
    open spec fn obeys_try_from_spec() -> bool {
        false
    }

    open spec fn try_from_spec(value: &'a str) -> Result<RunId, ScalingError> {
        Err(blank_run_id())
    }
}

/// What `RunId::try_from` returns for an owned string.
pub closed spec fn run_id_from_string(value: String) -> Result<RunId, ScalingError> {
    if is_blank(value@) {
        Err(blank_run_id())
    } else {
        Ok(RunId(value))
    }
}

impl TryFrom<String> for RunId {
    type Error = ScalingError;

    /// Accepts any label that is not empty after trimming whitespace.
    fn try_from(value: String) -> (r: Result<RunId, ScalingError>)
        ensures
            r is Ok <==> !is_blank(value@),
            r matches Ok(id) ==> id@ == value@,
            r matches Err(e) ==> e == blank_run_id(),
            r == run_id_from_string(value),
    {
        RunId::from_owned(value)
    }
}

impl TryFromSpecImpl<String> for RunId {
    open spec fn obeys_try_from_spec() -> bool {
        true
    }

    open spec fn try_from_spec(value: String) -> Result<RunId, ScalingError> {
        run_id_from_string(value)
    }
}

/// Parameter-token product before applying the training-FLOP multiplier.
#[derive(Debug, Clone, Copy, PartialEq, Eq, PartialOrd, Ord)]
pub struct ParameterTokenProduct(u128);

impl View for ParameterTokenProduct {
    type V = nat;

    closed spec fn view(&self) -> nat {
        self.0 as nat
    }
}

impl ParameterTokenProduct {
    #[verifier::type_invariant]
    spec fn positive(self) -> bool {
        self.0 > 0
    }

    /// Renders the product in decimal.
    pub fn to_string(&self) -> (s: String)
        ensures
            s@ == decimal_chars(self@),
    {
        decimal_string(self.0)
    }
}

/// What `parameters * tokens` returns: the product never overflows `u128`.
pub closed spec fn parameter_token_product(parameters: ParameterCount, tokens: TokenCount) -> Result<
    ParameterTokenProduct,
    ScalingError,
> {
    Ok(ParameterTokenProduct((parameters.0 * tokens.0) as u128))
}

impl std::ops::Mul<TokenCount> for ParameterCount {
    type Output = Result<ParameterTokenProduct, ScalingError>;

    /// The parameter-token product; two `u64` factors always fit in `u128`.
    fn mul(self, tokens: TokenCount) -> (r: Result<ParameterTokenProduct, ScalingError>)
        ensures
            r == parameter_token_product(self, tokens),
            r matches Ok(p) && p@ == self@ * tokens@,
    {
        proof {
            use_type_invariant(&self);
            use_type_invariant(&tokens);
            assert(1 <= (self.0 as u128) * (tokens.0 as u128) <= u64::MAX * u64::MAX) by (
            nonlinear_arith)
                requires
                    1 <= self.0 <= u64::MAX,
                    1 <= tokens.0 <= u64::MAX,
            ;
        }
        match (self.0 as u128).checked_mul(tokens.0 as u128) {
            Some(product) => Ok(ParameterTokenProduct(product)),
            None => Err(ScalingError::overflow("ParameterCount::mul", "parameter-token product exceeded u128")),
        }
    }
}

impl MulSpecImpl<TokenCount> for ParameterCount {
    open spec fn obeys_mul_spec() -> bool {
        true
    }

    open spec fn mul_req(self, rhs: TokenCount) -> bool {
        true
    }

    open spec fn mul_spec(self, rhs: TokenCount) -> Result<ParameterTokenProduct, ScalingError> {
        parameter_token_product(self, rhs)
    }
}

/// Estimated floating-point work for one training run.
#[derive(Debug, Clone, Copy, PartialEq, Eq, PartialOrd, Ord)]
pub struct ComputeBudgetFlops(u128);

impl View for ComputeBudgetFlops {
    type V = nat;

    closed spec fn view(&self) -> nat {
        self.0 as nat
    }
}

impl ComputeBudgetFlops {
    #[verifier::type_invariant]
    spec fn positive(self) -> bool {
        self.0 > 0
    }

    /// The budget as a raw integer.
    pub fn as_u128(self) -> (v: u128)
        ensures
            v == self@,
            v > 0,
    {
        proof {
            use_type_invariant(&self);
        }
        self.0
    }

    /// Renders the budget with its unit, such as `23040 FLOPs`.
    pub fn to_string(&self) -> (s: String)
        ensures
            s@ == decimal_chars(self@) + " FLOPs"@,
    {
        let mut s = decimal_string(self.0);
        s.append(" FLOPs");
        s
    }
}

/// What `ComputeBudgetFlops::try_from` returns for `value`.
pub closed spec fn compute_budget_from(value: u128) -> Result<ComputeBudgetFlops, ScalingError> {
    if value == 0 {
        Err(ScalingError::EmptyInput {
            operation: OperationName("ComputeBudgetFlops::try_from"),
            details: ErrorDetails("compute budget must be greater than zero"),
        })
    } else {
        Ok(ComputeBudgetFlops(value))
    }
}

impl TryFrom<u128> for ComputeBudgetFlops {
    type Error = ScalingError;

    /// Accepts any positive budget.
    fn try_from(value: u128) -> (r: Result<ComputeBudgetFlops, ScalingError>)
        ensures
            r == compute_budget_from(value),
            r is Ok <==> value > 0,
            r matches Ok(b) ==> b@ == value,
            r matches Err(e) ==> e == (ScalingError::EmptyInput {
                operation: OperationName("ComputeBudgetFlops::try_from"),
                details: ErrorDetails("compute budget must be greater than zero"),
            }),
    {
        if value == 0 {
            return Err(
                ScalingError::empty_input(
                    "ComputeBudgetFlops::try_from",
                    "compute budget must be greater than zero",
                ),
            );
        }
        Ok(ComputeBudgetFlops(value))
    }
}

impl TryFromSpecImpl<u128> for ComputeBudgetFlops {
    open spec fn obeys_try_from_spec() -> bool {
        true
    }

    open spec fn try_from_spec(value: u128) -> Result<ComputeBudgetFlops, ScalingError> {
        compute_budget_from(value)
    }
}

/// What `left + right` returns for two budgets.
pub closed spec fn compute_budget_sum(left: ComputeBudgetFlops, right: ComputeBudgetFlops) -> Result<
    ComputeBudgetFlops,
    ScalingError,
> {
    if left.0 + right.0 > u128::MAX {
        Err(ScalingError::Overflow {
            operation: OperationName("ComputeBudgetFlops::add"),
            details: ErrorDetails("compute budget exceeded u128"),
        })
    } else {
        Ok(ComputeBudgetFlops((left.0 + right.0) as u128))
    }
}

impl std::ops::Add for ComputeBudgetFlops {
    type Output = Result<ComputeBudgetFlops, ScalingError>;

    /// Adds two budgets, reporting overflow of `u128`.
    fn add(self, right: ComputeBudgetFlops) -> (r: Result<ComputeBudgetFlops, ScalingError>)
        ensures
            r == compute_budget_sum(self, right),
            r is Ok <==> self@ + right@ <= u128::MAX,
            r matches Ok(b) ==> b@ == self@ + right@,
            r matches Err(e) ==> e == (ScalingError::Overflow {
                operation: OperationName("ComputeBudgetFlops::add"),
                details: ErrorDetails("compute budget exceeded u128"),
            }),
    {
        proof {
            use_type_invariant(&self);
        }
        match self.0.checked_add(right.0) {
            Some(total) => Ok(ComputeBudgetFlops(total)),
            None => Err(ScalingError::overflow("ComputeBudgetFlops::add", "compute budget exceeded u128")),
        }
    }
}

impl AddSpecImpl for ComputeBudgetFlops {
    open spec fn obeys_add_spec() -> bool {
        true
    }

    open spec fn add_req(self, rhs: ComputeBudgetFlops) -> bool {
        true
    }

    open spec fn add_spec(self, rhs: ComputeBudgetFlops) -> Result<ComputeBudgetFlops, ScalingError> {
        compute_budget_sum(self, rhs)
    }
}

/// What `product * multiplier` returns.
pub closed spec fn training_flops(product: ParameterTokenProduct, multiplier: ComputeMultiplier) -> Result<
    ComputeBudgetFlops,
    ScalingError,
> {
    if product.0 * multiplier.0 > u128::MAX {
        Err(ScalingError::Overflow {
            operation: OperationName("ParameterTokenProduct::mul"),
            details: ErrorDetails("compute budget exceeded u128"),
        })
    } else {
        Ok(ComputeBudgetFlops((product.0 * multiplier.0) as u128))
    }
}

impl std::ops::Mul<ComputeMultiplier> for ParameterTokenProduct {
    type Output = Result<ComputeBudgetFlops, ScalingError>;

    /// Training FLOPs for the product, reporting overflow of `u128`.
    fn mul(self, multiplier: ComputeMultiplier) -> (r: Result<ComputeBudgetFlops, ScalingError>)
        ensures
            r == training_flops(self, multiplier),
            r is Ok <==> self@ * multiplier@ <= u128::MAX,
            r matches Ok(b) ==> b@ == self@ * multiplier@,
            r matches Err(e) ==> e == (ScalingError::Overflow {
                operation: OperationName("ParameterTokenProduct::mul"),
                details: ErrorDetails("compute budget exceeded u128"),
            }),
    {
        proof {
            use_type_invariant(&self);
            use_type_invariant(&multiplier);
            assert(self.0 * multiplier.0 >= 1) by (nonlinear_arith)
                requires
                    self.0 >= 1,
                    multiplier.0 >= 1,
            ;
        }
        match self.0.checked_mul(multiplier.0 as u128) {
            Some(flops) => Ok(ComputeBudgetFlops(flops)),
            None => Err(ScalingError::overflow("ParameterTokenProduct::mul", "compute budget exceeded u128")),
        }
    }
}

impl MulSpecImpl<ComputeMultiplier> for ParameterTokenProduct {
    open spec fn obeys_mul_spec() -> bool {
        true
    }

    open spec fn mul_req(self, rhs: ComputeMultiplier) -> bool {
        true
    }

    open spec fn mul_spec(self, rhs: ComputeMultiplier) -> Result<ComputeBudgetFlops, ScalingError> {
        training_flops(self, rhs)
    }
}

/// Absolute difference between two compute budgets.
#[derive(Debug, Clone, Copy, PartialEq, Eq, PartialOrd, Ord)]
pub struct ComputeDelta(u128);

impl View for ComputeDelta {
    type V = nat;

    closed spec fn view(&self) -> nat {
        self.0 as nat
    }
}

/// The distance between two naturals.
pub open spec fn abs_diff(a: nat, b: nat) -> nat {
    if a >= b {
        (a - b) as nat
    } else {
        (b - a) as nat
    }
}

impl ComputeDelta {
    /// The distance between two budgets.
    pub fn between(left: ComputeBudgetFlops, right: ComputeBudgetFlops) -> (d: Self)
        ensures
            d@ == abs_diff(left@, right@),
    {
        if left.0 >= right.0 {
            ComputeDelta(left.0 - right.0)
        } else {
            ComputeDelta(right.0 - left.0)
        }
    }

    /// Renders the delta with its unit, such as `128 FLOPs`.
    pub fn to_string(&self) -> (s: String)
        ensures
            s@ == decimal_chars(self@) + " FLOPs"@,
    {
        let mut s = decimal_string(self.0);
        s.append(" FLOPs");
        s
    }
}

impl ComputeMultiplier {
    /// Conventional rough estimate for dense Transformer training FLOPs.
    pub fn dense_transformer_training() -> (m: Self)
        ensures
            m@ == 6,
    {
        ComputeMultiplier(6)
    }
}

/// Configuration for one tiny scaling run.
#[derive(Debug, PartialEq, Eq)]
pub struct ExperimentConfig {
    run_id: RunId,
    model_width: ModelWidth,
    layer_count: LayerCount,
    training_tokens: TokenCount,
}

impl Clone for ExperimentConfig {
    fn clone(&self) -> (c: Self)
        ensures
            c == *self,
    {
        ExperimentConfig {
            run_id: self.run_id.clone(),
            model_width: self.model_width,
            layer_count: self.layer_count,
            training_tokens: self.training_tokens,
        }
    }
}

impl ExperimentConfig {
    /// Creates a typed experiment configuration.
    pub fn new(run_id: RunId, model_width: ModelWidth, layer_count: LayerCount, training_tokens: TokenCount) -> (c: Self)
        ensures
            c.spec_run_id() == run_id,
            c.spec_model_width() == model_width,
            c.spec_layer_count() == layer_count,
            c.spec_training_tokens() == training_tokens,
    {
        ExperimentConfig { run_id, model_width, layer_count, training_tokens }
    }

    /// The run label.
    pub closed spec fn spec_run_id(&self) -> &RunId {
        &self.run_id
    }

    /// The hidden width.
    pub closed spec fn spec_model_width(&self) -> ModelWidth {
        self.model_width
    }

    /// The number of blocks.
    pub closed spec fn spec_layer_count(&self) -> LayerCount {
        self.layer_count
    }

    /// The training tokens.
    pub closed spec fn spec_training_tokens(&self) -> TokenCount {
        self.training_tokens
    }

    /// Returns the run label.
    #[verifier::when_used_as_spec(spec_run_id)]
    pub fn run_id(&self) -> (r: &RunId)
        ensures
            r == self.spec_run_id(),
    {
        &self.run_id
    }

    /// The parameter estimate of this configuration, `12 * width^2 * layers`.
    pub open spec fn spec_parameter_estimate(&self) -> nat {
        dense_parameter_estimate(self.spec_model_width()@, self.spec_layer_count()@)
    }

    /// Estimates a tiny dense Transformer-style parameter count,
    /// `12 * width^2 * layers`; fails with `Overflow` when it exceeds `u64`.
    pub fn parameter_count(&self) -> (r: Result<ParameterCount, ScalingError>)
        ensures
            r is Ok <==> self.spec_parameter_estimate() <= u64::MAX,
            r matches Ok(p) ==> p@ == self.spec_parameter_estimate(),
            r matches Err(e) ==> e == parameter_estimate_overflow(self.spec_model_width()@, self.spec_layer_count()@),
    {
        let width = self.model_width.as_usize() as u64;
        let layers = self.layer_count.as_usize() as u64;
        proof {
            lemma_parameter_chain(width as int, layers as int);
        }
        let width_squared = match width.checked_mul(width) {
            Some(v) => v,
            None => {
                return Err(
                    ScalingError::overflow("ExperimentConfig::parameter_count", "width squared exceeded u64"),
                );
            },
        };
        let per_layer = match width_squared.checked_mul(12) {
            Some(v) => v,
            None => {
                return Err(
                    ScalingError::overflow(
                        "ExperimentConfig::parameter_count",
                        "per-layer parameter estimate exceeded u64",
                    ),
                );
            },
        };
        let total = match per_layer.checked_mul(layers) {
            Some(v) => v,
            None => {
                return Err(
                    ScalingError::overflow("ExperimentConfig::parameter_count", "parameter estimate exceeded u64"),
                );
            },
        };
        ParameterCount::try_from(total)
    }

    /// Plans a run by attaching a step count and the derived estimates.
    pub fn plan_run(&self, training_steps: TrainingStep) -> (r: Result<TrainingRun, ScalingError>)
        ensures
            r is Ok <==> self.spec_parameter_estimate() <= u64::MAX && dense_training_flops(
                self.spec_parameter_estimate(),
                self.spec_training_tokens()@,
            ) <= u128::MAX,
            r matches Ok(run) ==> {
                &&& run.spec_config() == *self
                &&& run.spec_training_steps() == training_steps
                &&& run.spec_parameter_count()@ == self.spec_parameter_estimate()
                &&& run.spec_compute_budget()@ == dense_training_flops(
                    self.spec_parameter_estimate(),
                    self.spec_training_tokens()@,
                )
            },
            r matches Err(e) ==> e == if self.spec_parameter_estimate() > u64::MAX {
                parameter_estimate_overflow(self.spec_model_width()@, self.spec_layer_count()@)
            } else {
                training_budget_overflow()
            },
    {
        TrainingRun::from_config(self.clone(), training_steps)
    }
}

proof fn lemma_parameter_chain(w: int, l: int)
    requires
        w >= 1,
        l >= 1,
    ensures
        w * w <= 12 * (w * w),
        12 * (w * w) <= 12 * (w * w) * l,
        w * w >= 1,
{
    assert(w * w >= 1) by (nonlinear_arith)
        requires
            w >= 1,
    ;
    assert(12 * (w * w) <= 12 * (w * w) * l) by (nonlinear_arith)
        requires
            w * w >= 1,
            l >= 1,
    ;
}

/// A planned run with its derived resource estimates.
#[derive(Debug, PartialEq, Eq)]
pub struct TrainingRun {
    config: ExperimentConfig,
    training_steps: TrainingStep,
    parameter_count: ParameterCount,
    compute_budget: ComputeBudgetFlops,
}

impl Clone for TrainingRun {
    fn clone(&self) -> (c: Self)
        ensures
            c == *self,
    {
        TrainingRun {
            config: self.config.clone(),
            training_steps: self.training_steps,
            parameter_count: self.parameter_count,
            compute_budget: self.compute_budget,
        }
    }
}

impl TrainingRun {
    fn from_config(config: ExperimentConfig, training_steps: TrainingStep) -> (r: Result<Self, ScalingError>)
        ensures
            r is Ok <==> config.spec_parameter_estimate() <= u64::MAX && dense_training_flops(
                config.spec_parameter_estimate(),
                config.spec_training_tokens()@,
            ) <= u128::MAX,
            r matches Ok(run) ==> {
                &&& run.spec_config() == config
                &&& run.spec_training_steps() == training_steps
                &&& run.spec_parameter_count()@ == config.spec_parameter_estimate()
                &&& run.spec_compute_budget()@ == dense_training_flops(
                    config.spec_parameter_estimate(),
                    config.spec_training_tokens()@,
                )
            },
            r matches Err(e) ==> e == if config.spec_parameter_estimate() > u64::MAX {
                parameter_estimate_overflow(config.spec_model_width()@, config.spec_layer_count()@)
            } else {
                training_budget_overflow()
            },
    {
        let parameter_count = config.parameter_count()?;
        let product = match parameter_count * config.training_tokens {
            Ok(p) => p,
            Err(e) => {
                return Err(e);
            },
        };
        let multiplier = ComputeMultiplier::dense_transformer_training();
        let compute_budget = match product * multiplier {
            Ok(b) => b,
            Err(e) => {
                return Err(e);
            },
        };
        Ok(TrainingRun { config, training_steps, parameter_count, compute_budget })
    }

    /// The configuration this run was planned from.
    pub closed spec fn spec_config(&self) -> &ExperimentConfig {
        &self.config
    }

    /// The optimizer step count.
    pub closed spec fn spec_training_steps(&self) -> TrainingStep {
        self.training_steps
    }

    /// The parameter estimate.
    pub closed spec fn spec_parameter_count(&self) -> ParameterCount {
        self.parameter_count
    }

    /// The compute estimate.
    pub closed spec fn spec_compute_budget(&self) -> ComputeBudgetFlops {
        self.compute_budget
    }

    /// Returns the run label.
    pub fn run_id(&self) -> (r: &RunId)
        ensures
            r == self.spec_config().spec_run_id(),
    {
        self.config.run_id()
    }

    /// Returns the typed config the run was planned from.
    #[verifier::when_used_as_spec(spec_config)]
    pub fn config(&self) -> (c: &ExperimentConfig)
        ensures
            c == self.spec_config(),
    {
        &self.config
    }

    /// Returns the optimizer step count.
    #[verifier::when_used_as_spec(spec_training_steps)]
    pub fn training_steps(&self) -> (s: TrainingStep)
        ensures
            s == self.spec_training_steps(),
    {
        self.training_steps
    }

    /// Returns the parameter estimate.
    #[verifier::when_used_as_spec(spec_parameter_count)]
    pub fn parameter_count(&self) -> (p: ParameterCount)
        ensures
            p == self.spec_parameter_count(),
    {
        self.parameter_count
    }

    /// Returns the compute estimate.
    #[verifier::when_used_as_spec(spec_compute_budget)]
    pub fn compute_budget(&self) -> (b: ComputeBudgetFlops)
        ensures
            b == self.spec_compute_budget(),
    {
        self.compute_budget
    }
}

/// Direction of compute-budget change for a candidate.
#[derive(Debug, Clone, Copy, PartialEq, Eq)]
pub enum ComputeTradeoff {
    /// Candidate uses less compute than the baseline.
    CandidateUsesLess(ComputeDelta),
    /// Candidate uses more compute than the baseline.
    CandidateUsesMore(ComputeDelta),
    /// Candidate and baseline use the same compute budget.
    SameCompute,
}

impl ComputeTradeoff {
    /// Renders the direction, such as `candidate uses less compute (128 FLOPs)`.
    pub fn to_string(&self) -> (s: String)
        ensures
            s@ == compute_tradeoff_text(*self),
    {
        match self {
            ComputeTradeoff::CandidateUsesLess(delta) => {
                let mut s = String::from_str("candidate uses less compute (");
                s.append(delta.to_string().as_str());
                s.append(")");
                s
            },
            ComputeTradeoff::CandidateUsesMore(delta) => {
                let mut s = String::from_str("candidate uses more compute (");
                s.append(delta.to_string().as_str());
                s.append(")");
                s
            },
            ComputeTradeoff::SameCompute => String::from_str("same compute budget"),
        }
    }
}

/// The text of a compute direction.
pub open spec fn compute_tradeoff_text(t: ComputeTradeoff) -> Seq<char> {
    match t {
        ComputeTradeoff::CandidateUsesLess(d) => "candidate uses less compute ("@ + decimal_chars(d@)
            + " FLOPs"@ + ")"@,
        ComputeTradeoff::CandidateUsesMore(d) => "candidate uses more compute ("@ + decimal_chars(d@)
            + " FLOPs"@ + ")"@,
        ComputeTradeoff::SameCompute => "same compute budget"@,
    }
}

/// How a candidate's predicted loss compares with the baseline's.
#[derive(Debug, Clone, Copy, PartialEq, Eq, Structural)]
pub enum LossComparison {
    /// The candidate predicts a lower loss.
    CandidateLower,
    /// The candidate predicts a higher loss.
    CandidateHigher,
    /// Both predict the same loss.
    SameLoss,
}

/// Loss-first recommendation for a toy scaling decision.
#[derive(Debug, Clone, Copy, PartialEq, Eq, Structural)]
pub enum ScalingRecommendation {
    /// Prefer the candidate under a loss-first rule.
    PreferCandidate,
    /// Prefer the baseline under a loss-first rule.
    PreferBaseline,
    /// The fitted evidence cannot separate the two candidates.
    Inconclusive,
}

/// The text of a recommendation.
pub open spec fn recommendation_text(r: ScalingRecommendation) -> Seq<char> {
    match r {
        ScalingRecommendation::PreferCandidate => "prefer candidate"@,
        ScalingRecommendation::PreferBaseline => "prefer baseline"@,
        ScalingRecommendation::Inconclusive => "inconclusive"@,
    }
}

impl ScalingRecommendation {
    /// Renders the recommendation, such as `prefer candidate`.
    pub fn to_string(&self) -> (s: String)
        ensures
            s@ == recommendation_text(*self),
    {
        match self {
            ScalingRecommendation::PreferCandidate => String::from_str("prefer candidate"),
            ScalingRecommendation::PreferBaseline => String::from_str("prefer baseline"),
            ScalingRecommendation::Inconclusive => String::from_str("inconclusive"),
        }
    }
}

/// The compute direction of `candidate` against `baseline`, with the distance
/// between the two budgets.
pub closed spec fn compute_tradeoff_of(candidate: ComputeBudgetFlops, baseline: ComputeBudgetFlops) -> ComputeTradeoff {
    if candidate.0 < baseline.0 {
        ComputeTradeoff::CandidateUsesLess(ComputeDelta((baseline.0 - candidate.0) as u128))
    } else if candidate.0 > baseline.0 {
        ComputeTradeoff::CandidateUsesMore(ComputeDelta((candidate.0 - baseline.0) as u128))
    } else {
        ComputeTradeoff::SameCompute
    }
}

/// Compares a candidate's compute budget with the baseline's.
pub fn compute_tradeoff(candidate: ComputeBudgetFlops, baseline: ComputeBudgetFlops) -> (t: ComputeTradeoff)
    ensures
        t == compute_tradeoff_of(candidate, baseline),
        t is CandidateUsesLess <==> candidate@ < baseline@,
        t is CandidateUsesMore <==> candidate@ > baseline@,
        t is SameCompute <==> candidate@ == baseline@,
        t matches ComputeTradeoff::CandidateUsesLess(d) ==> d@ == abs_diff(candidate@, baseline@),
        t matches ComputeTradeoff::CandidateUsesMore(d) ==> d@ == abs_diff(candidate@, baseline@),
{
    let delta = ComputeDelta::between(candidate, baseline);
    if candidate.0 < baseline.0 {
        ComputeTradeoff::CandidateUsesLess(delta)
    } else if candidate.0 > baseline.0 {
        ComputeTradeoff::CandidateUsesMore(delta)
    } else {
        ComputeTradeoff::SameCompute
    }
}

/// The loss-first rule: a lower predicted loss wins, a higher one loses, and
/// only equal losses fall back to the compute budget.
pub open spec fn recommendation_of(loss: LossComparison, compute: ComputeTradeoff) -> ScalingRecommendation {
    match loss {
        LossComparison::CandidateLower => ScalingRecommendation::PreferCandidate,
        LossComparison::CandidateHigher => ScalingRecommendation::PreferBaseline,
        LossComparison::SameLoss => match compute {
            ComputeTradeoff::CandidateUsesLess(_) => ScalingRecommendation::PreferCandidate,
            ComputeTradeoff::CandidateUsesMore(_) => ScalingRecommendation::PreferBaseline,
            ComputeTradeoff::SameCompute => ScalingRecommendation::Inconclusive,
        },
    }
}

/// Applies the loss-first rule to a loss comparison and a compute direction.
pub fn recommend(loss: LossComparison, compute: &ComputeTradeoff) -> (r: ScalingRecommendation)
    ensures
        r == recommendation_of(loss, *compute),
        loss is CandidateLower ==> r == ScalingRecommendation::PreferCandidate,
        loss is CandidateHigher ==> r == ScalingRecommendation::PreferBaseline,
        loss is SameLoss && *compute is CandidateUsesLess ==> r == ScalingRecommendation::PreferCandidate,
        loss is SameLoss && *compute is CandidateUsesMore ==> r == ScalingRecommendation::PreferBaseline,
        loss is SameLoss && *compute is SameCompute ==> r == ScalingRecommendation::Inconclusive,
{
    match loss {
        LossComparison::CandidateLower => ScalingRecommendation::PreferCandidate,
        LossComparison::CandidateHigher => ScalingRecommendation::PreferBaseline,
        LossComparison::SameLoss => match compute {
            ComputeTradeoff::CandidateUsesLess(_) => ScalingRecommendation::PreferCandidate,
            ComputeTradeoff::CandidateUsesMore(_) => ScalingRecommendation::PreferBaseline,
            ComputeTradeoff::SameCompute => ScalingRecommendation::Inconclusive,
        },
    }
}

/// The loss-first rule: a lower predicted loss always favours the candidate
/// and a higher one always favours the baseline, whatever compute either
/// uses; only equal losses let compute decide, the cheaper side winning and
/// equal compute leaving the choice open.
pub proof fn lemma_loss_decides_first(loss: LossComparison, compute: ComputeTradeoff)
    ensures
        loss is CandidateLower ==> recommendation_of(loss, compute) == ScalingRecommendation::PreferCandidate,
        loss is CandidateHigher ==> recommendation_of(loss, compute) == ScalingRecommendation::PreferBaseline,
        loss is SameLoss && compute is CandidateUsesLess ==> recommendation_of(loss, compute)
            == ScalingRecommendation::PreferCandidate,
        loss is SameLoss && compute is CandidateUsesMore ==> recommendation_of(loss, compute)
            == ScalingRecommendation::PreferBaseline,
        loss is SameLoss && compute is SameCompute ==> recommendation_of(loss, compute)
            == ScalingRecommendation::Inconclusive,
{
}

/// The loss comparison seen from the other side.
pub open spec fn swapped_loss(loss: LossComparison) -> LossComparison {
    match loss {
        LossComparison::CandidateLower => LossComparison::CandidateHigher,
        LossComparison::CandidateHigher => LossComparison::CandidateLower,
        LossComparison::SameLoss => LossComparison::SameLoss,
    }
}

/// The compute direction seen from the other side, with the same distance.
pub open spec fn swapped_compute(t: ComputeTradeoff) -> ComputeTradeoff {
    match t {
        ComputeTradeoff::CandidateUsesLess(d) => ComputeTradeoff::CandidateUsesMore(d),
        ComputeTradeoff::CandidateUsesMore(d) => ComputeTradeoff::CandidateUsesLess(d),
        ComputeTradeoff::SameCompute => ComputeTradeoff::SameCompute,
    }
}

/// The recommendation seen from the other side.
pub open spec fn swapped_recommendation(r: ScalingRecommendation) -> ScalingRecommendation {
    match r {
        ScalingRecommendation::PreferCandidate => ScalingRecommendation::PreferBaseline,
        ScalingRecommendation::PreferBaseline => ScalingRecommendation::PreferCandidate,
        ScalingRecommendation::Inconclusive => ScalingRecommendation::Inconclusive,
    }
}

/// Swapping candidate and baseline mirrors the compute direction and keeps
/// the distance between the budgets.
pub proof fn lemma_compute_tradeoff_swaps(candidate: ComputeBudgetFlops, baseline: ComputeBudgetFlops)
    ensures
        compute_tradeoff_of(baseline, candidate) == swapped_compute(compute_tradeoff_of(candidate, baseline)),
{
}

/// Swapping candidate and baseline mirrors the recommendation: the rule
/// favours neither side.
pub proof fn lemma_recommendation_swaps(loss: LossComparison, compute: ComputeTradeoff)
    ensures
        recommendation_of(swapped_loss(loss), swapped_compute(compute)) == swapped_recommendation(
            recommendation_of(loss, compute),
        ),
{
}

/// Non-empty note that states what a tiny scaling result cannot prove.
#[derive(Debug, PartialEq, Eq)]
pub struct LimitationNote(String);

impl Clone for LimitationNote {
    fn clone(&self) -> (c: Self)
        ensures
            c == *self,
    {
        proof {
            use_type_invariant(self);
        }
        LimitationNote(self.0.clone())
    }
}

impl View for LimitationNote {
    type V = Seq<char>;

    closed spec fn view(&self) -> Seq<char> {
        self.0@
    }
}

/// The error for a blank limitation note.
pub open spec fn blank_limitation_note() -> ScalingError {
    ScalingError::EmptyInput {
        operation: OperationName("LimitationNote::try_from"),
        details: ErrorDetails("limitation note cannot be empty"),
    }
}

impl LimitationNote {
    #[verifier::type_invariant]
    spec fn not_blank(self) -> bool {
        !is_blank(self.0@)
    }

    fn from_owned(value: String) -> (r: Result<Self, ScalingError>)
        ensures
            r is Ok <==> !is_blank(value@),
            r matches Ok(n) ==> n@ == value@,
            r matches Err(e) ==> e == blank_limitation_note(),
            r == limitation_note_from_string(value),
    {
        if is_blank_text(value.as_str()) {
            return Err(ScalingError::empty_input("LimitationNote::try_from", "limitation note cannot be empty"));
        }
        Ok(LimitationNote(value))
    }

    /// The note text.
    pub fn as_str(&self) -> (s: &str)
        ensures
            s@ == self@,
    {
        self.0.as_str()
    }

    /// The note as an owned string.
    pub fn to_string(&self) -> (s: String)
        ensures
            s@ == self@,
    {
        self.0.clone()
    }
}

impl<'a> TryFrom<&'a str> for LimitationNote {
    type Error = ScalingError;

    /// Accepts any note that is not empty after trimming whitespace.
    fn try_from(value: &'a str) -> (r: Result<LimitationNote, ScalingError>)
        ensures
            r is Ok <==> !is_blank(value@),
            r matches Ok(n) ==> n@ == value@,
            r matches Err(e) ==> e == blank_limitation_note(),
    {
        LimitationNote::from_owned(value.to_owned())
    }
}

impl<'a> TryFromSpecImpl<&'a str> for LimitationNote {
    open spec fn obeys_try_from_spec() -> bool {
        false
    }

    open spec fn try_from_spec(value: &'a str) -> Result<LimitationNote, ScalingError> {
        Err(blank_limitation_note())
    }
}

/// What `LimitationNote::try_from` returns for an owned string.
pub closed spec fn limitation_note_from_string(value: String) -> Result<LimitationNote, ScalingError> {
    if is_blank(value@) {
        Err(blank_limitation_note())
    } else {
        Ok(LimitationNote(value))
    }
}

impl TryFrom<String> for LimitationNote {
    type Error = ScalingError;

    /// Accepts any note that is not empty after trimming whitespace.
    fn try_from(value: String) -> (r: Result<LimitationNote, ScalingError>)
        ensures
            r is Ok <==> !is_blank(value@),
            r matches Ok(n) ==> n@ == value@,
            r matches Err(e) ==> e == blank_limitation_note(),
            r == limitation_note_from_string(value),
    {
        LimitationNote::from_owned(value)
    }
}

impl TryFromSpecImpl<String> for LimitationNote {
    open spec fn obeys_try_from_spec() -> bool {
        true
    }

    open spec fn try_from_spec(value: String) -> Result<LimitationNote, ScalingError> {
        limitation_note_from_string(value)
    }
}

} // verus!
