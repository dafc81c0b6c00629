//! Parallel layouts, sharding plans and collective accounting.
//!
//! ```text
//! WorldSize + RankIndex -> RankId
//! GlobalBatchSize / WorldSize -> LocalBatchSize
//! ModelWidth / WorldSize -> ShardWidth
//! LayerCount / WorldSize -> LayersPerRank
//! PipelineStageCount + MicroBatchCount -> PipelineScheduleLength
//! CommunicationBytes * CommunicationRounds -> CommunicationBytes
//! ParallelTraceVisibility -> PublicParallelismDecision
//! ```
//!
//! Raw numbers enter through `TryFrom` adapters; a split that does not divide
//! evenly across ranks is rejected rather than rounded.
use vstd::prelude::*;
use vstd::std_specs::convert::TryFromSpecImpl;
use vstd::std_specs::ops::{AddSpecImpl, DivSpecImpl, MulSpecImpl};
use vstd::string::*;

use crate::text::{decimal_chars, decimal_string};

pub mod error;

pub use error::ParallelismError as Error;

use error::{ErrorDetails, OperationName, ParallelismError, ValueRange, ValueRole};

verus! {

/// The message attached to every uneven split.
pub open spec fn uneven_split_error(operation: &'static str) -> ParallelismError {
    ParallelismError::UnevenSplit {
        operation: OperationName(operation),
        details: ErrorDetails("the value must divide evenly by world size for this teaching example"),
    }
}

fn exact_divide(operation: &'static str, numerator: usize, denominator: usize) -> (r: Result<
    usize,
    ParallelismError,
>)
    requires
        denominator > 0,
    ensures
        r is Ok <==> numerator % denominator == 0,
        r matches Ok(q) ==> q == numerator / denominator,
        r matches Err(e) ==> e == uneven_split_error(operation),
{
    if numerator % denominator != 0 {
        return Err(
            ParallelismError::uneven_split(
                operation,
                "the value must divide evenly by world size for this teaching example",
            ),
        );
    }
    Ok(numerator / denominator)
}

proof fn lemma_exact_quotient_positive(n: int, d: int)
    requires
        n > 0,
        d > 0,
        n % d == 0,
    ensures
        n / d > 0,
        (n / d) * d == n,
{
    assert((n / d) * d == n) by (nonlinear_arith)
        requires
            d > 0,
            n % d == 0,
    ;
    assert(n / d > 0) by (nonlinear_arith)
        requires
            n > 0,
            d > 0,
            (n / d) * d == n,
    ;
}

/// Number of ranks participating in one distributed job.
#[derive(Debug, Clone, Copy, PartialEq, Eq, PartialOrd, Ord)]
pub struct WorldSize(usize);

impl View for WorldSize {
    type V = nat;

    closed spec fn view(&self) -> nat {
        self.0 as nat
    }
}

impl WorldSize {
    #[verifier::type_invariant]
    spec fn positive(self) -> bool {
        self.0 > 0
    }

    /// The value as a raw integer.
    pub fn as_usize(self) -> (v: usize)
        ensures
            v == self@,
            v > 0,
    {
        proof {
            use_type_invariant(&self);
        }
        self.0
    }

    /// Renders the count in decimal.
    pub fn to_string(&self) -> (s: String)
        ensures
            s@ == decimal_chars(self@),
    {
        decimal_string(self.0 as u128)
    }
}

/// What `WorldSize::try_from` returns for `value`.
pub closed spec fn world_size_from(value: usize) -> Result<WorldSize, ParallelismError> {
    if value == 0 {
        Err(ParallelismError::EmptyInput {
            operation: OperationName("WorldSize::try_from"),
            details: ErrorDetails("world size must be greater than zero"),
        })
    } else {
        Ok(WorldSize(value))
    }
}

impl TryFrom<usize> for WorldSize {
    type Error = ParallelismError;

    /// Accepts any positive count.
    fn try_from(value: usize) -> (r: Result<WorldSize, ParallelismError>)
        ensures
            r == world_size_from(value),
            r is Ok <==> value > 0,
            r matches Ok(c) ==> c@ == value,
            r matches Err(e) ==> e == (ParallelismError::EmptyInput {
                operation: OperationName("WorldSize::try_from"),
                details: ErrorDetails("world size must be greater than zero"),
            }),
    {
        if value == 0 {
            return Err(ParallelismError::empty_input("WorldSize::try_from", "world size must be greater than zero"));
        }
        Ok(WorldSize(value))
    }
}

impl TryFromSpecImpl<usize> for WorldSize {
    open spec fn obeys_try_from_spec() -> bool {
        true
    }

    open spec fn try_from_spec(value: usize) -> Result<WorldSize, ParallelismError> {
        world_size_from(value)
    }
}

/// Number of examples before data-parallel sharding.
#[derive(Debug, Clone, Copy, PartialEq, Eq, PartialOrd, Ord)]
pub struct GlobalBatchSize(usize);

impl View for GlobalBatchSize {
    type V = nat;

    closed spec fn view(&self) -> nat {
        self.0 as nat
    }
}

impl GlobalBatchSize {
    #[verifier::type_invariant]
    spec fn positive(self) -> bool {
        self.0 > 0
    }

    /// The value as a raw integer.
    pub fn as_usize(self) -> (v: usize)
        ensures
            v == self@,
            v > 0,
    {
        proof {
            use_type_invariant(&self);
        }
        self.0
    }

    /// Renders the count in decimal.
    pub fn to_string(&self) -> (s: String)
        ensures
            s@ == decimal_chars(self@),
    {
        decimal_string(self.0 as u128)
    }
}

/// What `GlobalBatchSize::try_from` returns for `value`.
pub closed spec fn global_batch_size_from(value: usize) -> Result<GlobalBatchSize, ParallelismError> {
    if value == 0 {
        Err(ParallelismError::EmptyInput {
            operation: OperationName("GlobalBatchSize::try_from"),
            details: ErrorDetails("global batch size must be greater than zero"),
        })
    } else {
        Ok(GlobalBatchSize(value))
    }
}

impl TryFrom<usize> for GlobalBatchSize {
    type Error = ParallelismError;

    /// Accepts any positive count.
    fn try_from(value: usize) -> (r: Result<GlobalBatchSize, ParallelismError>)
        ensures
            r == global_batch_size_from(value),
            r is Ok <==> value > 0,
            r matches Ok(c) ==> c@ == value,
            r matches Err(e) ==> e == (ParallelismError::EmptyInput {
                operation: OperationName("GlobalBatchSize::try_from"),
                details: ErrorDetails("global batch size must be greater than zero"),
            }),
    {
        if value == 0 {
            return Err(ParallelismError::empty_input("GlobalBatchSize::try_from", "global batch size must be greater than zero"));
        }
        Ok(GlobalBatchSize(value))
    }
}

impl TryFromSpecImpl<usize> for GlobalBatchSize {
    open spec fn obeys_try_from_spec() -> bool {
        true
    }

    open spec fn try_from_spec(value: usize) -> Result<GlobalBatchSize, ParallelismError> {
        global_batch_size_from(value)
    }
}

/// Number of examples owned by one data-parallel rank.
#[derive(Debug, Clone, Copy, PartialEq, Eq, PartialOrd, Ord)]
pub struct LocalBatchSize(usize);

impl View for LocalBatchSize {
    type V = nat;

    closed spec fn view(&self) -> nat {
        self.0 as nat
    }
}

impl LocalBatchSize {
    #[verifier::type_invariant]
    spec fn positive(self) -> bool {
        self.0 > 0
    }

    /// The value as a raw integer.
    pub fn as_usize(self) -> (v: usize)
        ensures
            v == self@,
            v > 0,
    {
        proof {
            use_type_invariant(&self);
        }
        self.0
    }

    /// Renders the count in decimal.
    pub fn to_string(&self) -> (s: String)
        ensures
            s@ == decimal_chars(self@),
    {
        decimal_string(self.0 as u128)
    }
}

/// What `LocalBatchSize::try_from` returns for `value`.
pub closed spec fn local_batch_size_from(value: usize) -> Result<LocalBatchSize, ParallelismError> {
    if value == 0 {
        Err(ParallelismError::EmptyInput {
            operation: OperationName("LocalBatchSize::try_from"),
            details: ErrorDetails("local batch size must be greater than zero"),
        })
    } else {
        Ok(LocalBatchSize(value))
    }
}

impl TryFrom<usize> for LocalBatchSize {
    type Error = ParallelismError;

    /// Accepts any positive count.
    fn try_from(value: usize) -> (r: Result<LocalBatchSize, ParallelismError>)
        ensures
            r == local_batch_size_from(value),
            r is Ok <==> value > 0,
            r matches Ok(c) ==> c@ == value,
            r matches Err(e) ==> e == (ParallelismError::EmptyInput {
                operation: OperationName("LocalBatchSize::try_from"),
                details: ErrorDetails("local batch size must be greater than zero"),
            }),
    {
        if value == 0 {
            return Err(ParallelismError::empty_input("LocalBatchSize::try_from", "local batch size must be greater than zero"));
        }
        Ok(LocalBatchSize(value))
    }
}

impl TryFromSpecImpl<usize> for LocalBatchSize {
    open spec fn obeys_try_from_spec() -> bool {
        true
    }

    open spec fn try_from_spec(value: usize) -> Result<LocalBatchSize, ParallelismError> {
        local_batch_size_from(value)
    }
}

/// Width of a model representation before tensor-parallel sharding.
#[derive(Debug, Clone, Copy, PartialEq, Eq, PartialOrd, Ord)]
pub struct ModelWidth(usize);

impl View for ModelWidth {
    type V = nat;

    closed spec fn view(&self) -> nat {
        self.0 as nat
    }
}

impl ModelWidth {
    #[verifier::type_invariant]
    spec fn positive(self) -> bool {
        self.0 > 0
    }

    /// The value as a raw integer.
    pub fn as_usize(self) -> (v: usize)
        ensures
            v == self@,
            v > 0,
    {
        proof {
            use_type_invariant(&self);
        }
        self.0
    }

    /// Renders the count in decimal.
    pub fn to_string(&self) -> (s: String)
        ensures
            s@ == decimal_chars(self@),
    {
        decimal_string(self.0 as u128)
    }
}

/// What `ModelWidth::try_from` returns for `value`.
pub closed spec fn model_width_from(value: usize) -> Result<ModelWidth, ParallelismError> {
    if value == 0 {
        Err(ParallelismError::EmptyInput {
            operation: OperationName("ModelWidth::try_from"),
            details: ErrorDetails("model width must be greater than zero"),
        })
    } else {
        Ok(ModelWidth(value))
    }
}

impl TryFrom<usize> for ModelWidth {
    type Error = ParallelismError;

    /// Accepts any positive count.
    fn try_from(value: usize) -> (r: Result<ModelWidth, ParallelismError>)
        ensures
            r == model_width_from(value),
            r is Ok <==> value > 0,
            r matches Ok(c) ==> c@ == value,
            r matches Err(e) ==> e == (ParallelismError::EmptyInput {
                operation: OperationName("ModelWidth::try_from"),
                details: ErrorDetails("model width must be greater than zero"),
            }),
    {
        if value == 0 {
            return Err(ParallelismError::empty_input("ModelWidth::try_from", "model width must be greater than zero"));
        }
        Ok(ModelWidth(value))
    }
}

impl TryFromSpecImpl<usize> for ModelWidth {
    open spec fn obeys_try_from_spec() -> bool {
        true
    }

    open spec fn try_from_spec(value: usize) -> Result<ModelWidth, ParallelismError> {
        model_width_from(value)
    }
}

/// Width owned by one tensor-parallel rank.
#[derive(Debug, Clone, Copy, PartialEq, Eq, PartialOrd, Ord)]
pub struct ShardWidth(usize);

impl View for ShardWidth {
    type V = nat;

    closed spec fn view(&self) -> nat {
        self.0 as nat
    }
}

impl ShardWidth {
    #[verifier::type_invariant]
    spec fn positive(self) -> bool {
        self.0 > 0
    }

    /// The value as a raw integer.
    pub fn as_usize(self) -> (v: usize)
        ensures
            v == self@,
            v > 0,
    {
        proof {
            use_type_invariant(&self);
        }
        self.0
    }

    /// Renders the count in decimal.
    pub fn to_string(&self) -> (s: String)
        ensures
            s@ == decimal_chars(self@),
    {
        decimal_string(self.0 as u128)
    }
}

/// What `ShardWidth::try_from` returns for `value`.
pub closed spec fn shard_width_from(value: usize) -> Result<ShardWidth, ParallelismError> {
    if value == 0 {
        Err(ParallelismError::EmptyInput {
            operation: OperationName("ShardWidth::try_from"),
            details: ErrorDetails("shard width must be greater than zero"),
        })
    } else {
        Ok(ShardWidth(value))
    }
}

impl TryFrom<usize> for ShardWidth {
    type Error = ParallelismError;

    /// Accepts any positive count.
    fn try_from(value: usize) -> (r: Result<ShardWidth, ParallelismError>)
        ensures
            r == shard_width_from(value),
            r is Ok <==> value > 0,
            r matches Ok(c) ==> c@ == value,
            r matches Err(e) ==> e == (ParallelismError::EmptyInput {
                operation: OperationName("ShardWidth::try_from"),
                details: ErrorDetails("shard width must be greater than zero"),
            }),
    {
        if value == 0 {
            return Err(ParallelismError::empty_input("ShardWidth::try_from", "shard width must be greater than zero"));
        }
        Ok(ShardWidth(value))
    }
}

impl TryFromSpecImpl<usize> for ShardWidth {
    open spec fn obeys_try_from_spec() -> bool {
        true
    }

    open spec fn try_from_spec(value: usize) -> Result<ShardWidth, ParallelismError> {
        shard_width_from(value)
    }
}

/// Number of layers before pipeline-parallel sharding.
#[derive(Debug, Clone, Copy, PartialEq, Eq, PartialOrd, Ord)]
pub struct LayerCount(usize);

impl View for LayerCount {
    type V = nat;

    closed spec fn view(&self) -> nat {
        self.0 as nat
    }
}

impl LayerCount {
    #[verifier::type_invariant]
    spec fn positive(self) -> bool {
        self.0 > 0
    }

    /// The value as a raw integer.
    pub fn as_usize(self) -> (v: usize)
        ensures
            v == self@,
            v > 0,
    {
        proof {
            use_type_invariant(&self);
        }
        self.0
    }

    /// Renders the count in decimal.
    pub fn to_string(&self) -> (s: String)
        ensures
            s@ == decimal_chars(self@),
    {
        decimal_string(self.0 as u128)
    }
}

/// What `LayerCount::try_from` returns for `value`.
pub closed spec fn layer_count_from(value: usize) -> Result<LayerCount, ParallelismError> {
    if value == 0 {
        Err(ParallelismError::EmptyInput {
            operation: OperationName("LayerCount::try_from"),
            details: ErrorDetails("layer count must be greater than zero"),
        })
    } else {
        Ok(LayerCount(value))
    }
}

impl TryFrom<usize> for LayerCount {
    type Error = ParallelismError;

    /// Accepts any positive count.
    fn try_from(value: usize) -> (r: Result<LayerCount, ParallelismError>)
        ensures
            r == layer_count_from(value),
            r is Ok <==> value > 0,
            r matches Ok(c) ==> c@ == value,
            r matches Err(e) ==> e == (ParallelismError::EmptyInput {
                operation: OperationName("LayerCount::try_from"),
                details: ErrorDetails("layer count must be greater than zero"),
            }),
    {
        if value == 0 {
            return Err(ParallelismError::empty_input("LayerCount::try_from", "layer count must be greater than zero"));
        }
        Ok(LayerCount(value))
    }
}

impl TryFromSpecImpl<usize> for LayerCount {
    open spec fn obeys_try_from_spec() -> bool {
        true
    }

    open spec fn try_from_spec(value: usize) -> Result<LayerCount, ParallelismError> {
        layer_count_from(value)
    }
}

/// Number of layers owned by one pipeline stage.
#[derive(Debug, Clone, Copy, PartialEq, Eq, PartialOrd, Ord)]
pub struct LayersPerRank(usize);

impl View for LayersPerRank {
    type V = nat;

    closed spec fn view(&self) -> nat {
        self.0 as nat
    }
}

impl LayersPerRank {
    #[verifier::type_invariant]
    spec fn positive(self) -> bool {
        self.0 > 0
    }

    /// The value as a raw integer.
    pub fn as_usize(self) -> (v: usize)
        ensures
            v == self@,
            v > 0,
    {
        proof {
            use_type_invariant(&self);
        }
        self.0
    }

    /// Renders the count in decimal.
    pub fn to_string(&self) -> (s: String)
        ensures
            s@ == decimal_chars(self@),
    {
        decimal_string(self.0 as u128)
    }
}

/// What `LayersPerRank::try_from` returns for `value`.
pub closed spec fn layers_per_rank_from(value: usize) -> Result<LayersPerRank, ParallelismError> {
    if value == 0 {
        Err(ParallelismError::EmptyInput {
            operation: OperationName("LayersPerRank::try_from"),
            details: ErrorDetails("layers per rank must be greater than zero"),
        })
    } else {
        Ok(LayersPerRank(value))
    }
}

impl TryFrom<usize> for LayersPerRank {
    type Error = ParallelismError;

    /// Accepts any positive count.
    fn try_from(value: usize) -> (r: Result<LayersPerRank, ParallelismError>)
        ensures
            r == layers_per_rank_from(value),
            r is Ok <==> value > 0,
            r matches Ok(c) ==> c@ == value,
            r matches Err(e) ==> e == (ParallelismError::EmptyInput {
                operation: OperationName("LayersPerRank::try_from"),
                details: ErrorDetails("layers per rank must be greater than zero"),
            }),
    {
        if value == 0 {
            return Err(ParallelismError::empty_input("LayersPerRank::try_from", "layers per rank must be greater than zero"));
        }
        Ok(LayersPerRank(value))
    }
}

impl TryFromSpecImpl<usize> for LayersPerRank {
    open spec fn obeys_try_from_spec() -> bool {
        true
    }

    open spec fn try_from_spec(value: usize) -> Result<LayersPerRank, ParallelismError> {
        layers_per_rank_from(value)
    }
}

/// Number of micro-batches used to fill a pipeline.
#[derive(Debug, Clone, Copy, PartialEq, Eq, PartialOrd, Ord)]
pub struct MicroBatchCount(usize);

impl View for MicroBatchCount {
    type V = nat;

    closed spec fn view(&self) -> nat {
        self.0 as nat
    }
}

impl MicroBatchCount {
    #[verifier::type_invariant]
    spec fn positive(self) -> bool {
        self.0 > 0
    }

    /// The value as a raw integer.
    pub fn as_usize(self) -> (v: usize)
        ensures
            v == self@,
            v > 0,
    {
        proof {
            use_type_invariant(&self);
        }
        self.0
    }

    /// Renders the count in decimal.
    pub fn to_string(&self) -> (s: String)
        ensures
            s@ == decimal_chars(self@),
    {
        decimal_string(self.0 as u128)
    }
}

/// What `MicroBatchCount::try_from` returns for `value`.
pub closed spec fn micro_batch_count_from(value: usize) -> Result<MicroBatchCount, ParallelismError> {
    if value == 0 {
        Err(ParallelismError::EmptyInput {
            operation: OperationName("MicroBatchCount::try_from"),
            details: ErrorDetails("micro-batch count must be greater than zero"),
        })
    } else {
        Ok(MicroBatchCount(value))
    }
}

impl TryFrom<usize> for MicroBatchCount {
    type Error = ParallelismError;

    /// Accepts any positive count.
    fn try_from(value: usize) -> (r: Result<MicroBatchCount, ParallelismError>)
        ensures
            r == micro_batch_count_from(value),
            r is Ok <==> value > 0,
            r matches Ok(c) ==> c@ == value,
            r matches Err(e) ==> e == (ParallelismError::EmptyInput {
                operation: OperationName("MicroBatchCount::try_from"),
                details: ErrorDetails("micro-batch count must be greater than zero"),
            }),
    {
        if value == 0 {
            return Err(ParallelismError::empty_input("MicroBatchCount::try_from", "micro-batch count must be greater than zero"));
        }
        Ok(MicroBatchCount(value))
    }
}

impl TryFromSpecImpl<usize> for MicroBatchCount {
    open spec fn obeys_try_from_spec() -> bool {
        true
    }

    open spec fn try_from_spec(value: usize) -> Result<MicroBatchCount, ParallelismError> {
        micro_batch_count_from(value)
    }
}

/// What `GlobalBatchSize / WorldSize` returns.
pub closed spec fn global_batch_size_split(value: GlobalBatchSize, world_size: WorldSize) -> Result<LocalBatchSize, ParallelismError> {
    if value.0 % world_size.0 != 0 {
        Err(uneven_split_error("GlobalBatchSize::div"))
    } else {
        Ok(LocalBatchSize((value.0 / world_size.0) as usize))
    }
}

impl std::ops::Div<WorldSize> for GlobalBatchSize {
    type Output = Result<LocalBatchSize, ParallelismError>;

    /// Splits the global batch evenly across ranks. Fails with `UnevenSplit` exactly when the division leaves a
    /// remainder.
    fn div(self, right: WorldSize) -> (r: Result<LocalBatchSize, ParallelismError>)
        ensures
            r == global_batch_size_split(self, right),
            r is Ok <==> self@ % right@ == 0,
            r matches Ok(v) ==> v@ == self@ / right@ && v@ * right@ == self@,
            r matches Err(e) ==> e == uneven_split_error("GlobalBatchSize::div"),
    {
        proof {
            use_type_invariant(&self);
            use_type_invariant(&right);
        }
        let q = exact_divide("GlobalBatchSize::div", self.0, right.0)?;
        proof {
            lemma_exact_quotient_positive(self.0 as int, right.0 as int);
        }
        Ok(LocalBatchSize(q))
    }
}

impl DivSpecImpl<WorldSize> for GlobalBatchSize {
    open spec fn obeys_div_spec() -> bool {
        true
    }

    open spec fn div_req(self, rhs: WorldSize) -> bool {
        true
    }

    open spec fn div_spec(self, rhs: WorldSize) -> Result<LocalBatchSize, ParallelismError> {
        global_batch_size_split(self, rhs)
    }
}

/// What `ModelWidth / WorldSize` returns.
pub closed spec fn model_width_split(value: ModelWidth, world_size: WorldSize) -> Result<ShardWidth, ParallelismError> {
    if value.0 % world_size.0 != 0 {
        Err(uneven_split_error("ModelWidth::div"))
    } else {
        Ok(ShardWidth((value.0 / world_size.0) as usize))
    }
}

impl std::ops::Div<WorldSize> for ModelWidth {
    type Output = Result<ShardWidth, ParallelismError>;

    /// Splits the model width evenly across ranks. Fails with `UnevenSplit` exactly when the division leaves a
    /// remainder.
    fn div(self, right: WorldSize) -> (r: Result<ShardWidth, ParallelismError>)
        ensures
            r == model_width_split(self, right),
            r is Ok <==> self@ % right@ == 0,
            r matches Ok(v) ==> v@ == self@ / right@ && v@ * right@ == self@,
            r matches Err(e) ==> e == uneven_split_error("ModelWidth::div"),
    {
        proof {
            use_type_invariant(&self);
            use_type_invariant(&right);
        }
        let q = exact_divide("ModelWidth::div", self.0, right.0)?;
        proof {
            lemma_exact_quotient_positive(self.0 as int, right.0 as int);
        }
        Ok(ShardWidth(q))
    }
}

impl DivSpecImpl<WorldSize> for ModelWidth {
    open spec fn obeys_div_spec() -> bool {
        true
    }

    open spec fn div_req(self, rhs: WorldSize) -> bool {
        true
    }

    open spec fn div_spec(self, rhs: WorldSize) -> Result<ShardWidth, ParallelismError> {
        model_width_split(self, rhs)
    }
}

/// What `LayerCount / WorldSize` returns.
pub closed spec fn layer_count_split(value: LayerCount, world_size: WorldSize) -> Result<LayersPerRank, ParallelismError> {
    if value.0 % world_size.0 != 0 {
        Err(uneven_split_error("LayerCount::div"))
    } else {
        Ok(LayersPerRank((value.0 / world_size.0) as usize))
    }
}

impl std::ops::Div<WorldSize> for LayerCount {
    type Output = Result<LayersPerRank, ParallelismError>;

    /// Splits the layer stack evenly across ranks. Fails with `UnevenSplit` exactly when the division leaves a
    /// remainder.
    fn div(self, right: WorldSize) -> (r: Result<LayersPerRank, ParallelismError>)
        ensures
            r == layer_count_split(self, right),
            r is Ok <==> self@ % right@ == 0,
            r matches Ok(v) ==> v@ == self@ / right@ && v@ * right@ == self@,
            r matches Err(e) ==> e == uneven_split_error("LayerCount::div"),
    {
        proof {
            use_type_invariant(&self);
            use_type_invariant(&right);
        }
        let q = exact_divide("LayerCount::div", self.0, right.0)?;
        proof {
            lemma_exact_quotient_positive(self.0 as int, right.0 as int);
        }
        Ok(LayersPerRank(q))
    }
}

impl DivSpecImpl<WorldSize> for LayerCount {
    open spec fn obeys_div_spec() -> bool {
        true
    }

    open spec fn div_req(self, rhs: WorldSize) -> bool {
        true
    }

    open spec fn div_spec(self, rhs: WorldSize) -> Result<LayersPerRank, ParallelismError> {
        layer_count_split(self, rhs)
    }
}

/// Raw rank index before it is checked against a world size.
#[derive(Debug, Clone, Copy, PartialEq, Eq, PartialOrd, Ord, Hash)]
pub struct RankIndex(usize);

impl View for RankIndex {
    type V = nat;

    closed spec fn view(&self) -> nat {
        self.0 as nat
    }
}

impl RankIndex {
    /// The value as a raw integer.
    pub fn as_usize(self) -> (v: usize)
        ensures
            v == self@,
    {
        self.0
    }

    /// Renders the index in decimal.
    pub fn to_string(&self) -> (s: String)
        ensures
            s@ == decimal_chars(self@),
    {
        decimal_string(self.0 as u128)
    }
}

/// What `RankIndex::try_from` returns: every index is accepted.
pub closed spec fn rank_index_from(value: usize) -> Result<RankIndex, ParallelismError> {
    Ok(RankIndex(value))
}

impl TryFrom<usize> for RankIndex {
    type Error = ParallelismError;

    /// Wraps any index; it is checked later against a world size.
    fn try_from(value: usize) -> (r: Result<RankIndex, ParallelismError>)
        ensures
            r == rank_index_from(value),
            r matches Ok(i) && i@ == value,
    {
        Ok(RankIndex(value))
    }
}

impl TryFromSpecImpl<usize> for RankIndex {
    open spec fn obeys_try_from_spec() -> bool {
        true
    }

    open spec fn try_from_spec(value: usize) -> Result<RankIndex, ParallelismError> {
        rank_index_from(value)
    }
}

/// Rank identity after validation against a world size.
#[derive(Debug, Clone, Copy, PartialEq, Eq, PartialOrd, Ord, Hash)]
pub struct RankId(RankIndex);

impl View for RankId {
    type V = nat;

    closed spec fn view(&self) -> nat {
        self.0@
    }
}

impl RankId {
    /// Creates a rank identity; fails with `CountOutOfRange` exactly when
    /// the index is not below the world size.
    pub fn new(index: RankIndex, world_size: WorldSize) -> (r: Result<Self, ParallelismError>)
        ensures
            r is Ok <==> index@ < world_size@,
            r matches Ok(id) ==> id@ == index@,
            r matches Err(e) ==> e == (ParallelismError::CountOutOfRange {
                role: ValueRole("rank index"),
                range: ValueRange("0..world_size"),
                value: index@ as usize,
            }),
    {
        if index.as_usize() >= world_size.as_usize() {
            return Err(
                ParallelismError::count_out_of_range("rank index", "0..world_size", index.as_usize()),
            );
        }
        Ok(RankId(index))
    }

    /// The value as a raw integer.
    pub fn as_usize(self) -> (v: usize)
        ensures
            v == self@,
    {
        self.0.as_usize()
    }

    /// Renders the rank, such as `rank 1`.
    pub fn to_string(&self) -> (s: String)
        ensures
            s@ == "rank "@ + decimal_chars(self@),
    {
        let mut s = String::from_str("rank ");
        let digits = decimal_string(self.0.0 as u128);
        s.append(digits.as_str());
        s
    }
}

/// Number of values in a tensor line.
#[derive(Debug, Clone, Copy, PartialEq, Eq, PartialOrd, Ord)]
pub struct TensorLength(usize);

impl View for TensorLength {
    type V = nat;

    closed spec fn view(&self) -> nat {
        self.0 as nat
    }
}

impl TensorLength {
    /// The length of a line of `len` values.
    pub fn of_len(len: usize) -> (l: Self)
        ensures
            l@ == len,
    {
        TensorLength(len)
    }

    /// The value as a raw integer.
    pub fn as_usize(self) -> (v: usize)
        ensures
            v == self@,
    {
        self.0
    }

    /// Renders the length in decimal.
    pub fn to_string(&self) -> (s: String)
        ensures
            s@ == decimal_chars(self@),
    {
        decimal_string(self.0 as u128)
    }
}

/// Zero-based segment start in a tensor line.
#[derive(Debug, Clone, Copy, PartialEq, Eq, PartialOrd, Ord)]
pub struct ShardStart(usize);

impl View for ShardStart {
    type V = nat;

    closed spec fn view(&self) -> nat {
        self.0 as nat
    }
}

impl ShardStart {
    fn from_raw(value: usize) -> (s: Self)
        ensures
            s@ == value,
    {
        ShardStart(value)
    }

    /// The start offset as a raw index.
    pub fn as_usize(self) -> (v: usize)
        ensures
            v == self@,
    {
        self.0
    }

    /// Renders the offset in decimal.
    pub fn to_string(&self) -> (s: String)
        ensures
            s@ == decimal_chars(self@),
    {
        decimal_string(self.0 as u128)
    }
}

/// Non-zero segment length in a tensor line.
#[derive(Debug, Clone, Copy, PartialEq, Eq, PartialOrd, Ord)]
pub struct ShardLength(usize);

impl View for ShardLength {
    type V = nat;

    closed spec fn view(&self) -> nat {
        self.0 as nat
    }
}

/// The error of an empty line split into zero-length shards.
pub open spec fn empty_shard_error() -> ParallelismError {
    ParallelismError::EmptyInput {
        operation: OperationName("ShardLength::from_raw"),
        details: ErrorDetails("shard length must be greater than zero"),
    }
}

/// What `length / world_size` returns for a tensor line.
pub closed spec fn tensor_length_split(length: TensorLength, world_size: WorldSize) -> Result<ShardLength, ParallelismError> {
    if length.0 % world_size.0 != 0 {
        Err(uneven_split_error("TensorLength::div"))
    } else if length.0 == 0 {
        Err(ParallelismError::EmptyInput {
            operation: OperationName("ShardLength::from_raw"),
            details: ErrorDetails("shard length must be greater than zero"),
        })
    } else {
        Ok(ShardLength((length.0 / world_size.0) as usize))
    }
}

impl ShardLength {
    #[verifier::type_invariant]
    spec fn positive(self) -> bool {
        self.0 > 0
    }

    fn from_raw(value: usize) -> (r: Result<Self, ParallelismError>)
        ensures
            r is Ok <==> value > 0,
            r matches Ok(l) ==> l@ == value,
            r matches Err(e) ==> e == (ParallelismError::EmptyInput {
                operation: OperationName("ShardLength::from_raw"),
                details: ErrorDetails("shard length must be greater than zero"),
            }),
    {
        if value == 0 {
            return Err(ParallelismError::empty_input("ShardLength::from_raw", "shard length must be greater than zero"));
        }
        Ok(ShardLength(value))
    }

    /// The value as a raw integer.
    pub fn as_usize(self) -> (v: usize)
        ensures
            v == self@,
            v > 0,
    {
        proof {
            use_type_invariant(&self);
        }
        self.0
    }

    /// Renders the length in decimal.
    pub fn to_string(&self) -> (s: String)
        ensures
            s@ == decimal_chars(self@),
    {
        decimal_string(self.0 as u128)
    }
}

impl std::ops::Div<WorldSize> for TensorLength {
    type Output = Result<ShardLength, ParallelismError>;

    /// Per-rank segment length; fails with `UnevenSplit` when the length
    /// leaves a remainder and with `EmptyInput` for an empty line.
    fn div(self, right: WorldSize) -> (r: Result<ShardLength, ParallelismError>)
        ensures
            r == tensor_length_split(self, right),
            r is Ok <==> self@ % right@ == 0 && self@ > 0,
            r matches Ok(l) ==> l@ == self@ / right@ && l@ * right@ == self@,
            r matches Err(e) ==> e == if self@ % right@ != 0 {
                uneven_split_error("TensorLength::div")
            } else {
                empty_shard_error()
            },
    {
        proof {
            use_type_invariant(&right);
        }
        let q = exact_divide("TensorLength::div", self.0, right.0)?;
        proof {
            if self.0 > 0 {
                lemma_exact_quotient_positive(self.0 as int, right.0 as int);
            } else {
                assert(q == 0);
            }
        }
        ShardLength::from_raw(q)
    }
}

impl DivSpecImpl<WorldSize> for TensorLength {
    open spec fn obeys_div_spec() -> bool {
        true
    }

    open spec fn div_req(self, rhs: WorldSize) -> bool {
        true
    }

    open spec fn div_spec(self, rhs: WorldSize) -> Result<ShardLength, ParallelismError> {
        tensor_length_split(self, rhs)
    }
}

/// One rank's owned segment of a line of values.
#[derive(Debug, Clone, PartialEq)]
pub struct RankShard<T> {
    rank: RankId,
    start: ShardStart,
    values: Vec<T>,
}

impl<T> RankShard<T> {
    /// The owning rank, in specifications.
    pub closed spec fn spec_rank(&self) -> RankId {
        self.rank
    }

    /// The start offset, in specifications.
    pub closed spec fn spec_start(&self) -> ShardStart {
        self.start
    }

    /// The segment values, in specifications.
    pub closed spec fn spec_values(&self) -> Seq<T> {
        self.values@
    }

    /// Returns the rank that owns this shard.
    #[verifier::when_used_as_spec(spec_rank)]
    pub fn rank(&self) -> (r: RankId)
        ensures
            r == self.spec_rank(),
    {
        self.rank
    }

    /// Returns the start offset in the unsplit line.
    #[verifier::when_used_as_spec(spec_start)]
    pub fn start(&self) -> (s: ShardStart)
        ensures
            s == self.spec_start(),
    {
        self.start
    }

    /// Returns the local values.
    pub fn values(&self) -> (v: &Vec<T>)
        ensures
            v@ == self.spec_values(),
    {
        &self.values
    }
}

/// The parallel axis used by one plan.
#[derive(Debug, Clone, Copy, PartialEq, Eq)]
pub enum ParallelStrategy {
    /// Split the batch axis and replicate model parameters.
    DataParallel,
    /// Split the model-width axis and communicate activations.
    TensorParallel,
    /// Split the layer-depth axis and communicate activations between stages.
    PipelineParallel,
}

/// The learner-facing name of a strategy.
pub open spec fn strategy_name(strategy: ParallelStrategy) -> Seq<char> {
    match strategy {
        ParallelStrategy::DataParallel => "data-parallel"@,
        ParallelStrategy::TensorParallel => "tensor-parallel"@,
        ParallelStrategy::PipelineParallel => "pipeline-parallel"@,
    }
}

impl ParallelStrategy {
    /// Renders the strategy name, such as `data-parallel`.
    pub fn to_string(&self) -> (s: String)
        ensures
            s@ == strategy_name(*self),
    {
        match self {
            ParallelStrategy::DataParallel => String::from_str("data-parallel"),
            ParallelStrategy::TensorParallel => String::from_str("tensor-parallel"),
            ParallelStrategy::PipelineParallel => String::from_str("pipeline-parallel"),
        }
    }
}

/// A complete sharding plan over all ranks.
#[derive(Debug, Clone, PartialEq)]
pub struct ShardPlan<T> {
    strategy: ParallelStrategy,
    shards: Vec<RankShard<T>>,
}

impl<T> ShardPlan<T> {
    /// The strategy, in specifications.
    pub closed spec fn spec_strategy(&self) -> ParallelStrategy {
        self.strategy
    }

    /// The shards in rank order, in specifications.
    pub closed spec fn spec_shards(&self) -> Seq<RankShard<T>> {
        self.shards@
    }

    /// Returns the parallel strategy that produced this plan.
    #[verifier::when_used_as_spec(spec_strategy)]
    pub fn strategy(&self) -> (s: ParallelStrategy)
        ensures
            s == self.spec_strategy(),
    {
        self.strategy
    }

    /// The shards, in rank order.
    pub fn shards(&self) -> (s: &Vec<RankShard<T>>)
        ensures
            s@ == self.spec_shards(),
    {
        &self.shards
    }
}

/// Whether `plan` gives rank `i` exactly the `i`-th block of `len` values
/// of `values`, for every rank of a world of `world` ranks.
pub open spec fn is_even_partition<T>(plan: ShardPlan<T>, values: Seq<T>, world: nat, len: nat) -> bool {
    &&& plan.spec_shards().len() == world
    &&& forall|i: int|
        #![trigger plan.spec_shards()[i]]
        0 <= i < world ==> {
            let shard = plan.spec_shards()[i];
            &&& shard.spec_rank()@ == i
            &&& shard.spec_start()@ == i * len
            &&& shard.spec_values() == values.subrange(i * len, i * len + len)
        }
}

proof fn lemma_block_in_bounds(i: int, len: int, world: int)
    requires
        0 <= i < world,
        len > 0,
    ensures
        0 <= i * len,
        i * len + len <= len * world,
{
    assert(0 <= i * len) by (nonlinear_arith)
        requires
            0 <= i,
            len > 0,
    ;
    assert(i * len + len <= len * world) by (nonlinear_arith)
        requires
            i < world,
            len > 0,
    ;
}

/// Splits a line of values evenly across ranks: rank `i` owns the `i`-th
/// contiguous block. Fails with `EmptyInput` for an empty line and with
/// `UnevenSplit` when the length does not divide by the world size.
pub fn shard_tensor_line<T: Copy>(values: Vec<T>, world_size: WorldSize, strategy: ParallelStrategy) -> (r: Result<
    ShardPlan<T>,
    ParallelismError,
>)
    ensures
        r is Ok <==> values@.len() > 0 && values@.len() % world_size@ == 0,
        r matches Err(e) ==> e == if values@.len() % world_size@ != 0 {
            uneven_split_error("TensorLength::div")
        } else {
            empty_shard_error()
        },
        r matches Ok(plan) ==> plan.strategy() == strategy && is_even_partition(
            plan,
            values@,
            world_size@,
            values@.len() / world_size@,
        ),
{
    let shard_length = (TensorLength(values.len()) / world_size)?;
    let world = world_size.as_usize();
    let len = shard_length.as_usize();
    let n = values.len();
    let mut shards: Vec<RankShard<T>> = Vec::new();
    let mut rank_index: usize = 0;
    while rank_index < world
        invariant
            world == world_size@,
            len == shard_length@,
            len * world == values@.len(),
            n == values@.len(),
            len > 0,
            rank_index <= world,
            shards@.len() == rank_index,
            forall|i: int|
                #![trigger shards@[i]]
                0 <= i < rank_index ==> {
                    let shard = shards@[i];
                    &&& shard.spec_rank()@ == i
                    &&& shard.spec_start()@ == i * len
                    &&& shard.spec_values() == values@.subrange(i * len, i * len + len)
                },
        decreases world - rank_index,
    {
        let rank = RankId::new(RankIndex(rank_index), world_size)?;
        proof {
            lemma_block_in_bounds(rank_index as int, len as int, world as int);
        }
        let start_offset = rank_index * len;
        let start = ShardStart::from_raw(start_offset);
        let mut segment: Vec<T> = Vec::new();
        let mut k: usize = 0;
        while k < len
            invariant
                start_offset + len <= values@.len(),
                n == values@.len(),
                k <= len,
                segment@ == values@.subrange(start_offset as int, start_offset + k),
            decreases len - k,
        {
            segment.push(values[start_offset + k]);
            assert(values@.subrange(start_offset as int, start_offset + k + 1) =~= values@.subrange(
                start_offset as int,
                start_offset + k,
            ).push(values@[start_offset + k]));
            k = k + 1;
        }
        shards.push(RankShard { rank, start, values: segment });
        rank_index = rank_index + 1;
    }
    proof {
        assert(values@.len() / world_size@ == len) by (nonlinear_arith)
            requires
                len * world == values@.len(),
                world > 0,
                world == world_size@,
        ;
    }
    Ok(ShardPlan { strategy, shards })
}

/// Data-parallel shape summary.
#[derive(Debug, Clone, Copy, PartialEq, Eq)]
pub struct DataParallelLayout {
    global_batch: GlobalBatchSize,
    world_size: WorldSize,
    local_batch: LocalBatchSize,
}

impl DataParallelLayout {
    /// Creates a layout by splitting the global batch across ranks; fails
    /// with `UnevenSplit` exactly when the batch does not divide evenly.
    pub fn new(global_batch: GlobalBatchSize, world_size: WorldSize) -> (r: Result<Self, ParallelismError>)
        ensures
            r is Ok <==> global_batch@ % world_size@ == 0,
            r matches Ok(l) ==> l.global_batch() == global_batch && l.world_size() == world_size
                && l.local_batch()@ * world_size@ == global_batch@,
            r matches Err(e) ==> e == uneven_split_error("GlobalBatchSize::div"),
    {
        let local_batch = (global_batch / world_size)?;
        Ok(DataParallelLayout { global_batch, world_size, local_batch })
    }

    /// The global batch, in specifications.
    pub closed spec fn spec_global_batch(&self) -> GlobalBatchSize {
        self.global_batch
    }

    /// The world size, in specifications.
    pub closed spec fn spec_world_size(&self) -> WorldSize {
        self.world_size
    }

    /// The local batch, in specifications.
    pub closed spec fn spec_local_batch(&self) -> LocalBatchSize {
        self.local_batch
    }

    /// Returns the global batch size that was split.
    #[verifier::when_used_as_spec(spec_global_batch)]
    pub fn global_batch(&self) -> (g: GlobalBatchSize)
        ensures
            g == self.spec_global_batch(),
    {
        self.global_batch
    }

    /// Returns the number of ranks.
    #[verifier::when_used_as_spec(spec_world_size)]
    pub fn world_size(&self) -> (w: WorldSize)
        ensures
            w == self.spec_world_size(),
    {
        self.world_size
    }

    /// Returns the local batch size per rank.
    #[verifier::when_used_as_spec(spec_local_batch)]
    pub fn local_batch(&self) -> (l: LocalBatchSize)
        ensures
            l == self.spec_local_batch(),
    {
        self.local_batch
    }
}

/// Tensor-parallel shape summary.
#[derive(Debug, Clone, Copy, PartialEq, Eq)]
pub struct TensorParallelLayout {
    model_width: ModelWidth,
    world_size: WorldSize,
    shard_width: ShardWidth,
}

impl TensorParallelLayout {
    /// Creates a layout by splitting model width across ranks; fails with
    /// `UnevenSplit` exactly when the width does not divide evenly.
    pub fn new(model_width: ModelWidth, world_size: WorldSize) -> (r: Result<Self, ParallelismError>)
        ensures
            r is Ok <==> model_width@ % world_size@ == 0,
            r matches Ok(l) ==> l.model_width() == model_width && l.world_size() == world_size
                && l.shard_width()@ * world_size@ == model_width@,
            r matches Err(e) ==> e == uneven_split_error("ModelWidth::div"),
    {
        let shard_width = (model_width / world_size)?;
        Ok(TensorParallelLayout { model_width, world_size, shard_width })
    }

    /// The model width, in specifications.
    pub closed spec fn spec_model_width(&self) -> ModelWidth {
        self.model_width
    }

    /// The world size, in specifications.
    pub closed spec fn spec_world_size(&self) -> WorldSize {
        self.world_size
    }

    /// The shard width, in specifications.
    pub closed spec fn spec_shard_width(&self) -> ShardWidth {
        self.shard_width
    }

    /// Returns the model width that was split.
    #[verifier::when_used_as_spec(spec_model_width)]
    pub fn model_width(&self) -> (m: ModelWidth)
        ensures
            m == self.spec_model_width(),
    {
        self.model_width
    }

    /// Returns the number of ranks.
    #[verifier::when_used_as_spec(spec_world_size)]
    pub fn world_size(&self) -> (w: WorldSize)
        ensures
            w == self.spec_world_size(),
    {
        self.world_size
    }

    /// Returns the local model width per rank.
    #[verifier::when_used_as_spec(spec_shard_width)]
    pub fn shard_width(&self) -> (s: ShardWidth)
        ensures
            s == self.spec_shard_width(),
    {
        self.shard_width
    }
}

/// Pipeline-parallel shape summary.
#[derive(Debug, Clone, Copy, PartialEq, Eq)]
pub struct PipelineLayout {
    layer_count: LayerCount,
    world_size: WorldSize,
    layers_per_rank: LayersPerRank,
}

impl PipelineLayout {
    /// Creates a layout by splitting layers across ranks; fails with
    /// `UnevenSplit` exactly when the layer count does not divide evenly.
    pub fn new(layer_count: LayerCount, world_size: WorldSize) -> (r: Result<Self, ParallelismError>)
        ensures
            r is Ok <==> layer_count@ % world_size@ == 0,
            r matches Ok(l) ==> l.layer_count() == layer_count && l.stage_count()@ == world_size@
                && l.layers_per_rank()@ * world_size@ == layer_count@,
            r matches Err(e) ==> e == uneven_split_error("LayerCount::div"),
    {
        let layers_per_rank = (layer_count / world_size)?;
        Ok(PipelineLayout { layer_count, world_size, layers_per_rank })
    }

    /// The layer count, in specifications.
    pub closed spec fn spec_layer_count(&self) -> LayerCount {
        self.layer_count
    }

    /// The stage count, in specifications.
    pub closed spec fn spec_stage_count(&self) -> PipelineStageCount {
        PipelineStageCount(self.world_size.0)
    }

    /// The layers per rank, in specifications.
    pub closed spec fn spec_layers_per_rank(&self) -> LayersPerRank {
        self.layers_per_rank
    }

    /// Returns the layer count that was split.
    #[verifier::when_used_as_spec(spec_layer_count)]
    pub fn layer_count(&self) -> (l: LayerCount)
        ensures
            l == self.spec_layer_count(),
    {
        self.layer_count
    }

    /// Returns the number of pipeline stages, one per rank.
    #[verifier::when_used_as_spec(spec_stage_count)]
    pub fn stage_count(&self) -> (s: PipelineStageCount)
        ensures
            s == self.spec_stage_count(),
    {
        PipelineStageCount(self.world_size.as_usize())
    }

    /// Returns the number of layers per rank.
    #[verifier::when_used_as_spec(spec_layers_per_rank)]
    pub fn layers_per_rank(&self) -> (l: LayersPerRank)
        ensures
            l == self.spec_layers_per_rank(),
    {
        self.layers_per_rank
    }
}

/// Number of pipeline stages.
#[derive(Debug, Clone, Copy, PartialEq, Eq, PartialOrd, Ord)]
pub struct PipelineStageCount(usize);

impl View for PipelineStageCount {
    type V = nat;

    closed spec fn view(&self) -> nat {
        self.0 as nat
    }
}

impl PipelineStageCount {
    /// The value as a raw integer.
    pub fn as_usize(self) -> (v: usize)
        ensures
            v == self@,
    {
        self.0
    }

    /// Renders the count in decimal.
    pub fn to_string(&self) -> (s: String)
        ensures
            s@ == decimal_chars(self@),
    {
        decimal_string(self.0 as u128)
    }
}

/// Number of forward schedule slots in a simple pipeline.
#[derive(Debug, Clone, Copy, PartialEq, Eq, PartialOrd, Ord)]
pub struct PipelineScheduleLength(usize);

impl View for PipelineScheduleLength {
    type V = nat;

    closed spec fn view(&self) -> nat {
        self.0 as nat
    }
}

/// What `stages + micro_batches` returns: the `stages - 1` ramp slots plus
/// one slot per micro-batch.
pub closed spec fn schedule_length(stages: PipelineStageCount, micro_batches: MicroBatchCount) -> Result<
    PipelineScheduleLength,
    ParallelismError,
> {
    if stages.0 == 0 {
        Err(ParallelismError::EmptyInput {
            operation: OperationName("PipelineStageCount::add"),
            details: ErrorDetails("pipeline stage count must be greater than zero"),
        })
    } else if stages.0 - 1 + micro_batches.0 > usize::MAX {
        Err(ParallelismError::Overflow {
            operation: OperationName("PipelineStageCount::add"),
            details: ErrorDetails("pipeline schedule length overflowed usize"),
        })
    } else {
        Ok(PipelineScheduleLength((stages.0 - 1 + micro_batches.0) as usize))
    }
}

impl PipelineScheduleLength {
    /// Renders the length with its unit, such as `6 schedule slots`.
    pub fn to_string(&self) -> (s: String)
        ensures
            s@ == decimal_chars(self@) + " schedule slots"@,
    {
        let mut s = decimal_string(self.0 as u128);
        s.append(" schedule slots");
        s
    }
}

impl std::ops::Add<MicroBatchCount> for PipelineStageCount {
    type Output = Result<PipelineScheduleLength, ParallelismError>;

    /// Forward schedule slots: `stages - 1 + micro_batches`.
    fn add(self, right: MicroBatchCount) -> (r: Result<PipelineScheduleLength, ParallelismError>)
        ensures
            r == schedule_length(self, right),
            r is Ok <==> self@ > 0 && self@ - 1 + right@ <= usize::MAX,
            r matches Ok(l) ==> l@ == self@ - 1 + right@,
            r matches Err(e) ==> e == if self@ == 0 {
                ParallelismError::EmptyInput {
                    operation: OperationName("PipelineStageCount::add"),
                    details: ErrorDetails("pipeline stage count must be greater than zero"),
                }
            } else {
                ParallelismError::Overflow {
                    operation: OperationName("PipelineStageCount::add"),
                    details: ErrorDetails("pipeline schedule length overflowed usize"),
                }
            },
    {
        proof {
            use_type_invariant(&right);
        }
        let ramp = match self.0.checked_sub(1) {
            Some(ramp) => ramp,
            None => {
                return Err(
                    ParallelismError::empty_input(
                        "PipelineStageCount::add",
                        "pipeline stage count must be greater than zero",
                    ),
                );
            },
        };
        match ramp.checked_add(right.0) {
            Some(total) => Ok(PipelineScheduleLength(total)),
            None => Err(
                ParallelismError::overflow("PipelineStageCount::add", "pipeline schedule length overflowed usize"),
            ),
        }
    }
}

impl AddSpecImpl<MicroBatchCount> for PipelineStageCount {
    open spec fn obeys_add_spec() -> bool {
        true
    }

    open spec fn add_req(self, rhs: MicroBatchCount) -> bool {
        true
    }

    open spec fn add_spec(self, rhs: MicroBatchCount) -> Result<PipelineScheduleLength, ParallelismError> {
        schedule_length(self, rhs)
    }
}

/// Number of bytes communicated by a collective estimate.
#[derive(Debug, Clone, Copy, PartialEq, Eq, PartialOrd, Ord)]
pub struct CommunicationBytes(u64);

impl View for CommunicationBytes {
    type V = nat;

    closed spec fn view(&self) -> nat {
        self.0 as nat
    }
}

/// What `CommunicationBytes::try_from` returns for `value`.
pub closed spec fn communication_bytes_from(value: u64) -> Result<CommunicationBytes, ParallelismError> {
    if value == 0 {
        Err(ParallelismError::EmptyInput {
            operation: OperationName("CommunicationBytes::try_from"),
            details: ErrorDetails("communication bytes must be greater than zero"),
        })
    } else {
        Ok(CommunicationBytes(value))
    }
}

/// What `left + right` returns for two communication estimates.
pub closed spec fn communication_sum(left: CommunicationBytes, right: CommunicationBytes) -> Result<
    CommunicationBytes,
    ParallelismError,
> {
    if left.0 + right.0 > u64::MAX {
        Err(ParallelismError::Overflow {
            operation: OperationName("CommunicationBytes::add"),
            details: ErrorDetails("u64 addition overflowed"),
        })
    } else {
        Ok(CommunicationBytes((left.0 + right.0) as u64))
    }
}

/// What `bytes * rounds` returns.
pub closed spec fn communication_product(bytes: CommunicationBytes, rounds: CommunicationRounds) -> Result<
    CommunicationBytes,
    ParallelismError,
> {
    if bytes.0 * rounds.0 > u64::MAX {
        Err(ParallelismError::Overflow {
            operation: OperationName("CommunicationBytes::mul"),
            details: ErrorDetails("u64 multiplication overflowed"),
        })
    } else {
        Ok(CommunicationBytes((bytes.0 * rounds.0) as u64))
    }
}

impl CommunicationBytes {
    #[verifier::type_invariant]
    spec fn positive(self) -> bool {
        self.0 > 0
    }

    /// The byte count as a raw integer.
    pub fn as_u64(self) -> (v: u64)
        ensures
            v == self@,
            v > 0,
    {
        proof {
            use_type_invariant(&self);
        }
        self.0
    }

    /// Renders the count with its unit, such as `128 bytes`.
    pub fn to_string(&self) -> (s: String)
        ensures
            s@ == decimal_chars(self@) + " bytes"@,
    {
        let mut s = decimal_string(self.0 as u128);
        s.append(" bytes");
        s
    }
}

impl TryFrom<u64> for CommunicationBytes {
    type Error = ParallelismError;

    /// Accepts any positive byte count.
    fn try_from(value: u64) -> (r: Result<CommunicationBytes, ParallelismError>)
        ensures
            r == communication_bytes_from(value),
            r is Ok <==> value > 0,
            r matches Ok(b) ==> b@ == value,
            r matches Err(e) ==> e == (ParallelismError::EmptyInput {
                operation: OperationName("CommunicationBytes::try_from"),
                details: ErrorDetails("communication bytes must be greater than zero"),
            }),
    {
        if value == 0 {
            return Err(
                ParallelismError::empty_input(
                    "CommunicationBytes::try_from",
                    "communication bytes must be greater than zero",
                ),
            );
        }
        Ok(CommunicationBytes(value))
    }
}

impl TryFromSpecImpl<u64> for CommunicationBytes {
    open spec fn obeys_try_from_spec() -> bool {
        true
    }

    open spec fn try_from_spec(value: u64) -> Result<CommunicationBytes, ParallelismError> {
        communication_bytes_from(value)
    }
}

impl std::ops::Add for CommunicationBytes {
    type Output = Result<CommunicationBytes, ParallelismError>;

    /// Adds two byte counts, reporting overflow of `u64`.
    fn add(self, right: CommunicationBytes) -> (r: Result<CommunicationBytes, ParallelismError>)
        ensures
            r == communication_sum(self, right),
            r is Ok <==> self@ + right@ <= u64::MAX,
            r matches Ok(b) ==> b@ == self@ + right@,
            r matches Err(e) ==> e == (ParallelismError::Overflow {
                operation: OperationName("CommunicationBytes::add"),
                details: ErrorDetails("u64 addition overflowed"),
            }),
    {
        proof {
            use_type_invariant(&self);
        }
        match self.0.checked_add(right.0) {
            Some(total) => Ok(CommunicationBytes(total)),
            None => Err(ParallelismError::overflow("CommunicationBytes::add", "u64 addition overflowed")),
        }
    }
}

impl AddSpecImpl for CommunicationBytes {
    open spec fn obeys_add_spec() -> bool {
        true
    }

    open spec fn add_req(self, rhs: CommunicationBytes) -> bool {
        true
    }

    open spec fn add_spec(self, rhs: CommunicationBytes) -> Result<CommunicationBytes, ParallelismError> {
        communication_sum(self, rhs)
    }
}

/// Non-zero number of communication rounds.
#[derive(Debug, Clone, Copy, PartialEq, Eq, PartialOrd, Ord)]
pub struct CommunicationRounds(u64);

impl View for CommunicationRounds {
    type V = nat;

    closed spec fn view(&self) -> nat {
        self.0 as nat
    }
}

/// What `CommunicationRounds::try_from` returns for `value`.
pub closed spec fn communication_rounds_from(value: u64) -> Result<CommunicationRounds, ParallelismError> {
    if value == 0 {
        Err(ParallelismError::EmptyInput {
            operation: OperationName("CommunicationRounds::try_from"),
            details: ErrorDetails("communication rounds must be greater than zero"),
        })
    } else {
        Ok(CommunicationRounds(value))
    }
}

impl CommunicationRounds {
    #[verifier::type_invariant]
    spec fn positive(self) -> bool {
        self.0 > 0
    }
}

impl TryFrom<u64> for CommunicationRounds {
    type Error = ParallelismError;

    /// Accepts any positive number of rounds.
    fn try_from(value: u64) -> (r: Result<CommunicationRounds, ParallelismError>)
        ensures
            r == communication_rounds_from(value),
            r is Ok <==> value > 0,
            r matches Ok(c) ==> c@ == value,
            r matches Err(e) ==> e == (ParallelismError::EmptyInput {
                operation: OperationName("CommunicationRounds::try_from"),
                details: ErrorDetails("communication rounds must be greater than zero"),
            }),
    {
        if value == 0 {
            return Err(
                ParallelismError::empty_input(
                    "CommunicationRounds::try_from",
                    "communication rounds must be greater than zero",
                ),
            );
        }
        Ok(CommunicationRounds(value))
    }
}

impl TryFromSpecImpl<u64> for CommunicationRounds {
    open spec fn obeys_try_from_spec() -> bool {
        true
    }

    open spec fn try_from_spec(value: u64) -> Result<CommunicationRounds, ParallelismError> {
        communication_rounds_from(value)
    }
}

impl std::ops::Mul<CommunicationRounds> for CommunicationBytes {
    type Output = Result<CommunicationBytes, ParallelismError>;

    /// Bytes moved over several rounds, reporting overflow of `u64`.
    fn mul(self, right: CommunicationRounds) -> (r: Result<CommunicationBytes, ParallelismError>)
        ensures
            r == communication_product(self, right),
            r is Ok <==> self@ * right@ <= u64::MAX,
            r matches Ok(b) ==> b@ == self@ * right@,
            r matches Err(e) ==> e == (ParallelismError::Overflow {
                operation: OperationName("CommunicationBytes::mul"),
                details: ErrorDetails("u64 multiplication overflowed"),
            }),
    {
        proof {
            use_type_invariant(&self);
            use_type_invariant(&right);
            assert(self.0 * right.0 >= 1) by (nonlinear_arith)
                requires
                    self.0 >= 1,
                    right.0 >= 1,
            ;
        }
        match self.0.checked_mul(right.0) {
            Some(total) => Ok(CommunicationBytes(total)),
            None => Err(ParallelismError::overflow("CommunicationBytes::mul", "u64 multiplication overflowed")),
        }
    }
}

impl MulSpecImpl<CommunicationRounds> for CommunicationBytes {
    open spec fn obeys_mul_spec() -> bool {
        true
    }

    open spec fn mul_req(self, rhs: CommunicationRounds) -> bool {
        true
    }

    open spec fn mul_spec(self, rhs: CommunicationRounds) -> Result<CommunicationBytes, ParallelismError> {
        communication_product(self, rhs)
    }
}

/// Bytes moved by a ring all-reduce that sends `bytes_per_rank` in each of
/// its two phases (reduce-scatter, then all-gather).
pub fn all_reduce_communication(bytes_per_rank: CommunicationBytes) -> (r: Result<
    CommunicationBytes,
    ParallelismError,
>)
    ensures
        r is Ok <==> 2 * bytes_per_rank@ <= u64::MAX,
        r matches Ok(b) ==> b@ == 2 * bytes_per_rank@,
        r matches Err(e) ==> e == (ParallelismError::Overflow {
            operation: OperationName("CommunicationBytes::mul"),
            details: ErrorDetails("u64 multiplication overflowed"),
        }),
{
    let rounds = CommunicationRounds::try_from(2u64)?;
    assert(rounds@ == 2);
    let r = bytes_per_rank * rounds;
    assert(r == communication_product(bytes_per_rank, rounds));
    assert(bytes_per_rank@ * rounds@ == 2 * bytes_per_rank@);
    r
}

/// Collective communication pattern.
#[derive(Debug, Clone, Copy, PartialEq, Eq)]
pub enum CollectiveKind {
    /// Sum local values and replicate the result on every rank.
    AllReduce,
    /// Sum local values and distribute one reduced shard per rank.
    ReduceScatter,
    /// Gather local shards so every rank sees the full value.
    AllGather,
}

/// The learner-facing name of a collective.
pub open spec fn collective_name(kind: CollectiveKind) -> Seq<char> {
    match kind {
        CollectiveKind::AllReduce => "all-reduce"@,
        CollectiveKind::ReduceScatter => "reduce-scatter"@,
        CollectiveKind::AllGather => "all-gather"@,
    }
}

impl CollectiveKind {
    /// Renders the collective name, such as `all-reduce`.
    pub fn to_string(&self) -> (s: String)
        ensures
            s@ == collective_name(*self),
    {
        match self {
            CollectiveKind::AllReduce => String::from_str("all-reduce"),
            CollectiveKind::ReduceScatter => String::from_str("reduce-scatter"),
            CollectiveKind::AllGather => String::from_str("all-gather"),
        }
    }
}

/// Publication class attached to a parallelism trace before public release.
#[derive(Debug, Clone, Copy, PartialEq, Eq)]
pub enum ParallelTraceVisibility {
    /// Safe to include in learner-facing public parallelism reports.
    Public,
    /// Useful for restricted study, but not public learner-facing material.
    ResearchRestricted,
    /// Must stay out of public learner-facing material.
    Private,
}

/// The learner-facing name of a visibility class.
pub open spec fn visibility_name(visibility: ParallelTraceVisibility) -> Seq<char> {
    match visibility {
        ParallelTraceVisibility::Public => "public"@,
        ParallelTraceVisibility::ResearchRestricted => "research-restricted"@,
        ParallelTraceVisibility::Private => "private"@,
    }
}

impl ParallelTraceVisibility {
    /// Renders the class name, such as `research-restricted`.
    pub fn to_string(&self) -> (s: String)
        ensures
            s@ == visibility_name(*self),
    {
        match self {
            ParallelTraceVisibility::Public => String::from_str("public"),
            ParallelTraceVisibility::ResearchRestricted => String::from_str("research-restricted"),
            ParallelTraceVisibility::Private => String::from_str("private"),
        }
    }
}

/// Typed decision at the parallelism-report publication boundary.
#[derive(Debug, Clone, Copy, PartialEq, Eq)]
pub enum PublicParallelismDecision {
    /// The trace can appear in a public learner-facing report.
    Publishable,
    /// The trace must stay out of public learner-facing reports.
    Blocked,
}

/// Classifies whether a trace of this visibility can enter a public report:
/// only public traces are publishable.
pub fn release_decision(visibility: ParallelTraceVisibility) -> (d: PublicParallelismDecision)
    ensures
        d == PublicParallelismDecision::Publishable <==> visibility == ParallelTraceVisibility::Public,
        d == PublicParallelismDecision::Blocked <==> visibility != ParallelTraceVisibility::Public,
{
    match visibility {
        ParallelTraceVisibility::Public => PublicParallelismDecision::Publishable,
        ParallelTraceVisibility::ResearchRestricted | ParallelTraceVisibility::Private => {
            PublicParallelismDecision::Blocked
        },
    }
}

/// A collective trace together with the publication class it was reviewed
/// under.
#[derive(Debug, Clone, PartialEq)]
pub struct ReviewedCollectiveTrace<T> {
    trace: T,
    visibility: ParallelTraceVisibility,
}

impl<T> ReviewedCollectiveTrace<T> {
    /// Creates a reviewed collective trace.
    pub fn new(trace: T, visibility: ParallelTraceVisibility) -> (r: Self)
        ensures
            r.spec_trace() == trace,
            r.visibility() == visibility,
    {
        ReviewedCollectiveTrace { trace, visibility }
    }

    /// The reviewed trace.
    pub closed spec fn spec_trace(&self) -> T {
        self.trace
    }

    /// The publication class.
    pub closed spec fn spec_visibility(&self) -> ParallelTraceVisibility {
        self.visibility
    }

    /// Returns the reviewed collective trace.
    pub fn trace(&self) -> (t: &T)
        ensures
            *t == self.spec_trace(),
    {
        &self.trace
    }

    /// Returns the publication class.
    #[verifier::when_used_as_spec(spec_visibility)]
    pub fn visibility(&self) -> (v: ParallelTraceVisibility)
        ensures
            v == self.spec_visibility(),
    {
        self.visibility
    }

    /// Classifies whether this trace can enter a public report.
    pub fn release_decision(&self) -> (d: PublicParallelismDecision)
        ensures
            d == PublicParallelismDecision::Publishable <==> self.visibility() == ParallelTraceVisibility::Public,
            d == PublicParallelismDecision::Blocked <==> self.visibility() != ParallelTraceVisibility::Public,
    {
        release_decision(self.visibility)
    }
}

/// A collective trace that passed the public-release boundary. Only a trace
/// reviewed as public can ever be held here.
#[derive(Debug, Clone, PartialEq)]
pub struct PublicParallelismReport<T>(T);

/// The refusal of a restricted or private trace.
pub open spec fn refused_public_report() -> ParallelismError {
    ParallelismError::InvalidPublicReport {
        operation: OperationName("PublicParallelismReport::from_reviewed_trace"),
        details: ErrorDetails("public parallelism reports cannot include restricted or private collective traces"),
    }
}

impl<T> PublicParallelismReport<T> {
    /// Builds a public report from a reviewed trace: it succeeds exactly for
    /// traces reviewed as public, keeping the trace unchanged, and refuses the
    /// others with `InvalidPublicReport`.
    pub fn from_reviewed_trace(reviewed: ReviewedCollectiveTrace<T>) -> (r: Result<Self, ParallelismError>)
        ensures
            r is Ok <==> reviewed.visibility() == ParallelTraceVisibility::Public,
            r matches Ok(report) ==> report.spec_trace() == reviewed.spec_trace(),
            r matches Err(e) ==> e == refused_public_report(),
    {
        match reviewed.release_decision() {
            PublicParallelismDecision::Blocked => Err(
                ParallelismError::invalid_public_report(
                    "PublicParallelismReport::from_reviewed_trace",
                    "public parallelism reports cannot include restricted or private collective traces",
                ),
            ),
            PublicParallelismDecision::Publishable => Ok(PublicParallelismReport(reviewed.trace)),
        }
    }

    /// The published trace.
    pub closed spec fn spec_trace(&self) -> T {
        self.0
    }

    /// Returns the checked collective trace.
    pub fn trace(&self) -> (t: &T)
        ensures
            *t == self.spec_trace(),
    {
        &self.0
    }
}

/// The shards' values joined in rank order.
pub open spec fn concat_shards<T>(shards: Seq<RankShard<T>>) -> Seq<T>
    decreases shards.len(),
{
    if shards.len() == 0 {
        Seq::empty()
    } else {
        concat_shards(shards.drop_last()) + shards.last().spec_values()
    }
}

proof fn lemma_partition_prefix<T>(plan: ShardPlan<T>, values: Seq<T>, world: nat, len: nat, k: nat)
    requires
        is_even_partition(plan, values, world, len),
        values.len() == world * len,
        k <= world,
    ensures
        concat_shards(plan.spec_shards().take(k as int)) =~= values.subrange(0, (k * len) as int),
    decreases k,
{
    let shards = plan.spec_shards();
    if k > 0 {
        let j = (k - 1) as nat;
        lemma_partition_prefix(plan, values, world, len, j);
        assert(shards.take(k as int).drop_last() =~= shards.take(j as int));
        assert(shards.take(k as int).last() == shards[j as int]);
        assert(j * len + len == k * len) by (nonlinear_arith)
            requires
                k == j + 1,
        ;
        assert(k * len <= world * len) by (nonlinear_arith)
            requires
                k <= world,
        ;
        assert(values.subrange(0, (k * len) as int) =~= values.subrange(0, (j * len) as int) + values.subrange(
            (j * len) as int,
            (j * len + len) as int,
        ));
    } else {
        assert(shards.take(0) =~= Seq::<RankShard<T>>::empty());
    }
}

/// Sharding loses and duplicates nothing: for an even partition of a line
/// whose length is `world * len`, joining the shards in rank order gives
/// back the line.
pub proof fn lemma_even_partition_reassembles<T>(plan: ShardPlan<T>, values: Seq<T>, world: nat, len: nat)
    requires
        is_even_partition(plan, values, world, len),
        values.len() == world * len,
    ensures
        concat_shards(plan.spec_shards()) == values,
{
    lemma_partition_prefix(plan, values, world, len, world);
    assert(plan.spec_shards().take(world as int) =~= plan.spec_shards());
    assert(world * len == values.len());
    assert(values.subrange(0, values.len() as int) =~= values);
}

} // verus!
