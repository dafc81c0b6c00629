use rust_ml::neuron::{check_aligned, FeatureVector, WeightVector};
use rust_ml::neuron::error::NeuronError;
use rust_ml::neuron::token_targets::{validate_target, TokenId, TokenTargetError};
use rust_ml::parallelism::error::ParallelismError;
use rust_ml::parallelism::{
    all_reduce_communication, shard_tensor_line, CommunicationBytes, ParallelStrategy,
    ParallelTraceVisibility, PublicParallelismReport, ReviewedCollectiveTrace, WorldSize,
};
use rust_ml::transformer::architecture::{
    FeedForwardWidth, HeadCount, LayerCount, TransformerConfig,
};
use rust_ml::transformer::error::ModelError;
use rust_ml::transformer::experts::{ExpertBank, ExpertCount, ExpertIndex, TopExpertRouter};
use rust_ml::transformer::layers::{check_encoder, check_encoder_block, check_multi_head};
use rust_ml::transformer::math::{MatrixShape, VectorLength};
use rust_ml::transformer::types::check_uniform_widths;

fn width(value: usize) -> Result<VectorLength, ModelError> {
    VectorLength::try_from(value)
}

#[test]
fn router_rejects_score_count_mismatch() -> Result<(), ModelError> {
    let router = TopExpertRouter::new(ExpertCount::try_from(3)?);
    let scores = [0.2_f64, 1.5_f64];

    assert!(matches!(
        router.check_score_count(scores.len()),
        Err(ModelError::DimensionMismatch { .. })
    ));
    Ok(())
}

#[test]
fn expert_bank_rejects_missing_routed_expert() -> Result<(), ModelError> {
    let bank = ExpertBank::new(vec![1.0_f64])?;
    let router = TopExpertRouter::new(ExpertCount::try_from(2)?);
    let scores = [0.2_f64, 1.5_f64];
    router.check_score_count(scores.len())?;
    // The higher of the two scores selects the second expert.
    let route = ExpertIndex::try_from(1)?;

    match bank.expert(route) {
        Err(ModelError::DimensionMismatch { operation, left_shape, right_shape, .. }) => {
            assert_eq!(operation.as_str(), "ExpertBank::forward_routed_token");
            assert_eq!(left_shape.dims(), &vec![1]);
            assert_eq!(right_shape.dims(), &vec![2]);
        }
        other => panic!("unexpected result: {other:?}"),
    }
    Ok(())
}

#[test]
fn transformer_block_rejects_width_mismatch() -> Result<(), ModelError> {
    let two = width(2)?;
    let three = width(3)?;

    match check_encoder_block(two, two, two, two, two, three) {
        Err(ModelError::InvalidHeadConfiguration { operation, details }) => {
            assert_eq!(operation.as_str(), "TransformerEncoderBlock::new");
            assert_eq!(
                details.as_str(),
                "attention, norms, and feed-forward network must share the same model width"
            );
        }
        other => panic!("unexpected result: {other:?}"),
    }
    match check_encoder_block(three, two, two, two, two, two) {
        Err(ModelError::InvalidHeadConfiguration { details, .. }) => assert_eq!(
            details.as_str(),
            "attention must project back to the same token width for residual addition"
        ),
        other => panic!("unexpected result: {other:?}"),
    }
    Ok(())
}

#[test]
fn encoder_rejects_empty_block_lists() {
    assert!(matches!(
        check_encoder(&vec![]),
        Err(ModelError::EmptyInput { .. })
    ));
}

#[test]
fn multi_head_attention_rejects_empty_heads() -> Result<(), ModelError> {
    assert!(matches!(
        check_multi_head(&vec![], &vec![], width(1)?),
        Err(ModelError::InvalidHeadConfiguration { .. })
    ));
    Ok(())
}

#[test]
fn multi_head_attention_validates_output_projection_width() -> Result<(), ModelError> {
    let dim = width(2)?;
    match check_multi_head(&vec![dim], &vec![dim], width(3)?) {
        Err(ModelError::InvalidHeadConfiguration { details, .. }) => assert_eq!(
            details.as_str(),
            "output layer input dimension must match concatenated head width"
        ),
        other => panic!("unexpected result: {other:?}"),
    }
    Ok(())
}

#[test]
fn dense_matrix_from_rows_rejects_ragged_rows() {
    assert!(matches!(
        MatrixShape::from_row_lengths("DenseMatrix::from_rows", &vec![2, 1]),
        Err(ModelError::InvalidMatrixData { .. })
    ));
}

#[test]
fn dense_matrix_rejects_invalid_data_length() {
    assert!(matches!(
        MatrixShape::from_dims("DenseMatrix::new", 2, 2, 3),
        Err(ModelError::InvalidMatrixData { .. })
    ));
}

#[test]
fn dense_vector_rejects_empty_input() {
    assert!(matches!(
        VectorLength::try_from(Vec::<f64>::new().len()),
        Err(ModelError::EmptyInput { .. })
    ));
}

#[test]
fn token_sequence_rejects_empty_sequences() {
    assert!(matches!(
        check_uniform_widths("TokenSequence::from_tokens", "sequence cannot be empty", &vec![]),
        Err(ModelError::EmptyInput { .. })
    ));
}

#[test]
fn token_sequence_rejects_inconsistent_widths() -> Result<(), ModelError> {
    assert!(matches!(
        check_uniform_widths(
            "TokenSequence::from_tokens",
            "sequence cannot be empty",
            &vec![width(2)?, width(3)?]
        ),
        Err(ModelError::InconsistentTokenDimensions { .. })
    ));
    Ok(())
}

#[test]
fn weighted_sum_reports_shape_mismatch() -> Result<(), NeuronError> {
    let features = FeatureVector::from_values(vec![1.0_f64, 2.0, 3.0])?;
    let weights = WeightVector::two(0.1_f64, 0.2);

    let error = check_aligned(
        "weighted_sum",
        features.len(),
        weights.len(),
        "each input feature must have exactly one learned weight",
    );
    assert!(matches!(error, Err(NeuronError::DimensionMismatch { .. })));
    Ok(())
}

#[test]
fn token_target_errors_when_index_is_out_of_range() {
    let logits = [0.2_f64, 0.8_f64];
    let result = validate_target(logits.len(), TokenId(2));
    assert_eq!(
        result,
        Err(TokenTargetError::TargetOutOfRange {
            target: 2,
            classes: 2,
        })
    );
}

#[test]
fn sharding_preserves_rank_owned_segments() -> Result<(), ParallelismError> {
    let plan = shard_tensor_line(
        vec![1.0_f64, 2.0, 3.0, 4.0],
        WorldSize::try_from(2)?,
        ParallelStrategy::DataParallel,
    )?;
    let shard_sums: Vec<f64> = plan
        .shards()
        .iter()
        .map(|shard| shard.values().iter().sum())
        .collect();

    assert_eq!(shard_sums, [3.0, 7.0]);
    Ok(())
}

#[test]
fn public_parallelism_report_accepts_public_collective_trace() -> Result<(), ParallelismError> {
    let plan = shard_tensor_line(
        vec![1.0_f64, 2.0, 3.0, 4.0],
        WorldSize::try_from(2)?,
        ParallelStrategy::DataParallel,
    )?;
    let reduced: f64 = plan.shards().iter().map(|shard| shard.values().iter().sum::<f64>()).sum();
    let communication = all_reduce_communication(CommunicationBytes::try_from(64)?)?;
    let report = PublicParallelismReport::from_reviewed_trace(ReviewedCollectiveTrace::new(
        (reduced, communication),
        ParallelTraceVisibility::Public,
    ))?;

    assert_eq!(report.trace().0, 10.0);
    assert_eq!(report.trace().1, CommunicationBytes::try_from(128)?);
    Ok(())
}

#[test]
fn encoder_estimate_names_the_overflowing_step() -> Result<(), ModelError> {
    let huge = TransformerConfig::new(
        width(1 << 40)?,
        LayerCount::try_from(1)?,
        HeadCount::try_from(1)?,
        FeedForwardWidth::try_from(1)?,
    )?;
    match huge.encoder_parameter_estimate() {
        Ok(count) => assert!(count.to_string().len() > 20),
        Err(error) => panic!("unexpected error: {error:?}"),
    }
    let deep = TransformerConfig::new(
        width(1 << 31)?,
        LayerCount::try_from(usize::MAX)?,
        HeadCount::try_from(1)?,
        FeedForwardWidth::try_from(1)?,
    )?;
    match deep.encoder_parameter_estimate() {
        Err(ModelError::NumericalIssue { operation, details }) => {
            assert_eq!(operation.as_str(), "ParameterCount::mul");
            assert_eq!(details.as_str(), "parameter count exceeded u128");
        }
        other => panic!("unexpected result: {other:?}"),
    }
    Ok(())
}
