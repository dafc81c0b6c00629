use rust_ml::transformer::architecture::{
    FeedForwardWidth, HeadCount, LayerCount, ParameterCount, TransformerConfig,
};
use rust_ml::transformer::error::ModelError;
use rust_ml::transformer::experts::{
    ExpertBank, ExpertCapacity, ExpertCount, ExpertIndex, ExpertLoadStatus, TopExpertRouter,
};
use rust_ml::transformer::layers::{
    check_attention_head, check_encoder, check_encoder_block, check_feed_forward,
    check_multi_head, validate_projection, PositionalEncodingTable,
};
use rust_ml::transformer::math::{
    check_vector_index, ColumnIndex, MatrixShape, RowIndex, VectorIndex, VectorLength,
};
use rust_ml::transformer::types::{
    check_uniform_widths, AttentionOutputSequence, TokenCount, TokenIndex,
};

fn width(value: usize) -> Result<VectorLength, ModelError> {
    VectorLength::try_from(value)
}

fn shape(rows: usize, cols: usize) -> Result<MatrixShape, ModelError> {
    Ok(MatrixShape::new(width(rows)?, width(cols)?))
}

#[test]
fn config_computes_head_width_and_parameter_estimate() -> Result<(), ModelError> {
    let config = TransformerConfig::new(
        VectorLength::try_from(8)?,
        LayerCount::try_from(2)?,
        HeadCount::try_from(2)?,
        FeedForwardWidth::try_from(32)?,
    )?;

    assert_eq!(config.attention_head_width()?.to_string(), "4");
    assert_eq!(config.encoder_parameter_estimate()?.to_string(), "1744");
    Ok(())
}

#[test]
fn config_rejects_head_width_that_does_not_divide_model_width() -> Result<(), ModelError> {
    let result = TransformerConfig::new(
        VectorLength::try_from(10)?,
        LayerCount::try_from(1)?,
        HeadCount::try_from(3)?,
        FeedForwardWidth::try_from(40)?,
    );

    assert!(matches!(result, Err(ModelError::InvalidHeadConfiguration { .. })));
    Ok(())
}

#[test]
fn config_rejects_zero_count_adapters() {
    assert!(matches!(HeadCount::try_from(0), Err(ModelError::EmptyInput { .. })));
    assert!(matches!(LayerCount::try_from(0), Err(ModelError::EmptyInput { .. })));
    assert!(matches!(FeedForwardWidth::try_from(0), Err(ModelError::EmptyInput { .. })));
}

#[test]
fn matrix_shape_keeps_dimensions_after_validation() -> Result<(), ModelError> {
    let shape = MatrixShape::new(VectorLength::try_from(2)?, VectorLength::try_from(3)?);

    assert_eq!(shape.rows(), VectorLength::try_from(2)?);
    assert_eq!(shape.cols(), VectorLength::try_from(3)?);
    Ok(())
}

#[test]
fn vector_length_try_from_rejects_zero_dimensions() {
    assert!(matches!(
        VectorLength::try_from(0_usize),
        Err(ModelError::EmptyInput { .. })
    ));
}

#[test]
fn expert_count_rejects_zero() {
    assert!(matches!(ExpertCount::try_from(0), Err(ModelError::EmptyInput { .. })));
}

#[test]
fn expert_capacity_rejects_zero() {
    assert!(matches!(ExpertCapacity::try_from(0), Err(ModelError::EmptyInput { .. })));
}

#[test]
fn expert_bank_reports_capacity_status() -> Result<(), ModelError> {
    let bank = ExpertBank::new(vec!["scale-1", "scale-2"])?;
    let router = TopExpertRouter::new(bank.expert_count());
    router.check_score_count(2)?;
    // Both tokens score experts as [0.2, 1.5]; the top-1 router picks expert 1.
    let first = ExpertIndex::try_from(1)?;
    let second = ExpertIndex::try_from(1)?;
    let report = bank.load_report(ExpertCapacity::try_from(1)?, &vec![first, second])?;

    assert_eq!(report.load_for(first)?.to_string(), "2");
    assert_eq!(report.status_for(first)?.to_string(), "over-capacity");
    Ok(())
}

#[test]
fn load_report_counts_every_route_once() -> Result<(), ModelError> {
    let bank = ExpertBank::new(vec![(), (), ()])?;
    let routes = vec![
        ExpertIndex::try_from(2)?,
        ExpertIndex::try_from(0)?,
        ExpertIndex::try_from(2)?,
        ExpertIndex::try_from(2)?,
    ];
    let report = bank.load_report(ExpertCapacity::try_from(2)?, &routes)?;
    let loads: Vec<usize> = report.loads().iter().map(|load| load.as_usize()).collect();

    assert_eq!(loads, vec![1, 0, 3]);
    assert_eq!(loads.iter().sum::<usize>(), routes.len());
    assert_eq!(report.status_for(ExpertIndex::try_from(0)?)?, ExpertLoadStatus::WithinCapacity);
    assert_eq!(report.status_for(ExpertIndex::try_from(2)?)?, ExpertLoadStatus::OverCapacity);
    assert_eq!(report.capacity().to_string(), "2");
    Ok(())
}

#[test]
fn load_report_rejects_routes_to_missing_experts() -> Result<(), ModelError> {
    let bank = ExpertBank::new(vec![()])?;
    let routes = vec![ExpertIndex::try_from(0)?, ExpertIndex::try_from(1)?];
    assert!(matches!(
        bank.load_report(ExpertCapacity::try_from(1)?, &routes),
        Err(ModelError::DimensionMismatch { .. })
    ));
    let report = bank.load_report(ExpertCapacity::try_from(1)?, &vec![ExpertIndex::try_from(0)?])?;
    assert!(matches!(
        report.load_for(ExpertIndex::try_from(4)?),
        Err(ModelError::DimensionMismatch { .. })
    ));
    Ok(())
}

#[test]
fn expert_bank_looks_up_routed_experts() -> Result<(), ModelError> {
    let bank = ExpertBank::new(vec!["first", "second"])?;
    assert_eq!(*bank.expert(ExpertIndex::try_from(1)?)?, "second");
    assert!(matches!(
        bank.expert(ExpertIndex::try_from(2)?),
        Err(ModelError::DimensionMismatch { .. })
    ));
    assert!(matches!(ExpertBank::<u8>::new(vec![]), Err(ModelError::EmptyInput { .. })));
    Ok(())
}

#[test]
fn router_checks_one_score_per_expert() -> Result<(), ModelError> {
    let router = TopExpertRouter::new(ExpertCount::try_from(3)?);
    assert_eq!(router.expert_count().to_string(), "3");
    assert!(router.check_score_count(3).is_ok());
    assert!(matches!(
        router.check_score_count(2),
        Err(ModelError::DimensionMismatch { .. })
    ));
    Ok(())
}

#[test]
fn matrix_dimensions_must_match_data_length() {
    assert!(matches!(
        MatrixShape::from_dims("DenseMatrix::new", 2, 2, 3),
        Err(ModelError::InvalidMatrixData { .. })
    ));
    assert!(matches!(
        MatrixShape::from_dims("DenseMatrix::new", 0, 2, 0),
        Err(ModelError::EmptyInput { .. })
    ));
    let shape = MatrixShape::from_dims("DenseMatrix::new", 2, 3, 6);
    assert!(matches!(shape, Ok(s) if s.rows().as_usize() == 2 && s.cols().as_usize() == 3));
}

#[test]
fn matrix_offsets_are_row_major_and_checked() -> Result<(), ModelError> {
    let shape = shape(2, 3)?;
    assert_eq!(shape.offset("DenseMatrix::component", RowIndex::try_from(1)?, ColumnIndex::try_from(2)?)?, 5);
    assert!(matches!(
        shape.offset("DenseMatrix::component", RowIndex::try_from(2)?, ColumnIndex::try_from(0)?),
        Err(ModelError::InvalidMatrixIndex { .. })
    ));
    assert_eq!(check_vector_index("DenseVector::component", VectorIndex::try_from(1)?, 2)?, 1);
    assert!(matches!(
        check_vector_index("DenseVector::component", VectorIndex::try_from(2)?, 2),
        Err(ModelError::InvalidVectorIndex { .. })
    ));
    Ok(())
}

#[test]
fn token_widths_must_agree() -> Result<(), ModelError> {
    assert!(matches!(
        check_uniform_widths("TokenSequence::from_tokens", "sequence cannot be empty", &vec![]),
        Err(ModelError::EmptyInput { .. })
    ));
    let mismatch = check_uniform_widths(
        "TokenSequence::from_tokens",
        "sequence cannot be empty",
        &vec![width(2)?, width(2)?, width(3)?],
    );
    match mismatch {
        Err(ModelError::InconsistentTokenDimensions { token_index, expected_dim, actual_dim, .. }) => {
            assert_eq!(token_index.as_usize(), 2);
            assert_eq!(expected_dim.as_usize(), 2);
            assert_eq!(actual_dim.as_usize(), 3);
        }
        other => panic!("unexpected result: {other:?}"),
    }
    let shared = check_uniform_widths("TokenSequence::from_tokens", "sequence cannot be empty", &vec![width(4)?, width(4)?])?;
    assert_eq!(shared.to_string(), "4");
    Ok(())
}

#[test]
fn attention_outputs_are_non_empty_and_indexed() -> Result<(), ModelError> {
    assert!(matches!(
        AttentionOutputSequence::<u8>::from_outputs(vec![]),
        Err(ModelError::EmptyInput { .. })
    ));
    let outputs = AttentionOutputSequence::from_outputs(vec!['a', 'b'])?;
    assert_eq!(outputs.len().to_string(), "2");
    assert_eq!(*outputs.output(TokenIndex::try_from(1)?)?, 'b');
    assert!(matches!(
        outputs.output(TokenIndex::try_from(2)?),
        Err(ModelError::InvalidTokenIndex { .. })
    ));
    assert!(matches!(TokenCount::try_from(0), Err(ModelError::EmptyInput { .. })));
    Ok(())
}

#[test]
fn layer_shapes_must_line_up() -> Result<(), ModelError> {
    assert!(validate_projection("QueryLayer::new", shape(2, 3)?, width(2)?).is_ok());
    assert!(matches!(
        validate_projection("QueryLayer::new", shape(2, 3)?, width(3)?),
        Err(ModelError::InvalidProjection { .. })
    ));
    assert!(check_attention_head(shape(2, 4)?, shape(2, 4)?, shape(3, 4)?).is_ok());
    assert!(matches!(
        check_attention_head(shape(2, 4)?, shape(2, 5)?, shape(3, 4)?),
        Err(ModelError::InvalidHeadConfiguration { .. })
    ));
    assert!(matches!(
        check_attention_head(shape(2, 4)?, shape(3, 4)?, shape(3, 4)?),
        Err(ModelError::InvalidHeadConfiguration { .. })
    ));
    assert!(check_feed_forward(shape(8, 2)?, shape(2, 8)?).is_ok());
    assert!(matches!(
        check_feed_forward(shape(8, 2)?, shape(2, 7)?),
        Err(ModelError::InvalidProjection { .. })
    ));
    Ok(())
}

#[test]
fn multi_head_widths_must_concatenate_to_the_output_input() -> Result<(), ModelError> {
    assert!(matches!(
        check_multi_head(&vec![], &vec![], width(1)?),
        Err(ModelError::InvalidHeadConfiguration { .. })
    ));
    assert!(matches!(
        check_multi_head(&vec![width(2)?], &vec![width(2)?], width(3)?),
        Err(ModelError::InvalidHeadConfiguration { .. })
    ));
    assert!(check_multi_head(&vec![width(2)?, width(2)?], &vec![width(1)?, width(3)?], width(4)?).is_ok());
    assert!(matches!(
        check_multi_head(&vec![width(2)?, width(3)?], &vec![width(1)?, width(3)?], width(4)?),
        Err(ModelError::InvalidHeadConfiguration { .. })
    ));
    Ok(())
}

#[test]
fn encoder_blocks_share_one_width() -> Result<(), ModelError> {
    let two = width(2)?;
    assert!(check_encoder_block(two, two, two, two, two, two).is_ok());
    assert!(matches!(
        check_encoder_block(two, two, two, two, two, width(3)?),
        Err(ModelError::InvalidHeadConfiguration { .. })
    ));
    assert!(matches!(check_encoder(&vec![]), Err(ModelError::EmptyInput { .. })));
    assert!(matches!(
        check_encoder(&vec![two, width(3)?]),
        Err(ModelError::InvalidHeadConfiguration { .. })
    ));
    assert_eq!(check_encoder(&vec![two, two])?, two);
    assert_eq!(PositionalEncodingTable::new(two).d_model(), two);
    Ok(())
}

#[test]
fn parameter_counts_add_and_repeat_with_checks() -> Result<(), ModelError> {
    let per_layer = ParameterCount::try_from(872_u128)?;
    assert_eq!((per_layer * LayerCount::try_from(2)?)?.to_string(), "1744");
    assert_eq!((per_layer + ParameterCount::try_from(8_u128)?)?.to_string(), "880");
    assert!(matches!(
        ParameterCount::try_from(u128::MAX)? + ParameterCount::try_from(1_u128)?,
        Err(ModelError::NumericalIssue { .. })
    ));
    assert!(matches!(ParameterCount::try_from(0_u128), Err(ModelError::EmptyInput { .. })));
    Ok(())
}

#[test]
fn head_width_division_requires_exact_split() -> Result<(), ModelError> {
    assert_eq!((width(12)? / HeadCount::try_from(4)?)?.to_string(), "3");
    assert!(matches!(
        width(12)? / HeadCount::try_from(5)?,
        Err(ModelError::InvalidHeadConfiguration { .. })
    ));
    Ok(())
}

#[test]
fn nested_rows_must_share_one_length() {
    assert!(matches!(
        MatrixShape::from_row_lengths("DenseMatrix::from_rows", &vec![]),
        Err(ModelError::EmptyInput { .. })
    ));
    assert!(matches!(
        MatrixShape::from_row_lengths("DenseMatrix::from_rows", &vec![0, 0]),
        Err(ModelError::EmptyInput { .. })
    ));
    match MatrixShape::from_row_lengths("DenseMatrix::from_rows", &vec![2, 1]) {
        Err(ModelError::InvalidMatrixData { rows, cols, data_len, .. }) => {
            assert_eq!(rows.as_usize(), 2);
            assert_eq!(cols.as_usize(), 2);
            assert_eq!(data_len.as_usize(), 3);
        }
        other => panic!("unexpected result: {other:?}"),
    }
    let shape = MatrixShape::from_row_lengths("DenseMatrix::from_rows", &vec![3, 3]);
    assert!(matches!(shape, Ok(s) if s.rows().as_usize() == 2 && s.cols().as_usize() == 3));
}
