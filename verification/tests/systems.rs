use rust_ml::systems::{
    ActivationShape, AttentionEstimate, BatchSize, Bytes, BytesPerSecond, ColumnCount,
    ElapsedNanos, ElementSize, Flops, MatrixVectorShape, MemoryLevel, MemoryTransfer,
    ModelWidth, RowCount, SequenceLength, StageMeasurement, StageMeasurements, StageName,
};
use rust_ml::systems::error::SystemsError;

fn measurement(name: &str, elapsed: u128) -> Result<StageMeasurement, SystemsError> {
    Ok(StageMeasurement::new(
        StageName::try_from(name)?,
        ElapsedNanos::try_from(elapsed)?,
        Flops::try_from(10_u64)?,
        Bytes::try_from(5_u64)?,
    ))
}

#[test]
fn activation_shape_counts_elements_and_bytes() -> Result<(), SystemsError> {
    let shape = ActivationShape::new(
        BatchSize::try_from(2)?,
        SequenceLength::try_from(3)?,
        ModelWidth::try_from(4)?,
    );

    assert_eq!(shape.elements()?.to_string(), "24");
    assert_eq!(
        shape.activation_bytes(ElementSize::float32())?.to_string(),
        "96 bytes"
    );
    Ok(())
}

#[test]
fn attention_estimate_counts_score_and_value_mix_flops() -> Result<(), SystemsError> {
    let estimate = AttentionEstimate::new(SequenceLength::try_from(3)?, ModelWidth::try_from(4)?);

    assert_eq!(estimate.score_flops()?.to_string(), "72 FLOPs");
    assert_eq!(estimate.value_mix_flops()?.to_string(), "72 FLOPs");
    assert_eq!(estimate.total_flops()?.to_string(), "144 FLOPs");
    assert_eq!(
        estimate.score_matrix_bytes(ElementSize::float32())?.to_string(),
        "36 bytes"
    );
    Ok(())
}

#[test]
fn matrix_vector_shape_estimates_flops_and_bytes() -> Result<(), SystemsError> {
    let shape = MatrixVectorShape::new(RowCount::try_from(3)?, ColumnCount::try_from(4)?);

    assert_eq!(shape.multiply_add_flops()?.to_string(), "24 FLOPs");
    assert_eq!(
        shape.bytes_moved(ElementSize::float32())?.to_string(),
        "76 bytes"
    );
    Ok(())
}

#[test]
fn resource_ops_keep_units_readable() -> Result<(), SystemsError> {
    let activation_shape = ActivationShape::new(
        BatchSize::try_from(1)?,
        SequenceLength::try_from(3)?,
        ModelWidth::try_from(4)?,
    );
    let activation_memory = activation_shape.elements()? * ElementSize::float32();
    let total_flops = Flops::try_from(40_u64)? + Flops::try_from(20_u64)?;
    let flops = total_flops?;
    let bytes = activation_memory?;
    let intensity = flops.as_u64() as f64 / bytes.as_u64() as f64;

    assert_eq!(format!("{intensity:.4} FLOPs/byte"), "1.2500 FLOPs/byte");
    Ok(())
}

#[test]
fn memory_transfer_estimates_time_from_bandwidth() -> Result<(), SystemsError> {
    let transfer = MemoryTransfer::new(
        MemoryLevel::HighBandwidthMemory,
        Bytes::try_from(1_024_u64)?,
        BytesPerSecond::try_from(512_u128)?,
    );

    assert_eq!(transfer.level().to_string(), "high-bandwidth memory");
    assert_eq!(transfer.bytes_moved().to_string(), "1024 bytes");
    assert_eq!(transfer.bandwidth().to_string(), "512 bytes/s");
    assert_eq!(transfer.estimated_elapsed()?.to_string(), "2000000000 ns");
    Ok(())
}

#[test]
fn bandwidth_rounds_nonzero_transfer_up_to_one_nanosecond() -> Result<(), SystemsError> {
    let elapsed = Bytes::try_from(1_u64)? / BytesPerSecond::try_from(2_000_000_000_u128)?;

    assert_eq!(elapsed?.to_string(), "1 ns");
    Ok(())
}

#[test]
fn bandwidth_rounding_does_not_overflow_for_large_denominators() -> Result<(), SystemsError> {
    let elapsed = Bytes::try_from(1_u64)? / BytesPerSecond::try_from(u128::MAX)?;

    assert_eq!(elapsed?.to_string(), "1 ns");
    Ok(())
}

#[test]
fn repeated_measurements_report_median_elapsed() -> Result<(), SystemsError> {
    let measurements = StageMeasurements::from_measurements(vec![
        measurement("run-a", 30)?,
        measurement("run-b", 10)?,
        measurement("run-c", 20)?,
    ])?;

    assert_eq!(measurements.median_elapsed()?.to_string(), "20 ns");
    Ok(())
}

#[test]
fn semantic_counts_reject_zero() {
    let error = BatchSize::try_from(0).err();
    assert!(matches!(error, Some(SystemsError::EmptyInput { .. })));
}

#[test]
fn bandwidth_rejects_zero() {
    let error = BytesPerSecond::try_from(0_u128).err();
    assert!(matches!(error, Some(SystemsError::EmptyInput { .. })));
}

#[test]
fn transfer_time_rounds_up_to_the_next_nanosecond() -> Result<(), SystemsError> {
    // 3 bytes at 2 bytes/s take 1.5 s: the estimate is the ceiling.
    let elapsed = (Bytes::try_from(3_u64)? / BytesPerSecond::try_from(2_u128)?)?;
    assert_eq!(elapsed.to_string(), "1500000000 ns");
    let exact = (Bytes::try_from(7_u64)? / BytesPerSecond::try_from(3_u128)?)?;
    assert_eq!(exact.as_u128(), 2_333_333_334);
    Ok(())
}

#[test]
fn median_of_even_count_is_floor_of_middle_mean() -> Result<(), SystemsError> {
    let measurements = StageMeasurements::from_measurements(vec![
        measurement("a", 40)?,
        measurement("b", 10)?,
        measurement("c", 25)?,
        measurement("d", 20)?,
    ])?;
    assert_eq!(measurements.median_elapsed()?.to_string(), "22 ns");
    Ok(())
}

#[test]
fn median_does_not_depend_on_measurement_order() -> Result<(), SystemsError> {
    let forward = StageMeasurements::from_measurements(vec![
        measurement("a", 5)?,
        measurement("b", 9)?,
        measurement("c", 7)?,
        measurement("d", 1)?,
        measurement("e", 3)?,
    ])?;
    let backward = StageMeasurements::from_measurements(vec![
        measurement("e", 3)?,
        measurement("d", 1)?,
        measurement("c", 7)?,
        measurement("b", 9)?,
        measurement("a", 5)?,
    ])?;
    assert_eq!(
        forward.median_elapsed()?.as_u128(),
        backward.median_elapsed()?.as_u128()
    );
    assert_eq!(forward.median_elapsed()?.to_string(), "5 ns");
    Ok(())
}

#[test]
fn median_reports_overflow_of_middle_sum() -> Result<(), SystemsError> {
    let measurements = StageMeasurements::from_measurements(vec![
        measurement("a", u128::MAX)?,
        measurement("b", u128::MAX)?,
    ])?;
    assert!(matches!(
        measurements.median_elapsed(),
        Err(SystemsError::Overflow { .. })
    ));
    Ok(())
}

#[test]
fn measurement_sets_and_stage_names_reject_empty_input() {
    assert!(matches!(
        StageMeasurements::from_measurements(vec![]),
        Err(SystemsError::EmptyInput { .. })
    ));
    assert!(matches!(
        StageName::try_from("   "),
        Err(SystemsError::EmptyInput { .. })
    ));
    assert!(matches!(
        StageName::try_from(String::new()),
        Err(SystemsError::EmptyInput { .. })
    ));
}

#[test]
fn element_sizes_follow_float_widths() -> Result<(), SystemsError> {
    let shape = ActivationShape::new(
        BatchSize::try_from(1)?,
        SequenceLength::try_from(1)?,
        ModelWidth::try_from(3)?,
    );
    assert_eq!(
        shape.activation_bytes(ElementSize::float64())?.to_string(),
        "24 bytes"
    );
    Ok(())
}

#[test]
fn activation_elements_report_overflow() -> Result<(), SystemsError> {
    let shape = ActivationShape::new(
        BatchSize::try_from(usize::MAX)?,
        SequenceLength::try_from(2)?,
        ModelWidth::try_from(1)?,
    );
    assert!(matches!(shape.elements(), Err(SystemsError::Overflow { .. })));
    Ok(())
}

#[test]
fn byte_sums_report_overflow() -> Result<(), SystemsError> {
    let sum = Bytes::try_from(u64::MAX)? + Bytes::try_from(1_u64)?;
    assert!(matches!(sum, Err(SystemsError::Overflow { .. })));
    Ok(())
}
