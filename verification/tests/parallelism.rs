use rust_ml::parallelism::error::ParallelismError as Error;
use rust_ml::parallelism::{
    all_reduce_communication, release_decision, shard_tensor_line, CommunicationBytes,
    CommunicationRounds, DataParallelLayout, GlobalBatchSize, LayerCount, LayersPerRank,
    LocalBatchSize, MicroBatchCount, ModelWidth, ParallelStrategy, ParallelTraceVisibility,
    PipelineLayout, PublicParallelismDecision, PublicParallelismReport, RankId, RankIndex,
    ReviewedCollectiveTrace, ShardWidth, TensorLength, TensorParallelLayout, WorldSize,
};

#[test]
fn rank_layouts_reject_uneven_splits() -> Result<(), Error> {
    let rejected = DataParallelLayout::new(GlobalBatchSize::try_from(10)?, WorldSize::try_from(4)?);

    assert!(matches!(rejected, Err(Error::UnevenSplit { .. })));
    Ok(())
}

#[test]
fn data_parallel_layout_splits_batch_axis() -> Result<(), Error> {
    let layout = DataParallelLayout::new(GlobalBatchSize::try_from(128)?, WorldSize::try_from(4)?)?;

    assert_eq!(layout.local_batch(), LocalBatchSize::try_from(32)?);
    Ok(())
}

#[test]
fn tensor_parallel_layout_splits_model_width() -> Result<(), Error> {
    let layout = TensorParallelLayout::new(ModelWidth::try_from(1024)?, WorldSize::try_from(4)?)?;

    assert_eq!(layout.shard_width(), ShardWidth::try_from(256)?);
    Ok(())
}

#[test]
fn pipeline_layout_splits_layers_and_computes_schedule() -> Result<(), Error> {
    let layout = PipelineLayout::new(LayerCount::try_from(12)?, WorldSize::try_from(3)?)?;
    let schedule = (layout.stage_count() + MicroBatchCount::try_from(4)?)?;

    assert_eq!(layout.layers_per_rank(), LayersPerRank::try_from(4)?);
    assert_eq!(schedule.to_string(), "6 schedule slots");
    Ok(())
}

#[test]
fn public_parallelism_report_blocks_restricted_and_private_collective_traces() -> Result<(), Error> {
    let restricted = PublicParallelismReport::from_reviewed_trace(ReviewedCollectiveTrace::new(
        "all-reduce of 10.0 over 128 bytes",
        ParallelTraceVisibility::ResearchRestricted,
    ));
    let private = PublicParallelismReport::from_reviewed_trace(ReviewedCollectiveTrace::new(
        "all-reduce of 10.0 over 128 bytes",
        ParallelTraceVisibility::Private,
    ));

    assert!(matches!(restricted.err(), Some(Error::InvalidPublicReport { .. })));
    assert!(matches!(private.err(), Some(Error::InvalidPublicReport { .. })));
    Ok(())
}

#[test]
fn public_traces_are_the_only_publishable_ones() {
    let report = PublicParallelismReport::from_reviewed_trace(ReviewedCollectiveTrace::new(
        vec![10_u8],
        ParallelTraceVisibility::Public,
    ));
    assert!(matches!(report, Ok(ref published) if published.trace() == &vec![10_u8]));
    let reviewed = ReviewedCollectiveTrace::new(1_u8, ParallelTraceVisibility::Private);
    assert_eq!(reviewed.release_decision(), PublicParallelismDecision::Blocked);
    assert_eq!(*reviewed.trace(), 1);
    assert_eq!(
        release_decision(ParallelTraceVisibility::Public),
        PublicParallelismDecision::Publishable
    );
    assert_eq!(
        release_decision(ParallelTraceVisibility::Private),
        PublicParallelismDecision::Blocked
    );
    assert_eq!(ParallelTraceVisibility::ResearchRestricted.to_string(), "research-restricted");
}

#[test]
fn sharding_hands_each_rank_its_contiguous_block() -> Result<(), Error> {
    let plan = shard_tensor_line(
        vec![1_i32, 2, 3, 4, 5, 6, 7, 8],
        WorldSize::try_from(4)?,
        ParallelStrategy::TensorParallel,
    )?;

    assert_eq!(plan.strategy(), ParallelStrategy::TensorParallel);
    assert_eq!(plan.shards().len(), 4);
    let mut joined = Vec::new();
    for (rank, shard) in plan.shards().iter().enumerate() {
        assert_eq!(shard.rank().to_string(), format!("rank {rank}"));
        assert_eq!(shard.start().as_usize(), rank * 2);
        assert_eq!(shard.values().len(), 2);
        joined.extend(shard.values().iter().copied());
    }
    assert_eq!(joined, vec![1, 2, 3, 4, 5, 6, 7, 8]);
    Ok(())
}

#[test]
fn sharding_rejects_uneven_and_empty_lines() -> Result<(), Error> {
    let uneven = shard_tensor_line(vec![1_u8, 2, 3], WorldSize::try_from(2)?, ParallelStrategy::DataParallel);
    assert!(matches!(uneven, Err(Error::UnevenSplit { .. })));
    let empty = shard_tensor_line(Vec::<u8>::new(), WorldSize::try_from(2)?, ParallelStrategy::DataParallel);
    assert!(matches!(empty, Err(Error::EmptyInput { .. })));
    Ok(())
}

#[test]
fn tensor_length_divides_into_shard_length() -> Result<(), Error> {
    let shard = (TensorLength::of_len(12) / WorldSize::try_from(3)?)?;
    assert_eq!(shard.to_string(), "4");
    Ok(())
}

#[test]
fn rank_ids_must_lie_inside_the_world() -> Result<(), Error> {
    let world = WorldSize::try_from(2)?;
    assert_eq!(RankId::new(RankIndex::try_from(1)?, world)?.to_string(), "rank 1");
    assert!(matches!(
        RankId::new(RankIndex::try_from(2)?, world),
        Err(Error::CountOutOfRange { .. })
    ));
    Ok(())
}

#[test]
fn all_reduce_moves_bytes_twice() -> Result<(), Error> {
    let bytes = all_reduce_communication(CommunicationBytes::try_from(64)?)?;
    assert_eq!(bytes, CommunicationBytes::try_from(128)?);
    assert_eq!(bytes.to_string(), "128 bytes");
    assert!(matches!(
        all_reduce_communication(CommunicationBytes::try_from(u64::MAX)?),
        Err(Error::Overflow { .. })
    ));
    Ok(())
}

#[test]
fn communication_arithmetic_is_checked() -> Result<(), Error> {
    let total = (CommunicationBytes::try_from(40)? + CommunicationBytes::try_from(2)?)?;
    assert_eq!(total.as_u64(), 42);
    let scaled = (CommunicationBytes::try_from(7)? * CommunicationRounds::try_from(3)?)?;
    assert_eq!(scaled.as_u64(), 21);
    assert!(matches!(CommunicationRounds::try_from(0), Err(Error::EmptyInput { .. })));
    Ok(())
}

#[test]
fn world_and_counts_reject_zero() {
    assert!(matches!(WorldSize::try_from(0), Err(Error::EmptyInput { .. })));
    assert!(matches!(MicroBatchCount::try_from(0), Err(Error::EmptyInput { .. })));
}

#[test]
fn pipeline_and_tensor_layouts_reject_uneven_splits() -> Result<(), Error> {
    assert!(matches!(
        PipelineLayout::new(LayerCount::try_from(10)?, WorldSize::try_from(3)?),
        Err(Error::UnevenSplit { .. })
    ));
    assert!(matches!(
        TensorParallelLayout::new(ModelWidth::try_from(10)?, WorldSize::try_from(4)?),
        Err(Error::UnevenSplit { .. })
    ));
    Ok(())
}
