use rust_ml::scaling::error::ScalingError;
use rust_ml::scaling::{
    compute_tradeoff, recommend, ComputeBudgetFlops, ComputeDelta, ComputeMultiplier,
    ComputeTradeoff, ExperimentConfig, LayerCount, LimitationNote, LossComparison, ModelWidth,
    ParameterCount, RecordCount, RunId, ScalingRecommendation, TokenCount, TrainingStep,
};

#[test]
fn experiment_config_estimates_parameters_and_compute() -> Result<(), ScalingError> {
    let config = ExperimentConfig::new(
        RunId::try_from("tiny")?,
        ModelWidth::try_from(4)?,
        LayerCount::try_from(2)?,
        TokenCount::try_from(10_u64)?,
    );
    let run = config.plan_run(TrainingStep::try_from(5_u64)?)?;

    assert_eq!(run.parameter_count().to_string(), "384");
    assert_eq!(run.compute_budget().to_string(), "23040 FLOPs");
    Ok(())
}

#[test]
fn planned_run_keeps_its_config_and_steps() -> Result<(), ScalingError> {
    let config = ExperimentConfig::new(
        RunId::try_from("run-a")?,
        ModelWidth::try_from(2)?,
        LayerCount::try_from(1)?,
        TokenCount::try_from(1_u64)?,
    );
    let run = config.plan_run(TrainingStep::try_from(3_u64)?)?;

    assert_eq!(run.run_id().to_string(), "run-a");
    assert_eq!(run.config().run_id().as_str(), "run-a");
    assert_eq!(run.training_steps().to_string(), "3");
    assert_eq!(run.parameter_count().to_string(), "48");
    assert_eq!(run.compute_budget().as_u128(), 288);
    Ok(())
}

#[test]
fn parameter_estimate_reports_overflow() -> Result<(), ScalingError> {
    let config = ExperimentConfig::new(
        RunId::try_from("huge")?,
        ModelWidth::try_from(1 << 31)?,
        LayerCount::try_from(1)?,
        TokenCount::try_from(1_u64)?,
    );
    assert!(matches!(config.parameter_count(), Err(ScalingError::Overflow { .. })));
    Ok(())
}

#[test]
fn training_budget_reports_overflow() -> Result<(), ScalingError> {
    let config = ExperimentConfig::new(
        RunId::try_from("long")?,
        ModelWidth::try_from(1 << 20)?,
        LayerCount::try_from(1 << 20)?,
        TokenCount::try_from(u64::MAX)?,
    );
    assert!(config.parameter_count().is_ok());
    assert!(matches!(
        config.plan_run(TrainingStep::try_from(1_u64)?),
        Err(ScalingError::Overflow { .. })
    ));
    Ok(())
}

#[test]
fn labels_and_counts_reject_empty_input() {
    assert!(matches!(RunId::try_from("  "), Err(ScalingError::EmptyInput { .. })));
    assert!(matches!(RunId::try_from(String::new()), Err(ScalingError::EmptyInput { .. })));
    assert!(matches!(LimitationNote::try_from("\t"), Err(ScalingError::EmptyInput { .. })));
    assert!(matches!(ModelWidth::try_from(0), Err(ScalingError::EmptyInput { .. })));
    assert!(matches!(RecordCount::try_from(0), Err(ScalingError::EmptyInput { .. })));
    assert!(matches!(ParameterCount::try_from(0_u64), Err(ScalingError::EmptyInput { .. })));
    assert!(matches!(ComputeBudgetFlops::try_from(0_u128), Err(ScalingError::EmptyInput { .. })));
}

#[test]
fn limitation_note_keeps_its_text() -> Result<(), ScalingError> {
    let note = LimitationNote::try_from("two tiny points show direction, not a deployment law")?;
    assert_eq!(note.to_string(), "two tiny points show direction, not a deployment law");
    Ok(())
}

#[test]
fn dense_training_multiplier_is_six() {
    assert_eq!(ComputeMultiplier::dense_transformer_training().to_string(), "6");
}

#[test]
fn compute_budgets_add_with_overflow_check() -> Result<(), ScalingError> {
    let total = (ComputeBudgetFlops::try_from(100_u128)? + ComputeBudgetFlops::try_from(28_u128)?)?;
    assert_eq!(total.to_string(), "128 FLOPs");
    assert!(matches!(
        ComputeBudgetFlops::try_from(u128::MAX)? + ComputeBudgetFlops::try_from(1_u128)?,
        Err(ScalingError::Overflow { .. })
    ));
    Ok(())
}

#[test]
fn compute_tradeoff_reports_direction_and_distance() -> Result<(), ScalingError> {
    let small = ComputeBudgetFlops::try_from(1_000_u128)?;
    let large = ComputeBudgetFlops::try_from(4_000_u128)?;

    let less = compute_tradeoff(small, large);
    assert_eq!(less.to_string(), "candidate uses less compute (3000 FLOPs)");
    let more = compute_tradeoff(large, small);
    assert_eq!(more.to_string(), "candidate uses more compute (3000 FLOPs)");
    assert_eq!(compute_tradeoff(small, small), ComputeTradeoff::SameCompute);
    assert_eq!(ComputeDelta::between(large, small).to_string(), "3000 FLOPs");
    Ok(())
}

#[test]
fn recommendation_is_loss_first_and_symmetric() -> Result<(), ScalingError> {
    let small = ComputeBudgetFlops::try_from(1_000_u128)?;
    let large = ComputeBudgetFlops::try_from(4_000_u128)?;
    let candidate_cheaper = compute_tradeoff(small, large);
    let candidate_dearer = compute_tradeoff(large, small);

    assert_eq!(
        recommend(LossComparison::CandidateLower, &candidate_dearer),
        ScalingRecommendation::PreferCandidate
    );
    assert_eq!(
        recommend(LossComparison::CandidateHigher, &candidate_cheaper),
        ScalingRecommendation::PreferBaseline
    );
    assert_eq!(
        recommend(LossComparison::SameLoss, &candidate_cheaper),
        ScalingRecommendation::PreferCandidate
    );
    assert_eq!(
        recommend(LossComparison::SameLoss, &candidate_dearer),
        ScalingRecommendation::PreferBaseline
    );
    let same = compute_tradeoff(small, small);
    assert_eq!(recommend(LossComparison::SameLoss, &same), ScalingRecommendation::Inconclusive);
    assert_eq!(ScalingRecommendation::Inconclusive.to_string(), "inconclusive");
    assert_eq!(ScalingRecommendation::PreferCandidate.to_string(), "prefer candidate");
    Ok(())
}
