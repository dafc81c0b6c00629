use rust_ml::neuron::bigram::{
    check_model_shape, validate_token, BigramDataset, BigramError, BigramExample,
};
use rust_ml::neuron::dataset::{Dataset, DatasetError};
use rust_ml::neuron::error::NeuronError;
use rust_ml::neuron::token_targets::{validate_target, NextTokenExample, TokenId, TokenTargetError};
use rust_ml::neuron::{check_aligned, Dataset as ExampleSet, FeatureVector, WeightVector};

fn cycle_tokens() -> Vec<TokenId> {
    vec![
        TokenId(1),
        TokenId(2),
        TokenId(3),
        TokenId(4),
        TokenId(1),
        TokenId(2),
        TokenId(3),
        TokenId(4),
        TokenId(1),
        TokenId(2),
        TokenId(3),
        TokenId(4),
    ]
}

#[test]
fn dataset_from_token_stream_creates_adjacent_pairs() {
    let dataset = match BigramDataset::from_token_stream(&cycle_tokens(), 5) {
        Ok(dataset) => dataset,
        Err(error) => panic!("unexpected error: {error:?}"),
    };

    assert_eq!(dataset.len(), 11);

    let first = dataset.iter().next().copied();
    assert_eq!(first, Some(BigramExample::new(TokenId(1), TokenId(2))));
}

#[test]
fn dataset_rejects_short_token_streams() {
    let result = BigramDataset::from_token_stream(&[TokenId(1)], 5);
    assert_eq!(result, Err(BigramError::TooShortTokenStream));
}

#[test]
fn bigram_pairs_follow_the_stream() {
    let tokens = cycle_tokens();
    let dataset = match BigramDataset::from_token_stream(&tokens, 5) {
        Ok(dataset) => dataset,
        Err(error) => panic!("unexpected error: {error:?}"),
    };
    assert_eq!(dataset.vocab_size(), 5);
    assert!(!dataset.is_empty());
    for (i, example) in dataset.examples().iter().enumerate() {
        assert_eq!(*example, BigramExample { input: tokens[i], target: tokens[i + 1] });
    }
    assert_eq!(dataset.iter().count(), tokens.len() - 1);
}

#[test]
fn bigram_dataset_rejects_bad_vocabularies() {
    assert_eq!(
        BigramDataset::from_token_stream(&[TokenId(0), TokenId(1)], 0),
        Err(BigramError::EmptyVocabulary)
    );
    assert_eq!(
        BigramDataset::from_token_stream(&[TokenId(0), TokenId(7), TokenId(9)], 5),
        Err(BigramError::TokenOutOfRange { token: 7, vocab_size: 5 })
    );
}

#[test]
fn bigram_model_shape_and_tokens_are_checked() {
    assert_eq!(check_model_shape(0, 8), Err(BigramError::EmptyVocabulary));
    assert_eq!(check_model_shape(5, 0), Err(BigramError::ZeroModelWidth));
    assert_eq!(check_model_shape(5, 8), Ok(()));
    assert_eq!(validate_token(TokenId(4), 5), Ok(()));
    assert_eq!(
        validate_token(TokenId(5), 5),
        Err(BigramError::TokenOutOfRange { token: 5, vocab_size: 5 })
    );
}

#[test]
fn dataset_new_rejects_empty_examples() {
    let result = Dataset::<u8>::new(Vec::new());
    assert_eq!(result, Err(DatasetError::EmptyDataset));
}

#[test]
fn datasets_keep_their_examples() {
    let dataset = match Dataset::new(vec![3_u8, 1, 2]) {
        Ok(dataset) => dataset,
        Err(error) => panic!("unexpected error: {error:?}"),
    };
    assert_eq!(dataset.len(), 3);
    assert!(!dataset.is_empty());
    assert_eq!(dataset.examples(), &[3, 1, 2]);
}

#[test]
fn target_must_index_an_existing_class() {
    assert_eq!(validate_target(0, TokenId(0)), Err(TokenTargetError::EmptyLogits));
    assert_eq!(
        validate_target(2, TokenId(2)),
        Err(TokenTargetError::TargetOutOfRange { target: 2, classes: 2 })
    );
    assert_eq!(validate_target(2, TokenId(1)), Ok(()));
}

#[test]
fn next_token_example_keeps_context_and_target() {
    let example = NextTokenExample::new(vec![TokenId(1), TokenId(2)], TokenId(3));
    assert_eq!(example.context, vec![TokenId(1), TokenId(2)]);
    assert_eq!(example.target, TokenId(3));
}

#[test]
fn feature_and_weight_vectors_are_non_empty() {
    assert!(matches!(
        FeatureVector::<f64>::from_values(vec![]),
        Err(NeuronError::EmptyInput { .. })
    ));
    assert!(matches!(
        WeightVector::<f64>::from_values(vec![]),
        Err(NeuronError::EmptyInput { .. })
    ));
    let features = FeatureVector::two(1.0_f64, 0.5);
    assert_eq!(features.len().to_string(), "2");
    assert_eq!(features.values(), &[1.0, 0.5]);
}

#[test]
fn weighted_sum_shapes_must_align() -> Result<(), NeuronError> {
    let features = FeatureVector::from_values(vec![1.0_f64, 2.0, 3.0])?;
    let weights = WeightVector::two(0.1_f64, 0.2);

    let error = check_aligned(
        "weighted_sum",
        features.len(),
        weights.len(),
        "dot product needs one weight per feature",
    );
    assert!(matches!(error, Err(NeuronError::DimensionMismatch { .. })));
    assert!(check_aligned("weighted_sum", weights.len(), weights.len(), "aligned").is_ok());
    Ok(())
}

#[test]
fn example_sets_reject_empty_input() {
    assert!(matches!(
        ExampleSet::<u8>::from_examples(vec![]),
        Err(NeuronError::EmptyInput { .. })
    ));
    let set = match ExampleSet::from_examples(vec!['x', 'y']) {
        Ok(set) => set,
        Err(error) => panic!("unexpected error: {error:?}"),
    };
    assert_eq!(set.len().to_string(), "2");
}
