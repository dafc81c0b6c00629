//! Typed containers and shape checks of the single-neuron lessons, and the
//! token datasets of the next-token lessons.
//!
//! Feature and weight vectors are non-empty and generic over their scalar
//! type; the weighted sum of a feature vector and a weight vector is only
//! defined when the two have the same length.
use vstd::prelude::*;

use crate::text::{decimal_chars, decimal_string};

pub mod bigram;
pub mod dataset;
pub mod error;
pub mod token_targets;

pub use error::NeuronError as Error;

use error::{ErrorDetails, LengthLabel, NeuronError, OperationName, VectorLength};

verus! {

/// Number of input features or weights in a neuron vector.
#[derive(Debug, Clone, Copy, PartialEq, Eq, PartialOrd, Ord)]
pub struct FeatureCount(usize);

impl View for FeatureCount {
    type V = nat;

    closed spec fn view(&self) -> nat {
        self.0 as nat
    }
}

impl FeatureCount {
    /// The count as a raw integer.
    pub fn as_usize(self) -> (v: usize)
        ensures
            v == self@,
    {
        self.0
    }

    /// Renders the count in decimal.
    pub fn to_string(&self) -> (s: String)
        ensures
            s@ == decimal_chars(self@),
    {
        decimal_string(self.0 as u128)
    }
}

/// Number of examples in a dataset.
#[derive(Debug, Clone, Copy, PartialEq, Eq, PartialOrd, Ord)]
pub struct ExampleCount(usize);

impl View for ExampleCount {
    type V = nat;

    closed spec fn view(&self) -> nat {
        self.0 as nat
    }
}

impl ExampleCount {
    /// The count as a raw integer.
    pub fn as_usize(self) -> (v: usize)
        ensures
            v == self@,
    {
        self.0
    }

    /// Renders the count in decimal.
    pub fn to_string(&self) -> (s: String)
        ensures
            s@ == decimal_chars(self@),
    {
        decimal_string(self.0 as u128)
    }
}

fn copy_values<V: Copy>(values: &Vec<V>) -> (c: Vec<V>)
    ensures
        c@ == values@,
{
    let mut c: Vec<V> = Vec::new();
    let mut i: usize = 0;
    while i < values.len()
        invariant
            i <= values@.len(),
            c@ == values@.subrange(0, i as int),
        decreases values@.len() - i,
    {
        c.push(values[i]);
        proof {
            assert(c@ =~= values@.subrange(0, i as int + 1));
        }
        i = i + 1;
    }
    proof {
        assert(c@ =~= values@);
    }
    c
}

/// Input features for one example, never empty.
#[derive(Debug, PartialEq)]
pub struct FeatureVector<V> {
    values: Vec<V>,
}

impl<V: Copy> Clone for FeatureVector<V> {
    fn clone(&self) -> (c: Self)
        ensures
            c@ == self@,
    {
        proof {
            use_type_invariant(self);
        }
        FeatureVector { values: copy_values(&self.values) }
    }
}

impl<V> View for FeatureVector<V> {
    type V = Seq<V>;

    closed spec fn view(&self) -> Seq<V> {
        self.values@
    }
}

impl<V> FeatureVector<V> {
    #[verifier::type_invariant]
    spec fn non_empty(self) -> bool {
        self.values@.len() > 0
    }

    /// Creates a non-empty feature vector; an empty one fails with
    /// `EmptyInput`.
    pub fn from_values(values: Vec<V>) -> (r: Result<Self, NeuronError>)
        ensures
            r is Ok <==> values@.len() > 0,
            r matches Ok(f) ==> f@ == values@,
            r matches Err(e) ==> e == (NeuronError::EmptyInput {
                operation: OperationName("FeatureVector::from_values"),
                details: ErrorDetails("a neuron needs at least one input feature"),
            }),
    {
        if values.len() == 0 {
            return Err(NeuronError::empty_input("FeatureVector::from_values", "a neuron needs at least one input feature"));
        }
        assert(values@.len() > 0);
        Ok(FeatureVector { values })
    }

    /// Convenience constructor for the two-input lessons.
    pub fn two(left: V, right: V) -> (f: Self)
        ensures
            f@ == seq![left, right],
    {
        let mut values = Vec::new();
        values.push(left);
        values.push(right);
        proof {
            assert(values@ =~= seq![left, right]);
        }
        FeatureVector { values }
    }

    /// Returns the number of input features.
    pub fn len(&self) -> (c: FeatureCount)
        ensures
            c@ == self@.len(),
            c@ > 0,
    {
        proof {
            use_type_invariant(self);
        }
        FeatureCount(self.values.len())
    }

    /// The input values in order.
    pub fn values(&self) -> (v: &[V])
        ensures
            v@ == self@,
    {
        self.values.as_slice()
    }
}

/// Learned weights aligned with a feature vector, never empty.
#[derive(Debug, PartialEq)]
pub struct WeightVector<W> {
    values: Vec<W>,
}

impl<W: Copy> Clone for WeightVector<W> {
    fn clone(&self) -> (c: Self)
        ensures
            c@ == self@,
    {
        proof {
            use_type_invariant(self);
        }
        WeightVector { values: copy_values(&self.values) }
    }
}

impl<W> View for WeightVector<W> {
    type V = Seq<W>;

    closed spec fn view(&self) -> Seq<W> {
        self.values@
    }
}

impl<W> WeightVector<W> {
    #[verifier::type_invariant]
    spec fn non_empty(self) -> bool {
        self.values@.len() > 0
    }

    /// Creates a non-empty weight vector; an empty one fails with
    /// `EmptyInput`.
    pub fn from_values(values: Vec<W>) -> (r: Result<Self, NeuronError>)
        ensures
            r is Ok <==> values@.len() > 0,
            r matches Ok(w) ==> w@ == values@,
            r matches Err(e) ==> e == (NeuronError::EmptyInput {
                operation: OperationName("WeightVector::from_values"),
                details: ErrorDetails("a neuron needs at least one weight"),
            }),
    {
        if values.len() == 0 {
            return Err(NeuronError::empty_input("WeightVector::from_values", "a neuron needs at least one weight"));
        }
        assert(values@.len() > 0);
        Ok(WeightVector { values })
    }

    /// Convenience constructor for the two-input lessons.
    pub fn two(left: W, right: W) -> (w: Self)
        ensures
            w@ == seq![left, right],
    {
        let mut values = Vec::new();
        values.push(left);
        values.push(right);
        proof {
            assert(values@ =~= seq![left, right]);
        }
        WeightVector { values }
    }

    /// Returns the number of learned weights.
    pub fn len(&self) -> (c: FeatureCount)
        ensures
            c@ == self@.len(),
            c@ > 0,
    {
        proof {
            use_type_invariant(self);
        }
        FeatureCount(self.values.len())
    }

    /// The learned weights in order.
    pub fn values(&self) -> (v: &[W])
        ensures
            v@ == self@,
    {
        self.values.as_slice()
    }
}

/// Checks that a feature vector and a weight vector line up, one weight per
/// feature; otherwise fails with `DimensionMismatch` carrying both lengths.
pub fn check_aligned(operation: &'static str, features: FeatureCount, weights: FeatureCount, hint: &'static str) -> (r:
    Result<(), NeuronError>)
    ensures
        r is Ok <==> features@ == weights@,
        r matches Err(e) ==> e == (NeuronError::DimensionMismatch {
            operation: OperationName(operation),
            left_label: LengthLabel("features"),
            left_len: VectorLength(features@ as usize),
            right_label: LengthLabel("weights"),
            right_len: VectorLength(weights@ as usize),
            hint: ErrorDetails(hint),
        }),
{
    if features.0 != weights.0 {
        return Err(NeuronError::dimension_mismatch(operation, "features", features.0, "weights", weights.0, hint));
    }
    Ok(())
}

/// A non-empty group of examples for a training loop.
#[derive(Debug, PartialEq)]
pub struct Dataset<E> {
    examples: Vec<E>,
}

impl<E: Clone> Clone for Dataset<E> {
    fn clone(&self) -> (c: Self)
        ensures
            c@.len() == self@.len(),
            forall|i: int| 0 <= i < self@.len() ==> cloned::<E>(#[trigger] self@[i], c@[i]),
    {
        proof {
            use_type_invariant(self);
        }
        Dataset { examples: self.examples.clone() }
    }
}

impl<E> View for Dataset<E> {
    type V = Seq<E>;

    closed spec fn view(&self) -> Seq<E> {
        self.examples@
    }
}

impl<E> Dataset<E> {
    #[verifier::type_invariant]
    spec fn non_empty(self) -> bool {
        self.examples@.len() > 0
    }

    /// Creates a non-empty dataset; an empty one fails with `EmptyInput`.
    pub fn from_examples(examples: Vec<E>) -> (r: Result<Self, NeuronError>)
        ensures
            r is Ok <==> examples@.len() > 0,
            r matches Ok(d) ==> d@ == examples@,
            r matches Err(e) ==> e == (NeuronError::EmptyInput {
                operation: OperationName("Dataset::from_examples"),
                details: ErrorDetails("training needs at least one example"),
            }),
    {
        if examples.len() == 0 {
            return Err(NeuronError::empty_input("Dataset::from_examples", "training needs at least one example"));
        }
        assert(examples@.len() > 0);
        Ok(Dataset { examples })
    }

    /// The examples in order.
    pub fn examples(&self) -> (e: &[E])
        ensures
            e@ == self@,
    {
        self.examples.as_slice()
    }

    /// Returns the number of examples.
    pub fn len(&self) -> (c: ExampleCount)
        ensures
            c@ == self@.len(),
            c@ > 0,
    {
        proof {
            use_type_invariant(self);
        }
        ExampleCount(self.examples.len())
    }
}

} // verus!
