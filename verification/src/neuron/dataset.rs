//! A non-empty collection of training examples.
use vstd::prelude::*;

verus! {

/// Errors of dataset construction.
#[derive(Debug, Clone, Copy, PartialEq, Eq, Structural)]
pub enum DatasetError {
    /// The dataset must contain at least one example so average loss is defined.
    EmptyDataset,
}

/// A non-empty collection of training examples.
#[derive(Debug, PartialEq)]
pub struct Dataset<E> {
    examples: Vec<E>,
}

impl<E: Clone> Clone for Dataset<E> {
    fn clone(&self) -> (c: Self)
        ensures
            c@.len() == self@.len(),
            forall|i: int| 0 <= i < self@.len() ==> cloned::<E>(#[trigger] self@[i], c@[i]),
    {
        proof {
            use_type_invariant(self);
        }
        Dataset { examples: self.examples.clone() }
    }
}

impl<E> View for Dataset<E> {
    type V = Seq<E>;

    closed spec fn view(&self) -> Seq<E> {
        self.examples@
    }
}

impl<E> Dataset<E> {
    #[verifier::type_invariant]
    spec fn non_empty(self) -> bool {
        self.examples@.len() > 0
    }

    /// Creates a dataset from a vector of examples; an empty vector fails
    /// with `EmptyDataset`.
    pub fn new(examples: Vec<E>) -> (r: Result<Self, DatasetError>)
        ensures
            r is Ok <==> examples@.len() > 0,
            r matches Ok(d) ==> d@ == examples@,
            r is Err ==> r == Err::<Self, DatasetError>(DatasetError::EmptyDataset),
    {
        if examples.len() == 0 {
            return Err(DatasetError::EmptyDataset);
        }
        assert(examples@.len() > 0);
        Ok(Dataset { examples })
    }

    /// Returns the number of examples in the dataset.
    pub fn len(&self) -> (n: usize)
        ensures
            n == self@.len(),
            n > 0,
    {
        proof {
            use_type_invariant(self);
        }
        self.examples.len()
    }

    /// Returns whether the dataset is empty, which a built dataset never is.
    pub fn is_empty(&self) -> (b: bool)
        ensures
            b == (self@.len() == 0),
            !b,
    {
        proof {
            use_type_invariant(self);
        }
        self.examples.len() == 0
    }

    /// The examples in order.
    pub fn examples(&self) -> (e: &[E])
        ensures
            e@ == self@,
    {
        self.examples.as_slice()
    }
}

} // verus!
