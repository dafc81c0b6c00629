//! Adjacent next-token pairs for the tiny bigram lessons.
use vstd::prelude::*;
use vstd::std_specs::iter::IteratorSpec;

use crate::neuron::token_targets::TokenId;

verus! {

/// One one-step next-token example.
#[derive(Debug, Clone, Copy, PartialEq, Eq, Structural)]
pub struct BigramExample {
    /// The current token.
    pub input: TokenId,
    /// The token that should come next.
    pub target: TokenId,
}

impl BigramExample {
    /// Creates one next-token pair.
    pub fn new(input: TokenId, target: TokenId) -> (e: Self)
        ensures
            e == (BigramExample { input, target }),
    {
        BigramExample { input, target }
    }
}

/// Errors returned by the tiny next-token training bridge.
#[derive(Debug, Clone, Copy, PartialEq, Eq, Structural)]
pub enum BigramError {
    /// The vocabulary must contain at least one token.
    EmptyVocabulary,
    /// The model width must contain at least one hidden feature.
    ZeroModelWidth,
    /// At least two tokens are needed to create adjacent next-token pairs.
    TooShortTokenStream,
    /// Token ids must remain inside the configured vocabulary.
    TokenOutOfRange {
        /// The offending token id.
        token: usize,
        /// The vocabulary size.
        vocab_size: usize,
    },
}

/// The pairs `(tokens[i], tokens[i + 1])` in stream order.
pub open spec fn adjacent_pairs(tokens: Seq<TokenId>) -> Seq<BigramExample> {
    Seq::new(
        (tokens.len() - 1) as nat,
        |i: int| BigramExample { input: tokens[i], target: tokens[i + 1] },
    )
}

/// Whether every token id is below `vocab_size`.
pub open spec fn tokens_in_vocab(tokens: Seq<TokenId>, vocab_size: nat) -> bool {
    forall|i: int| 0 <= i < tokens.len() ==> #[trigger] tokens[i].0 < vocab_size
}

/// Whether `i` is the first position whose token id is outside the vocabulary.
pub open spec fn first_out_of_vocab(tokens: Seq<TokenId>, vocab_size: nat, i: int) -> bool {
    &&& 0 <= i < tokens.len()
    &&& tokens[i].0 >= vocab_size
    &&& forall|j: int| 0 <= j < i ==> #[trigger] tokens[j].0 < vocab_size
}

/// The outcome of building a dataset from `tokens`.
pub open spec fn dataset_outcome(tokens: Seq<TokenId>, vocab_size: nat) -> Result<Seq<BigramExample>, BigramError> {
    if vocab_size == 0 {
        Err(BigramError::EmptyVocabulary)
    } else if tokens.len() < 2 {
        Err(BigramError::TooShortTokenStream)
    } else if !tokens_in_vocab(tokens, vocab_size) {
        let i = choose|i: int| first_out_of_vocab(tokens, vocab_size, i);
        Err(BigramError::TokenOutOfRange { token: tokens[i].0, vocab_size: vocab_size as usize })
    } else {
        Ok(adjacent_pairs(tokens))
    }
}

/// A non-empty dataset of adjacent next-token pairs.
#[derive(Debug, PartialEq, Eq)]
pub struct BigramDataset {
    examples: Vec<BigramExample>,
    vocab_size: usize,
}

impl Clone for BigramDataset {
    fn clone(&self) -> (c: Self)
        ensures
            c@ == self@,
            c.vocab_size() == self.vocab_size(),
    {
        proof {
            use_type_invariant(self);
        }
        let examples = self.examples.clone();
        proof {
            assert(examples@ =~= self.examples@);
        }
        BigramDataset { examples, vocab_size: self.vocab_size }
    }
}

impl View for BigramDataset {
    type V = Seq<BigramExample>;

    closed spec fn view(&self) -> Seq<BigramExample> {
        self.examples@
    }
}

impl BigramDataset {
    #[verifier::type_invariant]
    spec fn well_formed(self) -> bool {
        &&& self.examples@.len() > 0
        &&& self.vocab_size > 0
        &&& forall|i: int|
            0 <= i < self.examples@.len() ==> (#[trigger] self.examples@[i]).input.0 < self.vocab_size
                && self.examples@[i].target.0 < self.vocab_size
    }

    /// The configured vocabulary size.
    pub closed spec fn spec_vocab_size(&self) -> usize {
        self.vocab_size
    }

    /// Builds a next-token dataset from adjacent token windows: one pair
    /// `(tokens[i], tokens[i + 1])` per position. The vocabulary must be
    /// non-empty, the stream must hold at least two tokens, and every token
    /// must lie inside the vocabulary; the first one that does not is
    /// reported.
    pub fn from_token_stream(tokens: &[TokenId], vocab_size: usize) -> (r: Result<Self, BigramError>)
        ensures
            r is Ok <==> dataset_outcome(tokens@, vocab_size as nat) is Ok,
            r matches Ok(d) ==> dataset_outcome(tokens@, vocab_size as nat) == Ok::<
                Seq<BigramExample>,
                BigramError,
            >(d@) && d.vocab_size() == vocab_size,
            r matches Err(e) ==> dataset_outcome(tokens@, vocab_size as nat) == Err::<
                Seq<BigramExample>,
                BigramError,
            >(e),
            vocab_size == 0 ==> r == Err::<Self, BigramError>(BigramError::EmptyVocabulary),
            vocab_size > 0 && tokens@.len() < 2 ==> r == Err::<Self, BigramError>(BigramError::TooShortTokenStream),
            vocab_size > 0 && tokens@.len() >= 2 && (forall|j: int|
                0 <= j < tokens@.len() ==> #[trigger] tokens@[j].0 < vocab_size) ==> r is Ok,
            r matches Ok(d) ==> {
                &&& d@.len() == tokens@.len() - 1
                &&& forall|i: int|
                    0 <= i < d@.len() ==> (#[trigger] d@[i]).input == tokens@[i] && d@[i].target == tokens@[i + 1]
            },
    {
        if vocab_size == 0 {
            return Err(BigramError::EmptyVocabulary);
        }
        if tokens.len() < 2 {
            return Err(BigramError::TooShortTokenStream);
        }
        let mut i: usize = 0;
        while i < tokens.len()
            invariant
                vocab_size > 0,
                tokens@.len() >= 2,
                i <= tokens@.len(),
                forall|j: int| 0 <= j < i ==> #[trigger] tokens@[j].0 < vocab_size,
            decreases tokens@.len() - i,
        {
            if tokens[i].0 >= vocab_size {
                proof {
                    assert(first_out_of_vocab(tokens@, vocab_size as nat, i as int));
                    assert(!tokens_in_vocab(tokens@, vocab_size as nat));
                    let k = choose|k: int| first_out_of_vocab(tokens@, vocab_size as nat, k);
                    if k < i {
                        assert(tokens@[k].0 < vocab_size);
                    } else if k > i {
                        assert(tokens@[i as int].0 < vocab_size);
                    }
                    assert(k == i);
                    assert((vocab_size as nat) as usize == vocab_size);
                }
                return Err(BigramError::TokenOutOfRange { token: tokens[i].0, vocab_size });
            }
            i = i + 1;
        }
        let mut examples: Vec<BigramExample> = Vec::new();
        let last = tokens.len() - 1;
        let mut k: usize = 0;
        while k < last
            invariant
                tokens@.len() >= 2,
                last == tokens@.len() - 1,
                k <= last,
                examples@ =~= adjacent_pairs(tokens@).subrange(0, k as int),
            decreases tokens@.len() - k,
        {
            examples.push(BigramExample::new(tokens[k], tokens[k + 1]));
            k = k + 1;
        }
        proof {
            assert(examples@ =~= adjacent_pairs(tokens@));
        }
        Ok(BigramDataset { examples, vocab_size })
    }

    /// Returns the number of training pairs.
    pub fn len(&self) -> (n: usize)
        ensures
            n == self@.len(),
            n > 0,
    {
        proof {
            use_type_invariant(self);
        }
        self.examples.len()
    }

    /// Returns whether the dataset is empty, which a built dataset never is.
    pub fn is_empty(&self) -> (b: bool)
        ensures
            b == (self@.len() == 0),
            !b,
    {
        proof {
            use_type_invariant(self);
        }
        self.examples.len() == 0
    }

    /// Returns the configured vocabulary size.
    #[verifier::when_used_as_spec(spec_vocab_size)]
    pub fn vocab_size(&self) -> (v: usize)
        ensures
            v == self.spec_vocab_size(),
            v > 0,
    {
        proof {
            use_type_invariant(self);
        }
        self.vocab_size
    }

    /// The next-token pairs in stream order.
    pub fn examples(&self) -> (e: &[BigramExample])
        ensures
            e@ == self@,
    {
        self.examples.as_slice()
    }

    /// Iterates over the next-token pairs in stream order.
    pub fn iter(&self) -> (it: std::slice::Iter<'_, BigramExample>)
        ensures
            IteratorSpec::remaining(&it) == self@.as_ref(),
    {
        self.examples.as_slice().iter()
    }
}

/// Checks the shape of a tiny bigram model: the vocabulary and the model
/// width must both be positive.
pub fn check_model_shape(vocab_size: usize, d_model: usize) -> (r: Result<(), BigramError>)
    ensures
        r is Ok <==> vocab_size > 0 && d_model > 0,
        vocab_size == 0 ==> r == Err::<(), BigramError>(BigramError::EmptyVocabulary),
        vocab_size > 0 && d_model == 0 ==> r == Err::<(), BigramError>(BigramError::ZeroModelWidth),
{
    if vocab_size == 0 {
        return Err(BigramError::EmptyVocabulary);
    }
    if d_model == 0 {
        return Err(BigramError::ZeroModelWidth);
    }
    Ok(())
}

/// Checks that a token lies inside a vocabulary of `vocab_size` tokens.
pub fn validate_token(token: TokenId, vocab_size: usize) -> (r: Result<(), BigramError>)
    ensures
        r is Ok <==> token.0 < vocab_size,
        r is Err ==> r == Err::<(), BigramError>(BigramError::TokenOutOfRange { token: token.0, vocab_size }),
{
    if token.0 >= vocab_size {
        return Err(BigramError::TokenOutOfRange { token: token.0, vocab_size });
    }
    Ok(())
}

/// A bigram dataset is every adjacent window of the stream, in order and
/// with repeats kept: for a non-empty vocabulary and `n >= 2` tokens inside
/// it, building succeeds with exactly `n - 1` pairs, pair `i` reading token
/// `i` and predicting token `i + 1`.
pub proof fn lemma_bigram_pairs_are_adjacent_windows(tokens: Seq<TokenId>, vocab_size: nat)
    requires
        vocab_size > 0,
        tokens.len() >= 2,
        forall|j: int| 0 <= j < tokens.len() ==> #[trigger] tokens[j].0 < vocab_size,
    ensures
        dataset_outcome(tokens, vocab_size) is Ok,
        dataset_outcome(tokens, vocab_size) matches Ok(pairs) && pairs.len() == tokens.len() - 1 && forall|i: int|
            0 <= i < pairs.len() ==> (#[trigger] pairs[i]).input == tokens[i] && pairs[i].target == tokens[i + 1],
{
    assert(tokens_in_vocab(tokens, vocab_size));
}

} // verus!
