//! Next-token examples and the checks that a target names an existing class.
use vstd::prelude::*;

verus! {

/// One vocabulary index.
#[derive(Debug, Clone, Copy, PartialEq, Eq, Structural)]
pub struct TokenId(pub usize);

/// One next-token training example.
#[derive(Debug, Clone, PartialEq, Eq)]
pub struct NextTokenExample {
    /// The already-seen context tokens.
    pub context: Vec<TokenId>,
    /// The token that should come next.
    pub target: TokenId,
}

impl NextTokenExample {
    /// Creates one next-token example.
    pub fn new(context: Vec<TokenId>, target: TokenId) -> (e: Self)
        ensures
            e.context@ == context@,
            e.target == target,
    {
        NextTokenExample { context, target }
    }
}

/// Errors returned by token-target utilities.
#[derive(Debug, Clone, Copy, PartialEq, Eq, Structural)]
pub enum TokenTargetError {
    /// At least one logit is required to define a probability distribution.
    EmptyLogits,
    /// The target token must refer to an existing class index.
    TargetOutOfRange {
        /// The requested class.
        target: usize,
        /// The number of classes.
        classes: usize,
    },
}

/// Checks a target against `class_count` logits: there must be a logit, and
/// the target must index one of them.
pub fn validate_target(class_count: usize, target: TokenId) -> (r: Result<(), TokenTargetError>)
    ensures
        r is Ok <==> class_count > 0 && target.0 < class_count,
        class_count == 0 ==> r == Err::<(), TokenTargetError>(TokenTargetError::EmptyLogits),
        class_count > 0 && target.0 >= class_count ==> r == Err::<(), TokenTargetError>(
            TokenTargetError::TargetOutOfRange { target: target.0, classes: class_count },
        ),
{
    if class_count == 0 {
        return Err(TokenTargetError::EmptyLogits);
    }
    if target.0 >= class_count {
        return Err(TokenTargetError::TargetOutOfRange { target: target.0, classes: class_count });
    }
    Ok(())
}

} // verus!
