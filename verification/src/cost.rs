//! The loss functions a model can be trained against.

use crate::typings::{ForwardBatch, Shape, ShapeError};
use vstd::prelude::*;

verus! {

/// The kinds of loss.
#[derive(Clone, Copy, Debug, PartialEq, Eq, Structural)]
pub enum Cost {
    MSE,
    CategoricalCrossEntropy,
}

impl Cost {
    /// Both kinds of loss compare prediction and target element by element,
    /// starting from the target: the two must have one shape, and where they
    /// differ it is the prediction that does not fit the target.
    pub open spec fn spec_derivate(predicted: Shape, expected: Shape) -> Result<Shape, ShapeError> {
        expected.spec_elementwise(predicted)
    }

    /// Whether the loss of sample `i` of a batch is defined: the prediction
    /// is the activation of the last layer.
    pub open spec fn spec_calculate_at(
        predicted: Seq<Vec<Vec<Shape>>>,
        expected: Seq<Shape>,
        i: int,
    ) -> Result<Shape, ShapeError> {
        Self::spec_derivate(predicted[i][1]@.last(), expected[i])
    }

    /// Whether the loss of a `predicted`-shaped prediction against an
    /// `expected`-shaped target is defined.  The loss itself is a single
    /// number, so nothing but the verdict is returned.
    pub fn calculate(&self, predicted: &Shape, expected: &Shape) -> (verdict: Result<
        (),
        ShapeError,
    >)
        ensures
            verdict == match Self::spec_derivate(*predicted, *expected) {
                Ok(_) => Ok::<(), ShapeError>(()),
                Err(e) => Err(e),
            },
    {
        match expected.elementwise(predicted) {
            Ok(_) => Ok(()),
            Err(e) => Err(e),
        }
    }

    /// Whether the mean loss over a batch is defined: the loss of every
    /// sample must be.  The first sample whose prediction does not fit its
    /// target is reported.
    pub fn calculate_batch(&self, predicted: &ForwardBatch, expected: &Vec<Shape>) -> (verdict:
        Result<(), ShapeError>)
        requires
            predicted.len() <= expected.len(),
            forall|i: int|
                0 <= i < predicted.len() ==> (#[trigger] predicted[i]).len() >= 2
                    && predicted[i][1].len() > 0,
        ensures
            match verdict {
                Ok(_) => forall|i: int|
                    0 <= i < predicted.len() ==> #[trigger] Self::spec_calculate_at(
                        predicted@,
                        expected@,
                        i,
                    ) is Ok,
                Err(e) => exists|i: int|
                    {
                        &&& 0 <= i < predicted.len()
                        &&& #[trigger] Self::spec_calculate_at(predicted@, expected@, i) == Err::<
                            Shape,
                            ShapeError,
                        >(e)
                        &&& forall|j: int|
                            0 <= j < i ==> #[trigger] Self::spec_calculate_at(
                                predicted@,
                                expected@,
                                j,
                            ) is Ok
                    },
            },
    {
        let mut i: usize = 0;
        while i < predicted.len()
            invariant
                i <= predicted.len(),
                predicted.len() <= expected.len(),
                forall|j: int|
                    0 <= j < predicted.len() ==> (#[trigger] predicted[j]).len() >= 2
                        && predicted[j][1].len() > 0,
                forall|j: int|
                    0 <= j < i ==> #[trigger] Self::spec_calculate_at(predicted@, expected@, j)
                        is Ok,
            decreases predicted.len() - i,
        {
            let activations = &predicted[i][1];
            let answer = &activations[activations.len() - 1];
            match self.calculate(answer, &expected[i]) {
                Ok(_) => {},
                Err(e) => {
                    return Err(e);
                },
            }
            assert(Self::spec_calculate_at(predicted@, expected@, i as int) is Ok);
            i += 1;
        }
        Ok(())
    }

    /// Shape of the derivative of the loss with respect to the prediction:
    /// one entry per output unit.
    pub fn derivate(&self, predicted: &Shape, expected: &Shape) -> (gradient: Result<
        Shape,
        ShapeError,
    >)
        ensures
            gradient == Self::spec_derivate(*predicted, *expected),
    {
        expected.elementwise(predicted)
    }
}

} // verus!
