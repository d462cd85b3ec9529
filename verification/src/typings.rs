//! Shapes of two-dimensional tensors and the rules by which they combine.

use vstd::prelude::*;

verus! {

/// The extent of a two-dimensional tensor: `rows` by `cols`.
#[derive(Clone, Copy, Debug, PartialEq, Eq, Structural)]
pub struct Shape {
    pub rows: usize,
    pub cols: usize,
}

/// Two operands that do not fit together: `actual` is the shape that was
/// given, `expected` the one that would have fitted in its place.
#[derive(Clone, Copy, Debug, PartialEq, Eq, Structural)]
pub struct ShapeError {
    pub expected: Shape,
    pub actual: Shape,
}

/// The shapes of one training sample: its input and its target.
#[derive(Clone, Copy, Debug, PartialEq, Eq, Structural)]
pub struct Sample(pub Shape, pub Shape);

/// The samples to train on.
pub type Dataset = Vec<Sample>;

/// A dataset cut into batches: each batch lists the indices of its samples.
pub type BatchedDataset = Vec<Vec<usize>>;

/// What the forward pass cached for each sample of a batch: for every
/// sample two lists with one entry per layer, the pre-activations at place 0
/// and the activations at place 1.
pub type ForwardBatch = Vec<Vec<Vec<Shape>>>;

impl Shape {
    /// The shape of a row vector with `cols` entries.
    pub open spec fn row(cols: usize) -> Shape {
        Shape { rows: 1, cols }
    }

    /// The shape of the matrix product `self * rhs`, defined when the inner
    /// dimensions agree.  On a mismatch the left operand is the one blamed:
    /// it was expected to have as many columns as `rhs` has rows.
    pub open spec fn spec_dot(self, rhs: Shape) -> Result<Shape, ShapeError> {
        if self.cols == rhs.rows {
            Ok(Shape { rows: self.rows, cols: rhs.cols })
        } else {
            Err(
                ShapeError {
                    expected: Shape { rows: self.rows, cols: rhs.rows },
                    actual: self,
                },
            )
        }
    }

    /// The shape of an elementwise combination of `self` and `rhs`, defined
    /// when both have the same shape.
    pub open spec fn spec_elementwise(self, rhs: Shape) -> Result<Shape, ShapeError> {
        if self == rhs {
            Ok(self)
        } else {
            Err(ShapeError { expected: self, actual: rhs })
        }
    }

    /// The shape with rows and columns exchanged.
    pub open spec fn spec_transpose(self) -> Shape {
        Shape { rows: self.cols, cols: self.rows }
    }

    /// The number of elements of a tensor of this shape.
    pub open spec fn spec_size(self) -> nat {
        (self.rows * self.cols) as nat
    }

    pub fn new(rows: usize, cols: usize) -> (shape: Shape)
        ensures
            shape == (Shape { rows, cols }),
    {
        Shape { rows, cols }
    }

    /// Shape of the matrix product of a `self`-shaped tensor with an
    /// `rhs`-shaped one.
    pub fn dot(&self, rhs: &Shape) -> (product: Result<Shape, ShapeError>)
        ensures
            product == self.spec_dot(*rhs),
    {
        if self.cols == rhs.rows {
            Ok(Shape { rows: self.rows, cols: rhs.cols })
        } else {
            Err(
                ShapeError {
                    expected: Shape { rows: self.rows, cols: rhs.rows },
                    actual: *self,
                },
            )
        }
    }

    /// Shape of an elementwise sum, difference or product of a `self`-shaped
    /// tensor with an `rhs`-shaped one.
    pub fn elementwise(&self, rhs: &Shape) -> (combined: Result<Shape, ShapeError>)
        ensures
            combined == self.spec_elementwise(*rhs),
    {
        if self.rows == rhs.rows && self.cols == rhs.cols {
            Ok(*self)
        } else {
            Err(ShapeError { expected: *self, actual: *rhs })
        }
    }
}

} // verus!
