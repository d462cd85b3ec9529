//! Shapes of the tensors that the basic tensor helpers produce.

use crate::typings::Shape;
use vstd::prelude::*;

verus! {

/// Shape of a fresh two-dimensional tensor with the extents `dim`.
pub fn create_weight(dim: &Vec<usize>) -> (shape: Shape)
    requires
        dim.len() == 2,
    ensures
        shape == (Shape { rows: dim[0], cols: dim[1] }),
{
    Shape { rows: dim[0], cols: dim[1] }
}

/// Shape of the transpose of a `weight`-shaped tensor.
pub fn transpose(weight: &Shape) -> (transposed: Shape)
    ensures
        transposed == weight.spec_transpose(),
{
    Shape { rows: weight.cols, cols: weight.rows }
}

/// Shape of a `weight`-shaped tensor laid out as a single row, row after
/// row.  `None` where the number of elements does not fit the machine word.
pub fn flatten(weight: &Shape) -> (flat: Option<Shape>)
    ensures
        flat == if weight.spec_size() <= usize::MAX {
            Some(Shape { rows: 1, cols: weight.spec_size() as usize })
        } else {
            None
        },
{
    match weight.rows.checked_mul(weight.cols) {
        Some(size) => Some(Shape { rows: 1, cols: size }),
        None => None,
    }
}

} // verus!
