//! The closed family of activation functions.

use crate::typings::Shape;
use vstd::prelude::*;

verus! {

/// The kinds of activation a layer can apply.  `S` is the scalar type of the
/// numeric backend; the kinds with a tunable slope carry it as `a`.
#[derive(Debug)]
pub enum Activations<S> {
    Sigmoid,
    ReLU,
    LeakyReLU { a: S },
    Tanh,
    Softmax,
    SoftPlus,
    SoftSign,
    ELU { a: S },
    SELU,
    GELU,
}

impl<S> Activations<S> {
    /// Shape of the activation of a `weight`-shaped tensor.  Every kind maps
    /// a tensor to one of the same shape: all but `Softmax` work element by
    /// element, and `Softmax` only rescales.
    pub fn activate(&self, weight: &Shape) -> (activated: Shape)
        ensures
            activated == *weight,
    {
        *weight
    }

    /// Shape of the derivative of the activation at a `weight`-shaped
    /// tensor.  For every kind, `Softmax` with its diagonal derivative
    /// included, it is the shape of the tensor itself.
    pub fn derivate(&self, weight: &Shape) -> (derivative: Shape)
        ensures
            derivative == *weight,
    {
        *weight
    }
}

} // verus!
