//! Layer descriptions.

use crate::activations::Activations;
use crate::typings::{Shape, ShapeError};
use vstd::prelude::*;

verus! {

/// What a model is told when a layer is added to it.
#[derive(Debug)]
pub enum Layers<S> {
    /// A fully connected layer of `units` outputs, whose weights are drawn by
    /// the strategy named `init_func`.
    Dense { units: usize, activation: Activations<S>, init_func: String },
}

impl<S> Layers<S> {
    /// The number of outputs of the layer.
    pub open spec fn spec_units(&self) -> usize {
        match self {
            Layers::Dense { units, .. } => *units,
        }
    }

    /// The name of the strategy that draws the layer's weights.
    pub open spec fn spec_init_func(&self) -> Seq<char> {
        match self {
            Layers::Dense { init_func, .. } => init_func@,
        }
    }

    /// Shape of `input * weights + bias`: the product must be defined, and
    /// the bias must have the shape of the product.
    pub open spec fn spec_forward(input: Shape, weights: Shape, bias: Shape) -> Result<
        Shape,
        ShapeError,
    > {
        match input.spec_dot(weights) {
            Ok(product) => product.spec_elementwise(bias),
            Err(e) => Err(e),
        }
    }

    pub fn get_units(&self) -> (units: usize)
        ensures
            units == self.spec_units(),
    {
        match self {
            Layers::Dense { units, .. } => *units,
        }
    }

    pub fn get_init_func(&self) -> (name: String)
        ensures
            name@ == self.spec_init_func(),
    {
        match self {
            Layers::Dense { init_func, .. } => init_func.clone(),
        }
    }

    /// Shape of the layer's pre-activation for an `input`-shaped input,
    /// given the shapes of its weights and bias.
    pub fn forward_propagate(&self, input: &Shape, weights: &Shape, bias: &Shape) -> (output:
        Result<Shape, ShapeError>)
        ensures
            output == Self::spec_forward(*input, *weights, *bias),
    {
        match input.dot(weights) {
            Ok(product) => product.elementwise(bias),
            Err(e) => Err(e),
        }
    }

    /// Shape of the layer's activation of an `input`-shaped pre-activation.
    pub fn activate(&self, input: &Shape) -> (activated: Shape)
        ensures
            activated == *input,
    {
        match self {
            Layers::Dense { activation, .. } => activation.activate(input),
        }
    }

    /// Shape of the derivative of the layer's activation at an
    /// `input`-shaped pre-activation.
    pub fn derivate_activation(&self, input: &Shape) -> (derivative: Shape)
        ensures
            derivative == *input,
    {
        match self {
            Layers::Dense { activation, .. } => activation.derivate(input),
        }
    }
}

} // verus!
