//! Optimizers, and the order in which backpropagation walks a model.

use crate::matrixutil::transpose;
use crate::netutil::Sequential;
use crate::typings::{Shape, ShapeError};
use vstd::prelude::*;

verus! {

/// The update rules.  `S` is the scalar type of the numeric backend.
#[derive(Debug)]
pub enum Optimizers<S> {
    /// Plain gradient descent: `param -= lr * gradient`.
    SGD,
    /// Gradient descent with a velocity per layer:
    /// `v = momentum * v - lr * gradient`, then `param += v`.
    Momentum { momentum: S },
}

/// Where the derivative of the cost with respect to a layer's activation
/// comes from.
#[derive(Clone, Copy, Debug, PartialEq, Eq, Structural)]
pub enum Upstream {
    /// From the derivative of the cost at the model's output: the layer is
    /// the last one.
    Cost,
    /// From the layer above, whose index is given: its delta times the
    /// transpose of its weights.
    Layer(usize),
}

/// What a layer was fed in the forward pass.
#[derive(Clone, Copy, Debug, PartialEq, Eq, Structural)]
pub enum Source {
    /// The sample's input: the layer is the first one.
    Input,
    /// The activation of the layer below, whose index is given.
    Activation(usize),
}

/// One step of backpropagation: the work for one layer and one sample.
///
/// The step's delta, the derivative of the cost with respect to the layer's
/// pre-activation, is the derivative of the layer's activation times, element
/// by element, what comes from `upstream`.  It is added to the layer's bias
/// gradient; the transpose of `source` times the delta is added to the
/// layer's weight gradient.  When every sample of a batch has gone through
/// every step, the sums are divided by the number of samples.
#[derive(Clone, Copy, Debug, PartialEq, Eq, Structural)]
pub struct BackwardStep {
    pub layer: usize,
    pub upstream: Upstream,
    pub source: Source,
    pub delta: Shape,
    pub weight_gradient: Shape,
    pub bias_gradient: Shape,
}

/// The step of backpropagation for layer `i` of `network`.  The delta and
/// the bias gradient are rows of the layer's units; the weight gradient has a
/// row for each entry of what the layer was fed and a column for each unit.
pub open spec fn backward_step<S>(network: &Sequential<S>, i: int) -> BackwardStep {
    BackwardStep {
        layer: i as usize,
        upstream: if i == network.layers.len() - 1 {
            Upstream::Cost
        } else {
            Upstream::Layer((i + 1) as usize)
        },
        source: if i == 0 {
            Source::Input
        } else {
            Source::Activation((i - 1) as usize)
        },
        delta: Shape::row(network.layers[i].spec_units()),
        weight_gradient: Shape { rows: network.fan_in(i), cols: network.layers[i].spec_units() },
        bias_gradient: Shape::row(network.layers[i].spec_units()),
    }
}

/// The steps of backpropagation through `network`, from the last layer down
/// to the first.
pub open spec fn backward_steps<S>(network: &Sequential<S>) -> Seq<BackwardStep> {
    Seq::new(
        network.layers.len() as nat,
        |k: int| backward_step(network, network.layers.len() - 1 - k),
    )
}

/// What layer `i` of `network` was fed in the forward pass is a row as wide
/// as the layer's input.
pub open spec fn fed_shape<S>(network: &Sequential<S>, i: int) -> Shape {
    Shape::row(network.fan_in(i))
}

/// Every tensor operation of a backward step through a well-formed model is
/// defined.  What reaches a layer from the layer above, the delta of that
/// layer times the transpose of its weights, has the shape of the layer's own
/// delta; the transpose of what the layer was fed, times its delta, has the
/// shape of its weights; and its delta has the shape of its bias.
pub proof fn lemma_backward_shapes_fit<S>(network: &Sequential<S>, i: int)
    requires
        network.wf(),
        0 <= i < network.layers.len(),
    ensures
        i + 1 < network.layers.len() ==> backward_step(network, i + 1).delta.spec_dot(
            network.weights[i + 1].spec_transpose(),
        ) == Ok::<Shape, ShapeError>(backward_step(network, i).delta),
        fed_shape(network, i).spec_transpose().spec_dot(backward_step(network, i).delta) == Ok::<
            Shape,
            ShapeError,
        >(backward_step(network, i).weight_gradient),
        backward_step(network, i).bias_gradient == backward_step(network, i).delta,
{
}

/// Training changes the values of a model's parameters and never their
/// number or shapes: the backward pass through a well-formed model has one
/// step for each layer, and the gradients of a step can be subtracted from
/// the weights and the bias of its layer, element by element.
pub proof fn lemma_updates_keep_shapes<S>(network: &Sequential<S>, k: int)
    requires
        network.wf(),
        0 <= k < network.layers.len(),
    ensures
        backward_steps(network).len() == network.layers.len(),
        ({
            let step = backward_steps(network)[k];
            &&& step.layer == network.layers.len() - 1 - k
            &&& network.weights[step.layer as int].spec_elementwise(step.weight_gradient) == Ok::<
                Shape,
                ShapeError,
            >(network.weights[step.layer as int])
            &&& network.biases[step.layer as int].spec_elementwise(step.bias_gradient) == Ok::<
                Shape,
                ShapeError,
            >(network.biases[step.layer as int])
        }),
{
}

impl<S> Optimizers<S> {
    /// The steps that compute the gradients of `network` for one sample,
    /// in the order in which they have to be taken.  Every update rule works
    /// from the same gradients.
    ///
    /// The shapes in each step are worked out through the tensor operations
    /// that the step stands for; in a well-formed model every one of them is
    /// defined, and each gradient comes out in the shape of the parameter
    /// that it updates.
    pub fn backward(&self, network: &Sequential<S>) -> (steps: Vec<BackwardStep>)
        requires
            network.wf(),
        ensures
            steps@ == backward_steps(network),
    {
        let count = network.layers.len();
        let mut steps: Vec<BackwardStep> = Vec::new();
        let mut delta = Shape { rows: 1, cols: 1 };
        let mut k: usize = 0;
        while k < count
            invariant
                network.wf(),
                count == network.layers.len(),
                k <= count,
                steps@.len() == k,
                forall|j: int|
                    0 <= j < k ==> #[trigger] steps@[j] == backward_step(network, count - 1 - j),
                k > 0 ==> delta == Shape::row(network.layers[count - k].spec_units()),
            decreases count - k,
        {
            let i = count - 1 - k;
            let z = Shape { rows: 1, cols: network.layers[i].get_units() };
            let slope = network.layers[i].derivate_activation(&z);
            let upstream = if k == 0 {
                Upstream::Cost
            } else {
                Upstream::Layer(i + 1)
            };
            let incoming = if k == 0 {
                let target = z;
                network.cost.derivate(&z, &target)
            } else {
                delta.dot(&transpose(&network.weights[i + 1]))
            };
            delta = slope.elementwise(&incoming.unwrap()).unwrap();
            let source = if i == 0 {
                Source::Input
            } else {
                Source::Activation(i - 1)
            };
            let fed = if i == 0 {
                Shape { rows: 1, cols: network.input_dim }
            } else {
                Shape { rows: 1, cols: network.layers[i - 1].get_units() }
            };
            let weight_gradient = transpose(&fed).dot(&delta).unwrap();
            let bias_gradient = network.biases[i].elementwise(&delta).unwrap();
            steps.push(
                BackwardStep { layer: i, upstream, source, delta, weight_gradient, bias_gradient },
            );
            k += 1;
        }
        steps
    }
}

} // verus!
