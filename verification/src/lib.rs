//! The structural core of a small feed-forward neural-network trainer.
//!
//! Everything here is exact and discrete: the shapes of the tensors that flow
//! through a sequential model, the bookkeeping that keeps a model's layers,
//! weights and biases in step, the order in which backpropagation visits the
//! layers, the split of a dataset into shuffled mini-batches and the schedule
//! of a training run.  The numeric kernels that fill those shapes with values
//! live with the caller, who is told what to compute and in which order.

pub mod activations;
pub mod batcher;
pub mod cost;
pub mod initializers;
pub mod layers;
pub mod matrixutil;
pub mod netutil;
pub mod optimizers;
pub mod training;
pub mod typings;
