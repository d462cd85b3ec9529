//! The sequential model: an ordered stack of layers with the shapes of
//! their weights and biases.

use crate::batcher::{contents, is_batching, shuffle_and_batch};
use crate::cost::Cost;
use crate::initializers::{lowercase_of, Initializer};
use crate::layers::Layers;
use crate::optimizers::{backward_steps, Optimizers};
use crate::training::TrainingRun;
use crate::typings::{BatchedDataset, Dataset, Sample, Shape, ShapeError};
use vstd::prelude::*;

verus! {

/// Why a training run cannot start.
#[derive(Clone, Copy, Debug, PartialEq, Eq, Structural)]
pub enum TrainError {
    /// The model has no layer.
    NoLayers,
    /// The dataset has no sample.
    EmptyDataset,
    /// Batches of no sample were asked for.
    ZeroBatchSize,
    /// The sample at `index` does not fit the model.
    Sample { index: usize, error: ShapeError },
}

/// Where a model stands in its life.
#[derive(Clone, Copy, Debug, PartialEq, Eq, Structural)]
pub enum ModelState {
    /// No layer has been added: the model answers nothing and cannot be
    /// trained.
    Empty,
    /// At least one layer has been added, and no training run was started.
    Building,
    /// A training run was started on the model.  It can be trained further.
    Trained,
}

/// A stack of layers.  `weights[i]` and `biases[i]` are the shapes of the
/// parameters of `layers[i]`; the three lists grow together.  `trained`
/// records that a training run was started on the model.
pub struct Sequential<S> {
    pub layers: Vec<Layers<S>>,
    pub weights: Vec<Shape>,
    pub biases: Vec<Shape>,
    pub input_dim: usize,
    pub cost: Cost,
    pub trained: bool,
}

impl<S> Sequential<S> {
    /// The width of the input that layer `i` takes: the width of the model's
    /// input for the first layer, the number of units of the layer before
    /// for every other.
    pub open spec fn fan_in(&self, i: int) -> usize {
        if i == 0 {
            self.input_dim
        } else {
            self.layers[i - 1].spec_units()
        }
    }

    /// The three lists are in step, every weight tensor maps its layer's
    /// input to its layer's units, every bias is a row of its layer's
    /// units, and only a model with a layer counts as trained.
    pub open spec fn wf(&self) -> bool {
        &&& self.trained ==> self.layers.len() > 0
        &&& self.weights.len() == self.layers.len()
        &&& self.biases.len() == self.layers.len()
        &&& forall|i: int|
            0 <= i < self.layers.len() ==> #[trigger] self.weights[i] == (Shape {
                rows: self.fan_in(i),
                cols: self.layers[i].spec_units(),
            })
        &&& forall|i: int|
            0 <= i < self.layers.len() ==> #[trigger] self.biases[i] == Shape::row(
                self.layers[i].spec_units(),
            )
    }

    /// Where the model stands in its life.
    pub open spec fn spec_state(&self) -> ModelState {
        if self.layers.len() == 0 {
            ModelState::Empty
        } else if self.trained {
            ModelState::Trained
        } else {
            ModelState::Building
        }
    }

    /// The number of rows of the next weight tensor: the number of columns
    /// of the last one, or the width of the model's input where there
    /// is none yet.
    pub open spec fn next_fan_in(&self) -> usize {
        if self.weights.len() == 0 {
            self.input_dim
        } else {
            self.weights@.last().cols
        }
    }

    /// The shapes that the layers put out, from the first layer to the last:
    /// each a row of the layer's units.
    pub open spec fn spec_rows(&self) -> Seq<Shape> {
        Seq::new(self.layers.len() as nat, |i: int| Shape::row(self.layers[i].spec_units()))
    }

    /// Shape of the answer of a well-formed model with at least one layer to
    /// an `input`-shaped input.  The input must be as wide as the model's
    /// input, or it cannot be multiplied with the first weights; and it must
    /// be a single row, or the first bias cannot be added to the product.
    pub open spec fn spec_predict(&self, input: Shape) -> Result<Shape, ShapeError> {
        if input.cols != self.input_dim {
            Err(
                ShapeError {
                    expected: Shape { rows: input.rows, cols: self.input_dim },
                    actual: input,
                },
            )
        } else if input.rows != 1 {
            Err(
                ShapeError {
                    expected: Shape { rows: input.rows, cols: self.layers[0].spec_units() },
                    actual: Shape::row(self.layers[0].spec_units()),
                },
            )
        } else {
            Ok(Shape::row(self.layers@.last().spec_units()))
        }
    }

    /// What the forward pass of a well-formed model caches for an
    /// `input`-shaped input: the shapes of the pre-activations of all layers,
    /// then the shapes of their activations.
    pub open spec fn spec_collect_forward(&self, input: Shape) -> Result<
        Seq<Seq<Shape>>,
        ShapeError,
    > {
        if self.layers.len() == 0 {
            Ok(seq![Seq::<Shape>::empty(), Seq::<Shape>::empty()])
        } else {
            match self.spec_predict(input) {
                Ok(_) => Ok(seq![self.spec_rows(), self.spec_rows()]),
                Err(e) => Err(e),
            }
        }
    }

    /// Whether `sample` can be trained on: the model answers its input, and
    /// the answer can be compared with its target.
    pub open spec fn spec_check_sample(&self, sample: Sample) -> Result<(), ShapeError> {
        match self.spec_predict(sample.0) {
            Ok(answer) => match Cost::spec_derivate(answer, sample.1) {
                Ok(_) => Ok(()),
                Err(e) => Err(e),
            },
            Err(e) => Err(e),
        }
    }

    /// A model without layers for inputs of width `input_dim`.
    pub fn new(input_dim: usize, cost: Cost) -> (model: Self)
        ensures
            model.wf(),
            model.layers@.len() == 0,
            model.weights@.len() == 0,
            model.biases@.len() == 0,
            model.input_dim == input_dim,
            model.cost == cost,
            !model.trained,
            model.spec_state() == ModelState::Empty,
    {
        Sequential {
            layers: Vec::new(),
            weights: Vec::new(),
            biases: Vec::new(),
            input_dim,
            cost,
            trained: false,
        }
    }

    /// Where the model stands in its life.
    pub fn state(&self) -> (state: ModelState)
        ensures
            state == self.spec_state(),
    {
        if self.layers.len() == 0 {
            ModelState::Empty
        } else if self.trained {
            ModelState::Trained
        } else {
            ModelState::Building
        }
    }

    /// Whether the model is well formed.
    pub fn is_wf(&self) -> (ok: bool)
        ensures
            ok == self.wf(),
    {
        if self.weights.len() != self.layers.len() || self.biases.len() != self.layers.len() {
            return false;
        }
        if self.trained && self.layers.len() == 0 {
            return false;
        }
        let mut fan_in: usize = self.input_dim;
        let mut i: usize = 0;
        while i < self.layers.len()
            invariant
                self.trained ==> self.layers.len() > 0,
                self.weights.len() == self.layers.len(),
                self.biases.len() == self.layers.len(),
                i <= self.layers.len(),
                fan_in == self.fan_in(i as int),
                forall|j: int|
                    0 <= j < i ==> #[trigger] self.weights[j] == (Shape {
                        rows: self.fan_in(j),
                        cols: self.layers[j].spec_units(),
                    }),
                forall|j: int|
                    0 <= j < i ==> #[trigger] self.biases[j] == Shape::row(
                        self.layers[j].spec_units(),
                    ),
            decreases self.layers.len() - i,
        {
            let units = self.layers[i].get_units();
            let weight = self.weights[i];
            let bias = self.biases[i];
            if weight.rows != fan_in || weight.cols != units || bias.rows != 1 || bias.cols
                != units {
                return false;
            }
            fan_in = units;
            i += 1;
        }
        true
    }

    /// Appends the shape of the weights of `layer` and returns the strategy
    /// that is to draw them.
    pub fn generate_weights(&mut self, layer: &Layers<S>) -> (strategy: Initializer)
        ensures
            final(self).weights@ == old(self).weights@.push(
                Shape { rows: old(self).next_fan_in(), cols: layer.spec_units() },
            ),
            final(self).layers == old(self).layers,
            final(self).biases == old(self).biases,
            final(self).input_dim == old(self).input_dim,
            final(self).cost == old(self).cost,
            final(self).trained == old(self).trained,
            strategy == Initializer::spec_from_lowercase(lowercase_of(layer.spec_init_func())),
    {
        let rows = if self.weights.len() == 0 {
            self.input_dim
        } else {
            self.weights[self.weights.len() - 1].cols
        };
        let name = layer.get_init_func();
        let strategy = Initializer::from_name(name.as_str());
        self.weights.push(Shape { rows, cols: layer.get_units() });
        strategy
    }

    /// Appends the shape of the bias of `layer`: a row of its units.
    pub fn generate_biases(&mut self, layer: &Layers<S>)
        ensures
            final(self).biases@ == old(self).biases@.push(Shape::row(layer.spec_units())),
            final(self).layers == old(self).layers,
            final(self).weights == old(self).weights,
            final(self).input_dim == old(self).input_dim,
            final(self).cost == old(self).cost,
            final(self).trained == old(self).trained,
    {
        self.biases.push(Shape { rows: 1, cols: layer.get_units() });
    }

    /// Adds `layer` on top of the model and returns the strategy that is to
    /// draw its weights.  The new weights take what the layer below puts
    /// out, or the model's input where `layer` is the first.  A model with a
    /// layer is no longer empty; whether it counts as trained stays as it
    /// was.
    pub fn add(&mut self, layer: Layers<S>) -> (strategy: Initializer)
        ensures
            final(self).layers@ == old(self).layers@.push(layer),
            final(self).weights@ == old(self).weights@.push(
                Shape { rows: old(self).next_fan_in(), cols: layer.spec_units() },
            ),
            final(self).biases@ == old(self).biases@.push(Shape::row(layer.spec_units())),
            final(self).input_dim == old(self).input_dim,
            final(self).cost == old(self).cost,
            final(self).trained == old(self).trained,
            strategy == Initializer::spec_from_lowercase(lowercase_of(layer.spec_init_func())),
            old(self).wf() ==> final(self).wf(),
            final(self).spec_state() != ModelState::Empty,
    {
        let strategy = self.generate_weights(&layer);
        self.generate_biases(&layer);
        self.layers.push(layer);
        strategy
    }

    /// Shape of the model's answer to an `input`-shaped input: the forward
    /// pass through every layer in turn, each followed by its activation.
    pub fn predict(&self, input: &Shape) -> (output: Result<Shape, ShapeError>)
        requires
            self.wf(),
            self.layers.len() > 0,
        ensures
            output == self.spec_predict(*input),
    {
        let mut x = *input;
        let mut i: usize = 0;
        while i < self.layers.len()
            invariant
                self.wf(),
                i <= self.layers.len(),
                i == 0 ==> x == *input,
                i > 0 ==> *input == Shape::row(self.input_dim) && x == Shape::row(
                    self.layers[i - 1].spec_units(),
                ),
            decreases self.layers.len() - i,
        {
            let z = match self.layers[i].forward_propagate(&x, &self.weights[i], &self.biases[i]) {
                Ok(z) => z,
                Err(e) => {
                    return Err(e);
                },
            };
            x = self.layers[i].activate(&z);
            i += 1;
        }
        Ok(x)
    }

    /// Shapes of everything the forward pass computes for an `input`-shaped
    /// input: first the pre-activations of all layers, then their
    /// activations.
    pub fn collect_forward(&self, input: &Shape) -> (output: Result<Vec<Vec<Shape>>, ShapeError>)
        requires
            self.wf(),
        ensures
            match output {
                Ok(cache) => self.spec_collect_forward(*input) == Ok::<
                    Seq<Seq<Shape>>,
                    ShapeError,
                >(Seq::new(cache@.len(), |k: int| cache@[k]@)),
                Err(e) => self.spec_collect_forward(*input) == Err::<Seq<Seq<Shape>>, ShapeError>(e),
            },
    {
        let mut z_vec: Vec<Shape> = Vec::new();
        let mut a_vec: Vec<Shape> = Vec::new();
        let mut x = *input;
        let mut i: usize = 0;
        while i < self.layers.len()
            invariant
                self.wf(),
                i <= self.layers.len(),
                i == 0 ==> x == *input,
                i > 0 ==> *input == Shape::row(self.input_dim) && x == Shape::row(
                    self.layers[i - 1].spec_units(),
                ),
                z_vec@ == self.spec_rows().take(i as int),
                a_vec@ == self.spec_rows().take(i as int),
            decreases self.layers.len() - i,
        {
            let z = match self.layers[i].forward_propagate(&x, &self.weights[i], &self.biases[i]) {
                Ok(z) => z,
                Err(e) => {
                    return Err(e);
                },
            };
            let a = self.layers[i].activate(&z);
            z_vec.push(z);
            a_vec.push(a);
            x = a;
            i += 1;
        }
        assert(self.spec_rows().take(i as int) =~= self.spec_rows());
        let cache = vec![z_vec, a_vec];
        assert(Seq::new(cache@.len(), |k: int| cache@[k]@) =~= seq![
            self.spec_rows(),
            self.spec_rows(),
        ]);
        assert(self.layers.len() == 0 ==> self.spec_rows() =~= Seq::<Shape>::empty());
        Ok(cache)
    }

    /// Starts a training run of `epochs` epochs: checks that it can start,
    /// lays out its backward pass, draws the batches of its first epoch and
    /// marks the model as trained.  The layers and the shapes of the
    /// parameters stay as they are, whatever the outcome.
    ///
    /// A run needs a model with a layer, a dataset with a sample and batches
    /// of at least one sample; and every sample must fit the model, its input
    /// as the model's input and its target as the model's answer.  The first
    /// of these that fails is reported, the samples in the order of the
    /// dataset.  Where none fails the run comes back, at the start of its
    /// first epoch and with the steps of `optimizer`'s backward pass, one
    /// for each layer.
    pub fn train(
        &mut self,
        dataset: &Dataset,
        optimizer: &Optimizers<S>,
        batch_size: usize,
        epochs: usize,
    ) -> (plan: Result<TrainingRun, TrainError>)
        requires
            old(self).wf(),
        ensures
            final(self).wf(),
            final(self).layers == old(self).layers,
            final(self).weights == old(self).weights,
            final(self).biases == old(self).biases,
            final(self).input_dim == old(self).input_dim,
            final(self).cost == old(self).cost,
            final(self).trained == (old(self).trained || plan is Ok),
            match plan {
                Ok(run) => {
                    &&& final(self).spec_state() == ModelState::Trained
                    &&& old(self).layers.len() > 0
                    &&& dataset.len() > 0
                    &&& batch_size > 0
                    &&& forall|j: int|
                        0 <= j < dataset.len() ==> old(self).spec_check_sample(#[trigger] dataset[j])
                            is Ok
                    &&& run.wf()
                    &&& run.spec_plan() == backward_steps(&*old(self))
                    &&& run.dataset_len() == dataset.len()
                    &&& run.batch_size() == batch_size
                    &&& run.epochs_left() == epochs
                    &&& run.batch() == 0
                    &&& run.place() == 0
                },
                Err(TrainError::NoLayers) => old(self).layers.len() == 0,
                Err(TrainError::EmptyDataset) => old(self).layers.len() > 0 && dataset.len() == 0,
                Err(TrainError::ZeroBatchSize) => {
                    &&& old(self).layers.len() > 0
                    &&& dataset.len() > 0
                    &&& batch_size == 0
                },
                Err(TrainError::Sample { index, error }) => {
                    &&& old(self).layers.len() > 0
                    &&& dataset.len() > 0
                    &&& batch_size > 0
                    &&& index < dataset.len()
                    &&& old(self).spec_check_sample(dataset[index as int]) == Err::<(), ShapeError>(
                        error,
                    )
                    &&& forall|j: int|
                        0 <= j < index ==> old(self).spec_check_sample(#[trigger] dataset[j]) is Ok
                },
            },
    {
        if self.layers.len() == 0 {
            return Err(TrainError::NoLayers);
        }
        if dataset.len() == 0 {
            return Err(TrainError::EmptyDataset);
        }
        if batch_size == 0 {
            return Err(TrainError::ZeroBatchSize);
        }
        let mut index: usize = 0;
        while index < dataset.len()
            invariant
                *self == *old(self),
                self.wf(),
                self.layers.len() > 0,
                dataset.len() > 0,
                batch_size > 0,
                index <= dataset.len(),
                forall|j: int|
                    0 <= j < index ==> self.spec_check_sample(#[trigger] dataset[j]) is Ok,
            decreases dataset.len() - index,
        {
            let sample = dataset[index];
            let answer = match self.predict(&sample.0) {
                Ok(answer) => answer,
                Err(error) => {
                    return Err(TrainError::Sample { index, error });
                },
            };
            match self.cost.calculate(&answer, &sample.1) {
                Ok(_) => {},
                Err(error) => {
                    return Err(TrainError::Sample { index, error });
                },
            }
            index += 1;
        }
        self.trained = true;
        Ok(TrainingRun::start(optimizer.backward(self), dataset.len(), batch_size, epochs))
    }

    /// The indices of a dataset of `dataset_len` samples in a fresh random
    /// order, cut into batches of `batch_size`.  The order is drawn anew on
    /// every call.
    pub fn create_batches(dataset_len: usize, batch_size: usize) -> (batches: BatchedDataset)
        requires
            batch_size > 0,
        ensures
            is_batching(contents(batches@), dataset_len as nat, batch_size as nat),
    {
        shuffle_and_batch(dataset_len, batch_size)
    }
}

} // verus!
