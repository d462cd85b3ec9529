use fe0_ml::activations::Activations;
use fe0_ml::cost::Cost;
use fe0_ml::initializers::Initializer;
use fe0_ml::layers::Layers;
use fe0_ml::netutil::{ModelState, Sequential, TrainError};
use fe0_ml::optimizers::{BackwardStep, Optimizers, Source, Upstream};
use fe0_ml::typings::{Sample, Shape, ShapeError};

fn dense(units: usize, activation: Activations<f32>, init_func: &str) -> Layers<f32> {
    Layers::Dense { units, activation, init_func: String::from(init_func) }
}

fn digits() -> Sequential<f32> {
    let mut model = Sequential::new(784, Cost::MSE);
    model.add(dense(128, Activations::ReLU, "he"));
    model.add(dense(32, Activations::ReLU, "he"));
    model.add(dense(10, Activations::Softmax, "he"));
    model
}

fn row(cols: usize) -> Shape {
    Shape::new(1, cols)
}

#[test]
fn new_model_is_empty() {
    let model: Sequential<f32> = Sequential::new(784, Cost::CategoricalCrossEntropy);
    assert!(model.layers.is_empty());
    assert!(model.weights.is_empty());
    assert!(model.biases.is_empty());
    assert_eq!(model.input_dim, 784);
    assert_eq!(model.cost, Cost::CategoricalCrossEntropy);
    assert!(!model.trained);
    assert_eq!(model.state(), ModelState::Empty);
    assert!(model.is_wf());
}

#[test]
fn add_chains_the_shapes() {
    let model = digits();
    assert_eq!(model.layers.len(), 3);
    assert_eq!(
        model.weights,
        vec![Shape::new(784, 128), Shape::new(128, 32), Shape::new(32, 10)]
    );
    assert_eq!(model.biases, vec![row(128), row(32), row(10)]);
    assert!(model.is_wf());
}

#[test]
fn add_returns_the_strategy() {
    let mut model: Sequential<f32> = Sequential::new(4, Cost::MSE);
    assert_eq!(model.add(dense(3, Activations::Tanh, "Glorot")), Initializer::Xavier);
    assert_eq!(model.add(dense(2, Activations::ReLU, "KAIMING")), Initializer::He);
    assert_eq!(model.add(dense(1, Activations::Sigmoid, "anything")), Initializer::Uniform);
}

#[test]
fn generated_weights_follow_the_last_weights() {
    let mut model: Sequential<f32> = Sequential::new(6, Cost::MSE);
    let first = dense(5, Activations::ReLU, "xavier");
    assert_eq!(model.generate_weights(&first), Initializer::Xavier);
    assert_eq!(model.weights, vec![Shape::new(6, 5)]);
    assert!(model.biases.is_empty());
    assert!(!model.is_wf());
    model.generate_biases(&first);
    assert_eq!(model.biases, vec![row(5)]);
    let second = dense(2, Activations::ReLU, "he");
    assert_eq!(model.generate_weights(&second), Initializer::He);
    assert_eq!(model.weights, vec![Shape::new(6, 5), Shape::new(5, 2)]);
}

#[test]
fn tampered_models_are_not_well_formed() {
    let mut model = digits();
    model.weights[1] = Shape::new(127, 32);
    assert!(!model.is_wf());
    let mut model = digits();
    model.biases[2] = Shape::new(10, 1);
    assert!(!model.is_wf());
    let mut model = digits();
    model.input_dim = 783;
    assert!(!model.is_wf());
    let mut model = digits();
    model.biases.pop();
    assert!(!model.is_wf());
}

#[test]
fn predict_gives_a_row_of_the_last_units() {
    assert_eq!(digits().predict(&row(784)), Ok(row(10)));
}

#[test]
fn predict_is_repeatable() {
    let model = digits();
    assert_eq!(model.predict(&row(784)), model.predict(&row(784)));
}

#[test]
fn predict_rejects_a_wrong_width() {
    assert_eq!(
        digits().predict(&row(783)),
        Err(ShapeError { expected: row(784), actual: row(783) })
    );
}

#[test]
fn predict_rejects_more_than_one_row() {
    assert_eq!(
        digits().predict(&Shape::new(2, 784)),
        Err(ShapeError { expected: Shape::new(2, 128), actual: row(128) })
    );
}

#[test]
fn collect_forward_lists_every_layer_twice() {
    let rows = vec![row(128), row(32), row(10)];
    assert_eq!(digits().collect_forward(&row(784)), Ok(vec![rows.clone(), rows]));
}

#[test]
fn collect_forward_rejects_a_wrong_width() {
    assert_eq!(
        digits().collect_forward(&row(10)),
        Err(ShapeError { expected: row(784), actual: row(10) })
    );
}

#[test]
fn collect_forward_of_an_empty_model() {
    let model: Sequential<f32> = Sequential::new(3, Cost::MSE);
    assert_eq!(model.collect_forward(&row(99)), Ok(vec![Vec::new(), Vec::new()]));
}

#[test]
fn backward_walks_from_the_last_layer_down() {
    let model = digits();
    let steps = Optimizers::SGD.backward(&model);
    assert_eq!(
        steps,
        vec![
            BackwardStep {
                layer: 2,
                upstream: Upstream::Cost,
                source: Source::Activation(1),
                delta: row(10),
                weight_gradient: Shape::new(32, 10),
                bias_gradient: row(10),
            },
            BackwardStep {
                layer: 1,
                upstream: Upstream::Layer(2),
                source: Source::Activation(0),
                delta: row(32),
                weight_gradient: Shape::new(128, 32),
                bias_gradient: row(32),
            },
            BackwardStep {
                layer: 0,
                upstream: Upstream::Layer(1),
                source: Source::Input,
                delta: row(128),
                weight_gradient: Shape::new(784, 128),
                bias_gradient: row(128),
            },
        ]
    );
}

#[test]
fn backward_of_a_single_layer() {
    let mut model: Sequential<f32> = Sequential::new(2, Cost::MSE);
    model.add(dense(1, Activations::ReLU, "uniform"));
    let steps = Optimizers::Momentum { momentum: 0.9 }.backward(&model);
    assert_eq!(
        steps,
        vec![BackwardStep {
            layer: 0,
            upstream: Upstream::Cost,
            source: Source::Input,
            delta: row(1),
            weight_gradient: Shape::new(2, 1),
            bias_gradient: row(1),
        }]
    );
}

#[test]
fn backward_of_an_empty_model() {
    let model: Sequential<f32> = Sequential::new(2, Cost::MSE);
    assert!(Optimizers::SGD.backward(&model).is_empty());
}

#[test]
fn backward_gradients_have_the_shapes_of_the_parameters() {
    let model = digits();
    for step in Optimizers::SGD.backward(&model) {
        assert_eq!(step.weight_gradient, model.weights[step.layer]);
        assert_eq!(step.bias_gradient, model.biases[step.layer]);
    }
}

#[test]
fn train_accepts_a_fitting_dataset() {
    let mut model = digits();
    let dataset = vec![Sample(row(784), row(10)); 5];
    let run = model.train(&dataset, &Optimizers::SGD, 2, 3).unwrap();
    assert_eq!(*run.plan(), Optimizers::<f32>::SGD.backward(&model));
    assert_eq!(run.remaining_epochs(), 3);
}

#[test]
fn train_needs_a_layer() {
    let mut model: Sequential<f32> = Sequential::new(784, Cost::MSE);
    let dataset = vec![Sample(row(784), row(10))];
    assert_eq!(model.train(&dataset, &Optimizers::SGD, 2, 1).err(), Some(TrainError::NoLayers));
    assert_eq!(model.train(&Vec::new(), &Optimizers::SGD, 0, 1).err(), Some(TrainError::NoLayers));
}

#[test]
fn train_needs_a_sample() {
    let mut model = digits();
    assert_eq!(
        model.train(&Vec::new(), &Optimizers::SGD, 2, 1).err(),
        Some(TrainError::EmptyDataset)
    );
    assert_eq!(
        model.train(&Vec::new(), &Optimizers::SGD, 0, 1).err(),
        Some(TrainError::EmptyDataset)
    );
}

#[test]
fn train_needs_a_batch_size() {
    let mut model = digits();
    let dataset = vec![Sample(row(784), row(10))];
    assert_eq!(
        model.train(&dataset, &Optimizers::SGD, 0, 1).err(),
        Some(TrainError::ZeroBatchSize)
    );
}

#[test]
fn train_reports_the_first_sample_that_does_not_fit() {
    let mut model = digits();
    let dataset = vec![
        Sample(row(784), row(10)),
        Sample(row(784), row(9)),
        Sample(row(100), row(10)),
    ];
    assert_eq!(
        model.train(&dataset, &Optimizers::SGD, 2, 1).err(),
        Some(TrainError::Sample {
            index: 1,
            error: ShapeError { expected: row(9), actual: row(10) },
        })
    );
}

#[test]
fn train_reports_a_wrong_input() {
    let mut model = digits();
    let dataset = vec![Sample(row(784), row(10)), Sample(Shape::new(28, 28), row(10))];
    assert_eq!(
        model.train(&dataset, &Optimizers::SGD, 128, 1).err(),
        Some(TrainError::Sample {
            index: 1,
            error: ShapeError { expected: Shape::new(28, 784), actual: Shape::new(28, 28) },
        })
    );
}

#[test]
fn backward_shapes_follow_from_the_tensor_operations() {
    let model = digits();
    let steps = Optimizers::SGD.backward(&model);
    for (k, step) in steps.iter().enumerate() {
        assert_eq!(step.layer, model.layers.len() - 1 - k);
        let fed = if step.layer == 0 {
            row(model.input_dim)
        } else {
            row(model.layers[step.layer - 1].get_units())
        };
        let transposed = Shape::new(fed.cols, fed.rows);
        assert_eq!(transposed.dot(&step.delta), Ok(step.weight_gradient));
        assert_eq!(model.weights[step.layer].elementwise(&step.weight_gradient), Ok(model.weights[step.layer]));
        assert_eq!(model.biases[step.layer].elementwise(&step.bias_gradient), Ok(model.biases[step.layer]));
        if k > 0 {
            let above = steps[k - 1];
            let weights_above = model.weights[above.layer];
            let back = Shape::new(weights_above.cols, weights_above.rows);
            assert_eq!(above.delta.dot(&back), Ok(step.delta));
            assert_eq!(step.upstream, Upstream::Layer(above.layer));
        }
    }
}

#[test]
fn add_keeps_a_model_well_formed() {
    let mut model: Sequential<f32> = Sequential::new(3, Cost::MSE);
    for units in [5usize, 1, 0, 8, 8, 2] {
        model.add(dense(units, Activations::Tanh, "xavier"));
        assert!(model.is_wf());
        assert_eq!(model.layers.len(), model.weights.len());
        assert_eq!(model.layers.len(), model.biases.len());
        assert_eq!(model.predict(&row(3)), Ok(row(units)));
    }
}

#[test]
fn a_model_goes_from_empty_to_building_to_trained() {
    let mut model: Sequential<f32> = Sequential::new(4, Cost::MSE);
    assert_eq!(model.state(), ModelState::Empty);
    model.add(dense(3, Activations::ReLU, "he"));
    assert_eq!(model.state(), ModelState::Building);
    model.add(dense(2, Activations::Sigmoid, "xavier"));
    assert_eq!(model.state(), ModelState::Building);
    let dataset = vec![Sample(row(4), row(2))];
    assert!(model.train(&dataset, &Optimizers::SGD, 1, 1).is_ok());
    assert_eq!(model.state(), ModelState::Trained);
    assert!(model.train(&dataset, &Optimizers::SGD, 1, 0).is_ok());
    assert_eq!(model.state(), ModelState::Trained);
    assert!(model.is_wf());
}

#[test]
fn a_refused_run_leaves_the_model_as_it_was() {
    let mut model = digits();
    assert_eq!(
        model.train(&Vec::new(), &Optimizers::SGD, 2, 1).err(),
        Some(TrainError::EmptyDataset)
    );
    assert_eq!(model.state(), ModelState::Building);
    let mut empty: Sequential<f32> = Sequential::new(4, Cost::MSE);
    assert_eq!(
        empty.train(&vec![Sample(row(4), row(2))], &Optimizers::SGD, 1, 1).err(),
        Some(TrainError::NoLayers)
    );
    assert_eq!(empty.state(), ModelState::Empty);
}

#[test]
fn training_changes_no_shape() {
    let mut model = digits();
    let weights = model.weights.clone();
    let biases = model.biases.clone();
    let dataset = vec![Sample(row(784), row(10)); 3];
    assert!(model.train(&dataset, &Optimizers::Momentum { momentum: 0.9 }, 2, 4).is_ok());
    assert_eq!(model.layers.len(), 3);
    assert_eq!(model.weights, weights);
    assert_eq!(model.biases, biases);
    assert_eq!(model.input_dim, 784);
}

#[test]
fn a_trained_model_without_layers_is_not_well_formed() {
    let mut model: Sequential<f32> = Sequential::new(4, Cost::MSE);
    model.trained = true;
    assert!(!model.is_wf());
}
