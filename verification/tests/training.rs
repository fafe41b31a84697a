use candle_core::DType;
use candle_core::Device;
use candle_core::Tensor;
use candle_core::Var;
use candle_nn::Init;
use candle_nn::VarMap;
use nnkit::store::ParameterStore;
use nnkit::error::ModelError;
use nnkit::layers::Activation;
use nnkit::layers::Dense;
use nnkit::layers::Input;
use nnkit::layers::LayerSpec;
use nnkit::models::Sequential;
use nnkit::models::SequentialModel;
use nnkit::optimizer::Optimizers;
use nnkit::shape::ActivationFn;
use nnkit::shape::Dtype;
use nnkit::shape::Initializer;
use nnkit::shape::Loss;
use nnkit::shape::Shape;

fn input_spec(dims: Vec<usize>) -> LayerSpec {
    LayerSpec::Input(Input::new(Shape::new(dims), Dtype::F32))
}

fn zero_dense_model(store: &mut ParameterStore, features: usize, units: usize) -> SequentialModel {
    Sequential::new()
        .add_layer(input_spec(vec![features]))
        .add_layer(LayerSpec::Dense(
            Dense::new(units).kernel_initializer(Initializer::Zero),
        ))
        .compile(
            store,
            &Device::Cpu,
            Loss::MeanSquaredError,
            Optimizers::AdamWDefault,
        )
        .unwrap()
}

#[test]
fn zero_kernel_dense_outputs_zero() {
    let mut store = ParameterStore::new();
    let model = zero_dense_model(&mut store, 3, 2);
    let x = Tensor::new(&[[1.0_f32, -2.0, 3.5]], &Device::Cpu).unwrap();
    let y = model.forward(&x).unwrap();
    assert_eq!(y.to_vec2::<f32>().unwrap(), vec![vec![0.0_f32, 0.0]]);
}

#[test]
fn forward_is_idempotent() {
    let mut store = ParameterStore::new();
    let model = Sequential::new()
        .add_layer(input_spec(vec![3]))
        .add_layer(LayerSpec::Dense(
            Dense::new(4)
                .kernel_initializer(Initializer::KaimingUniform)
                .activation(ActivationFn::Sigmoid),
        ))
        .compile(
            &mut store,
            &Device::Cpu,
            Loss::MeanSquaredError,
            Optimizers::AdamWDefault,
        )
        .unwrap();
    let x = Tensor::new(&[[0.5_f32, -1.0, 2.0]], &Device::Cpu).unwrap();
    let a = model.forward(&x).unwrap().to_vec2::<f32>().unwrap();
    let b = model.forward(&x).unwrap().to_vec2::<f32>().unwrap();
    assert_eq!(a, b);
}

#[test]
fn forward_respects_layer_order() {
    // Dense-then-relu differs from relu-then-dense on a sign-mixed input.
    let x = Tensor::new(&[[-1.0_f32, 1.0]], &Device::Cpu).unwrap();

    let mut store_a = ParameterStore::new();
    store_a
        .handle()
        .get((2, 2), "kernel_1", Init::Const(1.0), DType::F32, &Device::Cpu)
        .unwrap();
    let model_a = Sequential::new()
        .add_layer(input_spec(vec![2]))
        .add_layer(LayerSpec::Dense(Dense::new(2)))
        .add_layer(LayerSpec::Activation(Activation::new(ActivationFn::Relu)))
        .compile(
            &mut store_a,
            &Device::Cpu,
            Loss::MeanSquaredError,
            Optimizers::AdamWDefault,
        )
        .unwrap();

    let mut store_b = ParameterStore::new();
    store_b
        .handle()
        .get((2, 2), "kernel_2", Init::Const(1.0), DType::F32, &Device::Cpu)
        .unwrap();
    let model_b = Sequential::new()
        .add_layer(input_spec(vec![2]))
        .add_layer(LayerSpec::Activation(Activation::new(ActivationFn::Relu)))
        .add_layer(LayerSpec::Dense(Dense::new(2)))
        .compile(
            &mut store_b,
            &Device::Cpu,
            Loss::MeanSquaredError,
            Optimizers::AdamWDefault,
        )
        .unwrap();

    let ya = model_a.forward(&x).unwrap().to_vec2::<f32>().unwrap();
    let yb = model_b.forward(&x).unwrap().to_vec2::<f32>().unwrap();
    assert_eq!(ya, vec![vec![0.0_f32, 0.0]]);
    assert_eq!(yb, vec![vec![1.0_f32, 1.0]]);
    assert_ne!(ya, yb);
}

#[test]
fn forward_refuses_mismatched_input() {
    let mut store = ParameterStore::new();
    let model = zero_dense_model(&mut store, 3, 2);
    let bad = Tensor::new(&[[1.0_f32, 2.0]], &Device::Cpu).unwrap();
    match model.forward(&bad) {
        Err(e) => assert_eq!(e, ModelError::ForwardFailure),
        Ok(_) => panic!("expected a shape refusal"),
    }
}

#[test]
fn fit_zero_epochs_returns_zero_loss_and_mutates_nothing() {
    let mut store = ParameterStore::new();
    let model = Sequential::new()
        .add_layer(input_spec(vec![2]))
        .add_layer(LayerSpec::Dense(
            Dense::new(2).kernel_initializer(Initializer::KaimingUniform),
        ))
        .compile(
            &mut store,
            &Device::Cpu,
            Loss::MeanSquaredError,
            Optimizers::AdamWDefault,
        )
        .unwrap();
    let store_view: VarMap = store.handle();
    let kernel_before = {
        let data = store_view.data().lock().unwrap();
        data.get("kernel_1").unwrap().as_tensor().to_vec2::<f32>().unwrap()
    };
    let x = Tensor::new(&[[1.0_f32, 2.0]], &Device::Cpu).unwrap();
    let y = Tensor::new(&[[1.0_f32, 1.0]], &Device::Cpu).unwrap();
    let out = model.fit(&x, &y, 0).unwrap();
    assert_eq!(out.loss.to_vec0::<f32>().unwrap(), 0.0);
    let kernel_after = {
        let data = store_view.data().lock().unwrap();
        data.get("kernel_1").unwrap().as_tensor().to_vec2::<f32>().unwrap()
    };
    assert_eq!(kernel_before, kernel_after);
}

#[test]
fn fit_scenario_zero_dense_relu_adamw() {
    // Input([1], f32) -> Dense(units = 2, zero kernel) -> Activation(relu),
    // AdamW defaults, x = [1.0], y = [1.0], ten epochs.  The first epoch's
    // squared-error sum over the two broadcast targets is exactly 2, and
    // training only improves it, so the accumulated loss is finite,
    // positive and at most 20.
    let mut store = ParameterStore::new();
    let model = Sequential::new()
        .add_layer(input_spec(vec![1]))
        .add_layer(LayerSpec::Dense(
            Dense::new(2).kernel_initializer(Initializer::Zero),
        ))
        .add_layer(LayerSpec::Activation(Activation::new(ActivationFn::Relu)))
        .compile(
            &mut store,
            &Device::Cpu,
            Loss::MeanSquaredError,
            Optimizers::AdamWDefault,
        )
        .unwrap();
    let x = Tensor::new(&[[1.0_f32]], &Device::Cpu).unwrap();
    let y = Tensor::new(&[[1.0_f32]], &Device::Cpu).unwrap();
    let out = model.fit(&x, &y, 10).unwrap();
    let loss = out.loss.to_vec0::<f32>().unwrap();
    assert!(loss.is_finite());
    assert!(loss >= 0.0);
    // Each epoch's loss is at most the first epoch's value of 2, and the
    // optimizer only improves it, so ten epochs accumulate at most 20.
    assert!(loss <= 20.0);
    assert!(loss > 0.0);
}

#[test]
fn fit_sgd_reduces_loss() {
    // A zero kernel and gradient descent: the kernel moves toward the
    // target, so ten epochs accumulate strictly less loss than ten
    // stationary epochs would.
    let mut store = ParameterStore::new();
    let lr = Tensor::new(0.1_f64, &Device::Cpu).unwrap();
    let model = Sequential::new()
        .add_layer(input_spec(vec![1]))
        .add_layer(LayerSpec::Dense(
            Dense::new(1).kernel_initializer(Initializer::Zero),
        ))
        .compile(
            &mut store,
            &Device::Cpu,
            Loss::MeanSquaredError,
            Optimizers::Sgd(lr),
        )
        .unwrap();
    let x = Tensor::new(&[[1.0_f32]], &Device::Cpu).unwrap();
    let y = Tensor::new(&[[1.0_f32]], &Device::Cpu).unwrap();
    let out = model.fit(&x, &y, 10).unwrap();
    let loss = out.loss.to_vec0::<f32>().unwrap();
    assert!(loss.is_finite());
    assert!(loss > 0.0);
    assert!(loss < 10.0);
}

#[test]
fn adamw_with_explicit_parameters_trains() {
    let mut store = ParameterStore::new();
    let params = candle_nn::ParamsAdamW {
        lr: 0.05,
        ..candle_nn::ParamsAdamW::default()
    };
    let model = Sequential::new()
        .add_layer(input_spec(vec![1]))
        .add_layer(LayerSpec::Dense(
            Dense::new(1).kernel_initializer(Initializer::Zero),
        ))
        .compile(
            &mut store,
            &Device::Cpu,
            Loss::MeanSquaredError,
            Optimizers::AdamW(params),
        )
        .unwrap();
    let x = Tensor::new(&[[1.0_f32]], &Device::Cpu).unwrap();
    let y = Tensor::new(&[[1.0_f32]], &Device::Cpu).unwrap();
    let out = model.fit(&x, &y, 5).unwrap();
    let loss = out.loss.to_vec0::<f32>().unwrap();
    assert!(loss.is_finite());
    assert!(loss > 0.0);
    assert!(loss < 5.0);
    // The model still exposes a buildable optimizer afterwards.
    assert!(model.optimizer().is_ok());
}

#[test]
fn optimizer_ignores_parameters_added_after_build() {
    // Bind only v1, then take a gradient that names both v1 and v2: the
    // step must update v1 and leave v2 untouched.
    let v1 = Var::new(&[2.0_f32], &Device::Cpu).unwrap();
    let v2 = Var::new(&[3.0_f32], &Device::Cpu).unwrap();
    let lr = Tensor::new(0.5_f64, &Device::Cpu).unwrap();
    let mut opt = Optimizers::Sgd(lr).build(vec![v1.clone()]).unwrap();

    let loss = v1
        .as_tensor()
        .mul(v2.as_tensor())
        .unwrap()
        .sum_all()
        .unwrap();
    let grads = loss.backward().unwrap();
    opt.step(&grads).unwrap();

    // v1 <- 2.0 - 0.5 * 3.0; v2 stays.
    assert_eq!(v1.as_tensor().to_vec1::<f32>().unwrap(), vec![0.5_f32]);
    assert_eq!(v2.as_tensor().to_vec1::<f32>().unwrap(), vec![3.0_f32]);
}

#[test]
fn backward_step_refuses_non_scalar_loss() {
    let v1 = Var::new(&[2.0_f32], &Device::Cpu).unwrap();
    let lr = Tensor::new(0.5_f64, &Device::Cpu).unwrap();
    let mut opt = Optimizers::Sgd(lr).build(vec![v1.clone()]).unwrap();
    let not_scalar = Tensor::new(&[1.0_f32, 2.0], &Device::Cpu).unwrap();
    match opt.backward_step(&not_scalar) {
        Err(e) => assert_eq!(e, ModelError::NonScalarLoss),
        Ok(_) => panic!("expected a non-scalar refusal"),
    }
}

#[test]
fn sgd_refuses_non_scalar_learning_rate() {
    let v1 = Var::new(&[2.0_f32], &Device::Cpu).unwrap();
    let lr = Tensor::new(&[0.5_f64, 0.1], &Device::Cpu).unwrap();
    match Optimizers::Sgd(lr).build(vec![v1.clone()]) {
        Err(e) => assert_eq!(e, ModelError::NonScalarLoss),
        Ok(_) => panic!("expected a non-scalar learning-rate refusal"),
    }
}

#[test]
fn dense_bias_materialized_only_with_initializer() {
    // With a bias initializer the store holds kernel and bias; the biased
    // layer with One-initialized bias shifts every output by one.
    let mut store = ParameterStore::new();
    let model = Sequential::new()
        .add_layer(input_spec(vec![2]))
        .add_layer(LayerSpec::Dense(
            Dense::new(2)
                .kernel_initializer(Initializer::Zero)
                .bias_initializer(Initializer::One),
        ))
        .compile(
            &mut store,
            &Device::Cpu,
            Loss::MeanSquaredError,
            Optimizers::AdamWDefault,
        )
        .unwrap();
    assert_eq!(store.handle().all_vars().len(), 2);
    let x = Tensor::new(&[[5.0_f32, -4.0]], &Device::Cpu).unwrap();
    let y = model.forward(&x).unwrap();
    assert_eq!(y.to_vec2::<f32>().unwrap(), vec![vec![1.0_f32, 1.0]]);

    // use_bias alone, without an initializer, materializes no bias tensor.
    let mut store2 = ParameterStore::new();
    Sequential::new()
        .add_layer(input_spec(vec![2]))
        .add_layer(LayerSpec::Dense(
            Dense::new(2).use_bias(true).kernel_initializer(Initializer::Zero),
        ))
        .compile(
            &mut store2,
            &Device::Cpu,
            Loss::MeanSquaredError,
            Optimizers::AdamWDefault,
        )
        .unwrap();
    assert_eq!(store2.handle().all_vars().len(), 1);
}

#[test]
fn model_shares_store_with_caller() {
    let mut store = ParameterStore::new();
    let model = zero_dense_model(&mut store, 2, 2);
    assert_eq!(store.handle().all_vars().len(), 1);
    assert_eq!(model.variables().all_vars().len(), 1);
}
