use candle_core::Device;
use nnkit::store::ParameterStore;
use nnkit::error::ModelError;
use nnkit::layers::Activation;
use nnkit::layers::Dense;
use nnkit::layers::Input;
use nnkit::layers::LayerBuilder;
use nnkit::layers::LayerSpec;
use nnkit::models::Sequential;
use nnkit::optimizer::Optimizers;
use nnkit::shape::ActivationFn;
use nnkit::shape::Dtype;
use nnkit::shape::Initializer;
use nnkit::shape::Loss;
use nnkit::shape::Shape;

fn input_spec(dims: Vec<usize>) -> LayerSpec {
    LayerSpec::Input(Input::new(Shape::new(dims), Dtype::F32))
}

#[test]
fn compile_counts_layers() {
    let mut store = ParameterStore::new();
    let model = Sequential::new()
        .add_layer(input_spec(vec![2]))
        .add_layer(LayerSpec::Dense(Dense::new(3)))
        .add_layer(LayerSpec::Activation(Activation::new(ActivationFn::Relu)))
        .compile(
            &mut store,
            &Device::Cpu,
            Loss::MeanSquaredError,
            Optimizers::AdamWDefault,
        )
        .unwrap();
    assert_eq!(model.layers().len(), 3);
    assert_eq!(model.loss(), Loss::MeanSquaredError);
}

#[test]
fn compile_empty_architecture() {
    let mut store = ParameterStore::new();
    let r = Sequential::new().compile(
        &mut store,
        &Device::Cpu,
        Loss::MeanSquaredError,
        Optimizers::AdamWDefault,
    );
    match r {
        Err(e) => assert_eq!(e, ModelError::EmptyArchitecture),
        Ok(_) => panic!("expected an empty-architecture refusal"),
    }
}

#[test]
fn compile_missing_input_shape() {
    let mut store = ParameterStore::new();
    let r = Sequential::new()
        .add_layer(LayerSpec::Dense(Dense::new(3)))
        .add_layer(LayerSpec::Activation(Activation::new(ActivationFn::Relu)))
        .compile(
            &mut store,
            &Device::Cpu,
            Loss::MeanSquaredError,
            Optimizers::AdamWDefault,
        );
    match r {
        Err(e) => assert_eq!(e, ModelError::MissingInputShape),
        Ok(_) => panic!("expected a missing-input-shape refusal"),
    }
}

#[test]
fn compile_input_not_first_still_resolves() {
    let mut store = ParameterStore::new();
    let model = Sequential::new()
        .add_layer(LayerSpec::Activation(Activation::new(ActivationFn::Relu)))
        .add_layer(input_spec(vec![5]))
        .add_layer(LayerSpec::Dense(Dense::new(2)))
        .compile(
            &mut store,
            &Device::Cpu,
            Loss::MeanSquaredError,
            Optimizers::AdamWDefault,
        )
        .unwrap();
    assert_eq!(model.layers().len(), 3);
}

#[test]
fn compile_parameter_name_collision() {
    let mut store = ParameterStore::new();
    // First model registers kernel_1 with shape [2, 3].
    Sequential::new()
        .add_layer(input_spec(vec![2]))
        .add_layer(LayerSpec::Dense(Dense::new(3)))
        .compile(
            &mut store,
            &Device::Cpu,
            Loss::MeanSquaredError,
            Optimizers::AdamWDefault,
        )
        .unwrap();
    // A second model over the same store wants kernel_1 with shape [2, 4].
    let r = Sequential::new()
        .add_layer(input_spec(vec![2]))
        .add_layer(LayerSpec::Dense(Dense::new(4)))
        .compile(
            &mut store,
            &Device::Cpu,
            Loss::MeanSquaredError,
            Optimizers::AdamWDefault,
        );
    match r {
        Err(e) => assert_eq!(e, ModelError::ParameterNameCollision),
        Ok(_) => panic!("expected a parameter-name collision"),
    }
}

#[test]
fn compile_same_shape_reuses_parameters() {
    let mut store = ParameterStore::new();
    // Two identical architectures over one store share the same kernel.
    for _ in 0..2 {
        Sequential::new()
            .add_layer(input_spec(vec![2]))
            .add_layer(LayerSpec::Dense(Dense::new(3)))
            .compile(
                &mut store,
                &Device::Cpu,
                Loss::MeanSquaredError,
                Optimizers::AdamWDefault,
            )
            .unwrap();
    }
    assert_eq!(store.handle().all_vars().len(), 1);
}

#[test]
fn get_layer_lookup() {
    let mut store = ParameterStore::new();
    let model = Sequential::new()
        .add_layer(input_spec(vec![2]))
        .add_layer(LayerSpec::Dense(Dense::new(3)))
        .add_layer(LayerSpec::Activation(Activation::new(ActivationFn::Relu)))
        .compile(
            &mut store,
            &Device::Cpu,
            Loss::MeanSquaredError,
            Optimizers::AdamWDefault,
        )
        .unwrap();

    assert_eq!(model.get_layer(None, Some(1)).unwrap().name(), "dense_1");
    assert_eq!(model.get_layer(Some("input_0"), None).unwrap().name(), "input_0");
    assert_eq!(
        model.get_layer(Some("activation_2"), None).unwrap().name(),
        "activation_2"
    );
    match model.get_layer(Some("dense_1"), Some(1)) {
        Err(e) => assert_eq!(e, ModelError::LayerAccessAmbiguous),
        Ok(_) => panic!("expected an ambiguous lookup refusal"),
    }
    match model.get_layer(None, None) {
        Err(e) => assert_eq!(e, ModelError::LayerAccessAmbiguous),
        Ok(_) => panic!("expected an ambiguous lookup refusal"),
    }
    match model.get_layer(None, Some(3)) {
        Err(e) => assert_eq!(e, ModelError::LayerIndexOutOfBounds),
        Ok(_) => panic!("expected an index refusal"),
    }
    match model.get_layer(Some("dense_7"), None) {
        Err(e) => assert_eq!(e, ModelError::LayerNotFound),
        Ok(_) => panic!("expected a name refusal"),
    }
}

#[test]
fn compile_zero_units_default_initializer_fails() {
    // The fan-in-aware default initializer has a zero fan for a
    // zero-unit dense layer and refuses its bounds even on the CPU.
    let mut store = ParameterStore::new();
    let r = Sequential::new()
        .add_layer(input_spec(vec![2]))
        .add_layer(LayerSpec::Dense(Dense::new(0)))
        .compile(
            &mut store,
            &Device::Cpu,
            Loss::MeanSquaredError,
            Optimizers::AdamWDefault,
        );
    match r {
        Err(e) => assert_eq!(e, ModelError::ParameterNameCollision),
        Ok(_) => panic!("expected an initializer refusal"),
    }
}

#[test]
fn compile_zero_units_zero_initializer_succeeds() {
    let mut store = ParameterStore::new();
    let model = Sequential::new()
        .add_layer(input_spec(vec![2]))
        .add_layer(LayerSpec::Dense(
            Dense::new(0).kernel_initializer(Initializer::Zero),
        ))
        .compile(
            &mut store,
            &Device::Cpu,
            Loss::MeanSquaredError,
            Optimizers::AdamWDefault,
        )
        .unwrap();
    assert_eq!(model.layers().len(), 2);
}

#[test]
fn layer_trait_exposes_name_and_forward() {
    let mut store = ParameterStore::new();
    let model = Sequential::new()
        .add_layer(input_spec(vec![2]))
        .add_layer(LayerSpec::Dense(
            Dense::new(2).kernel_initializer(Initializer::Zero),
        ))
        .compile(
            &mut store,
            &Device::Cpu,
            Loss::MeanSquaredError,
            Optimizers::AdamWDefault,
        )
        .unwrap();
    let first = model.get_layer(None, Some(0)).unwrap();
    assert_eq!(nnkit::layers::Layer::name(first), "input_0");
    let x = candle_core::Tensor::new(&[[1.0_f32, 2.0]], &Device::Cpu).unwrap();
    let y = nnkit::layers::Layer::forward(first, &x).unwrap();
    assert_eq!(y.to_vec2::<f32>().unwrap(), vec![vec![1.0_f32, 2.0]]);
}

#[test]
fn builders_set_fields() {
    let d = Dense::new(4)
        .activation(ActivationFn::Sigmoid)
        .use_bias(false)
        .kernel_initializer(Initializer::KaimingUniform)
        .bias_initializer(Initializer::Zero);
    assert_eq!(d.units, 4);
    assert_eq!(d.activation, Some(ActivationFn::Sigmoid));
    assert!(!d.use_bias);
    assert_eq!(d.kernel_initializer, Some(Initializer::KaimingUniform));
    assert_eq!(d.bias_initializer, Some(Initializer::Zero));

    let fresh = Dense::new(4);
    assert!(fresh.use_bias);
    assert_eq!(fresh.activation, None);
    assert_eq!(fresh.kernel_initializer, None);
    assert_eq!(fresh.bias_initializer, None);

    let mut i = Input::new(Shape::new(vec![3]), Dtype::F32).batch_size(16);
    assert_eq!(i.batch_size, Some(16));
    let built = i.build();
    assert_eq!(built.batch_size, Some(16));
    assert_eq!(built.shape.dims().as_slice(), &[3]);

    let mut a = Activation::new(ActivationFn::Gelu);
    assert_eq!(a.build().activation, ActivationFn::Gelu);
}
