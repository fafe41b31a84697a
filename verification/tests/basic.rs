use candle_core::Device;
use candle_core::Tensor;
use nnkit::regularizer::Regularizer;

#[test]
fn it_works() {
    let result = nnkit::add(2, 2);
    assert_eq!(result, 4);
}

#[test]
fn test_l1() {
    let x = Tensor::rand(0.0_f32, 1.0_f32, vec![4, 4], &Device::Cpu).unwrap();
    let y = Regularizer::L1(Tensor::try_from(0.1_f32).unwrap()).forward(&x).unwrap();
    let result = y.to_vec0::<f32>().unwrap();
    let l1 = Tensor::try_from(0.1_f32).unwrap();
    let expected = l1
        .mul(&x.abs().unwrap().sum_all().unwrap())
        .unwrap()
        .to_vec0::<f32>()
        .unwrap();

    assert_eq!(result, expected);
}

#[test]
fn test_l2_term() {
    let x = Tensor::new(&[[2.0_f32, -3.0_f32]], &Device::Cpu).unwrap();
    let y = Regularizer::L2(Tensor::try_from(0.5_f32).unwrap()).forward(&x).unwrap();
    // 0.5 * (4 + 9)
    assert_eq!(y.to_vec0::<f32>().unwrap(), 6.5);
}

#[test]
fn test_l1l2_default_coefficients() {
    let x = Tensor::new(&[[2.0_f32, -3.0_f32]], &Device::Cpu).unwrap();
    let c = Tensor::try_from(0.01_f32).unwrap();
    let explicit = Regularizer::L1L2(c.clone(), c.clone()).forward(&x).unwrap();
    let default = Regularizer::L1L2Default.forward(&x).unwrap();
    assert_eq!(
        default.to_vec0::<f32>().unwrap(),
        explicit.to_vec0::<f32>().unwrap()
    );
}

#[test]
fn test_regularizer_rejects_non_scalar_coefficient() {
    let x = Tensor::new(&[1.0_f32, 2.0], &Device::Cpu).unwrap();
    let c = Tensor::new(&[0.1_f32, 0.2], &Device::Cpu).unwrap();
    let r = Regularizer::L1(c).forward(&x);
    match r {
        Err(e) => assert_eq!(e, nnkit::error::ModelError::ForwardFailure),
        Ok(_) => panic!("expected a shape refusal"),
    }
}

#[test]
fn decimal_rendering() {
    assert_eq!(nnkit::names::usize_to_string(0).as_str(), "0");
    assert_eq!(nnkit::names::usize_to_string(7).as_str(), "7");
    assert_eq!(nnkit::names::usize_to_string(120).as_str(), "120");
    assert_eq!(nnkit::names::usize_to_string(98765).as_str(), "98765");
}

#[test]
fn error_messages_are_nonempty() {
    let kinds = vec![
        nnkit::error::ModelError::EmptyArchitecture,
        nnkit::error::ModelError::MissingInputShape,
        nnkit::error::ModelError::LayerAccessAmbiguous,
        nnkit::error::ModelError::LayerIndexOutOfBounds,
        nnkit::error::ModelError::LayerNotFound,
        nnkit::error::ModelError::ParameterNameCollision,
        nnkit::error::ModelError::NonScalarLoss,
        nnkit::error::ModelError::ForwardFailure,
    ];
    for k in kinds {
        assert!(!k.message().is_empty());
    }
    assert_eq!(
        nnkit::error::ModelError::EmptyArchitecture.message(),
        "model architecture must contain at least one layer"
    );
}

#[test]
fn shape_accessors() {
    let s = nnkit::shape::Shape::new(vec![4, 7, 3]);
    assert_eq!(s.rank(), 3);
    assert_eq!(s.dim(1), 7);
    assert_eq!(s.last_dim(), 3);
    assert_eq!(s.dims().as_slice(), &[4, 7, 3]);
    let t = s.clone();
    assert_eq!(t.dims().as_slice(), &[4, 7, 3]);
}
