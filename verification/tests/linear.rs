use candle_core::{DType, Device, Tensor};
use projection::activation::HiddenAct;
use projection::linear::Linear;
use projection::BackendError;

fn ones_weight_3x2() -> Tensor {
    Tensor::new(&[[1f32, 1.], [1., 1.], [1., 1.]], &Device::Cpu).unwrap()
}

#[test]
fn rank3_with_bias_concrete() {
    // weight [3,2] of ones, bias [1,1,1], no activation, input [1,2,2]
    let weight = ones_weight_3x2();
    let bias = Tensor::new(&[1f32, 1., 1.], &Device::Cpu).unwrap();
    let layer = Linear::new(weight, Some(bias), None);
    let x = Tensor::new(&[[[1f32, 2.], [3., 4.]]], &Device::Cpu).unwrap();
    let out = match layer.forward(&x) {
        Ok(t) => t,
        Err(_) => panic!("forward failed"),
    };
    assert_eq!(out.dims(), &[1, 2, 3]);
    let v = out.to_vec3::<f32>().unwrap();
    assert_eq!(v, vec![vec![vec![4f32, 4., 4.], vec![8., 8., 8.]]]);
}

#[test]
fn rank2_with_bias_concrete() {
    let weight = ones_weight_3x2();
    let bias = Tensor::new(&[1f32, 1., 1.], &Device::Cpu).unwrap();
    let layer = Linear::new(weight, Some(bias), None);
    let x = Tensor::new(&[[1f32, 2.], [3., 4.]], &Device::Cpu).unwrap();
    let out = match layer.forward(&x) {
        Ok(t) => t,
        Err(_) => panic!("forward failed"),
    };
    assert_eq!(out.dims(), &[2, 3]);
    let v = out.to_vec2::<f32>().unwrap();
    assert_eq!(v, vec![vec![4f32, 4., 4.], vec![8., 8., 8.]]);
}

#[test]
fn no_bias_is_activation_of_matmul() {
    // rows of the weight: [1,1] and [-1,1]; relu clamps the negatives
    let weight = Tensor::new(&[[1f32, 1.], [-1., 1.]], &Device::Cpu).unwrap();
    let layer = Linear::new(weight, None, Some(HiddenAct::Relu));
    let x = Tensor::new(&[[1f32, 2.], [-1., -2.]], &Device::Cpu).unwrap();
    let out = match layer.forward(&x) {
        Ok(t) => t,
        Err(_) => panic!("forward failed"),
    };
    let v = out.to_vec2::<f32>().unwrap();
    // [1,2]:  dot [1,1] = 3, dot [-1,1] = 1;  [-1,-2]: -3 and -1, clamped to 0
    assert_eq!(v, vec![vec![3f32, 1.], vec![0., 0.]]);
}

#[test]
fn scalar_bias_broadcasts() {
    let weight = ones_weight_3x2();
    let bias = Tensor::new(&[5f32], &Device::Cpu).unwrap();
    let layer = Linear::new(weight, Some(bias), None);
    let x = Tensor::new(&[[1f32, 2.]], &Device::Cpu).unwrap();
    let out = match layer.forward(&x) {
        Ok(t) => t,
        Err(_) => panic!("forward failed"),
    };
    let v = out.to_vec2::<f32>().unwrap();
    assert_eq!(v, vec![vec![8f32, 8., 8.]]);
}

#[test]
fn inner_dim_mismatch_is_shape_mismatch() {
    // weight [3,4] against input trailing dimension 5
    let weight = Tensor::zeros((3, 4), DType::F32, &Device::Cpu).unwrap();
    let layer = Linear::new(weight, None, None);
    let x = Tensor::zeros((2, 5), DType::F32, &Device::Cpu).unwrap();
    let r = layer.forward(&x);
    assert!(matches!(r, Err(BackendError::ShapeMismatch)));
}

#[test]
fn incompatible_bias_is_shape_mismatch() {
    let weight = ones_weight_3x2();
    let bias = Tensor::zeros(4, DType::F32, &Device::Cpu).unwrap();
    let layer = Linear::new(weight, Some(bias), None);
    let x = Tensor::new(&[[1f32, 2.]], &Device::Cpu).unwrap();
    let r = layer.forward(&x);
    assert!(matches!(r, Err(BackendError::ShapeMismatch)));
}

#[test]
fn odd_trailing_swiglu_is_shape_mismatch() {
    // out_features 3 is odd, so swiglu cannot split it
    let weight = ones_weight_3x2();
    let layer = Linear::new(weight, None, Some(HiddenAct::Swiglu));
    let x = Tensor::new(&[[1f32, 2.]], &Device::Cpu).unwrap();
    let r = layer.forward(&x);
    assert!(matches!(r, Err(BackendError::ShapeMismatch)));
}

#[test]
fn mismatched_element_types_are_device_error() {
    // shapes agree, but the compute call rejects f32 weight against f64 input
    let weight = Tensor::zeros((3, 2), DType::F32, &Device::Cpu).unwrap();
    let layer = Linear::new(weight, None, None);
    let x = Tensor::zeros((2, 2), DType::F64, &Device::Cpu).unwrap();
    let r = layer.forward(&x);
    assert!(matches!(r, Err(BackendError::Device)));
}

#[test]
fn forward_is_deterministic_across_calls() {
    let weight = Tensor::new(&[[0.25f32, -1.5], [3.75, 0.125], [-2.0, 0.5]], &Device::Cpu).unwrap();
    let bias = Tensor::new(&[0.1f32, -0.2, 0.3], &Device::Cpu).unwrap();
    let layer = Linear::new(weight, Some(bias), Some(HiddenAct::Gelu));
    let x = Tensor::new(&[[[0.3f32, -0.7], [1.9, 2.2]]], &Device::Cpu).unwrap();
    let a = match layer.forward(&x) {
        Ok(t) => t,
        Err(_) => panic!("forward failed"),
    };
    let b = match layer.forward(&x) {
        Ok(t) => t,
        Err(_) => panic!("forward failed"),
    };
    assert_eq!(
        a.to_vec3::<f32>().unwrap(),
        b.to_vec3::<f32>().unwrap()
    );
}

#[test]
fn swiglu_halves_trailing_dimension() {
    // weight [4,2] of ones, rank-3 input [1,2,2]: product is [1,2,4],
    // swiglu gates down to [1,2,2]
    let weight = Tensor::new(&[[1f32, 1.], [1., 1.], [1., 1.], [1., 1.]], &Device::Cpu).unwrap();
    let layer = Linear::new(weight, None, Some(HiddenAct::Swiglu));
    let x = Tensor::new(&[[[1f32, 2.], [3., 4.]]], &Device::Cpu).unwrap();
    let out = match layer.forward(&x) {
        Ok(t) => t,
        Err(_) => panic!("forward failed"),
    };
    assert_eq!(out.dims(), &[1, 2, 2]);
    let v = out.to_vec3::<f32>().unwrap();
    // row [1,2] -> product row [3,3,3,3] -> silu(3)*3; row [3,4] -> [7,...] -> silu(7)*7
    let expect_a = 3.0f32 / (1.0 + (-3.0f32).exp()) * 3.0;
    let expect_b = 7.0f32 / (1.0 + (-7.0f32).exp()) * 7.0;
    for (got, want) in v[0][0].iter().zip([expect_a, expect_a]) {
        assert!((got - want).abs() < 1e-4);
    }
    for (got, want) in v[0][1].iter().zip([expect_b, expect_b]) {
        assert!((got - want).abs() < 1e-4);
    }
}
