use candle_core::{Device, Tensor};
use projection::activation::HiddenAct;

fn apply(act: HiddenAct, xs: &[f32]) -> Vec<f32> {
    let x = Tensor::new(xs, &Device::Cpu).unwrap();
    let out = match act.forward(&x) {
        Ok(t) => t,
        Err(_) => panic!("activation failed"),
    };
    out.to_vec1::<f32>().unwrap()
}

fn close(a: &[f32], b: &[f32]) -> bool {
    a.len() == b.len() && a.iter().zip(b).all(|(x, y)| (x - y).abs() < 1e-4)
}

#[test]
fn relu_clamps_negatives() {
    let got = apply(HiddenAct::Relu, &[-2.0, -0.5, 0.0, 0.5, 2.0]);
    assert_eq!(got, vec![0.0f32, 0.0, 0.0, 0.5, 2.0]);
}

#[test]
fn gelu_matches_tanh_approximation() {
    let xs = [-1.0f32, 0.0, 1.0, 2.0];
    let want: Vec<f32> = xs
        .iter()
        .map(|&v| {
            0.5 * v
                * (1.0
                    + ((2.0f32 / std::f32::consts::PI).sqrt() * v * (1.0 + 0.044715 * v * v))
                        .tanh())
        })
        .collect();
    let got = apply(HiddenAct::Gelu, &xs);
    assert!(close(&got, &want));
}

#[test]
fn silu_matches_logistic_gate() {
    let xs = [-1.0f32, 0.0, 1.0, 3.0];
    let want: Vec<f32> = xs.iter().map(|&v| v / (1.0 + (-v).exp())).collect();
    let got = apply(HiddenAct::Silu, &xs);
    assert!(close(&got, &want));
}

#[test]
fn swiglu_gates_second_half_and_halves_shape() {
    // [1, 3] splits into [1] and [3]: silu(1) * 3
    let got = apply(HiddenAct::Swiglu, &[1.0, 3.0]);
    let want = [1.0f32 / (1.0 + (-1.0f32).exp()) * 3.0];
    assert_eq!(got.len(), 1);
    assert!(close(&got, &want));
}

#[test]
fn swiglu_halves_rank3_shape() {
    let x = Tensor::zeros((2, 3, 8), candle_core::DType::F32, &Device::Cpu).unwrap();
    let out = match HiddenAct::Swiglu.forward(&x) {
        Ok(t) => t,
        Err(_) => panic!("activation failed"),
    };
    assert_eq!(out.dims(), &[2, 3, 4]);
}

#[test]
fn activations_preserve_shape_except_swiglu() {
    let x = Tensor::zeros((2, 5), candle_core::DType::F32, &Device::Cpu).unwrap();
    for act in [HiddenAct::Gelu, HiddenAct::Relu, HiddenAct::Silu] {
        let out = match act.forward(&x) {
            Ok(t) => t,
            Err(_) => panic!("activation failed"),
        };
        assert_eq!(out.dims(), &[2, 5]);
    }
}
