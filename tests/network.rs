use neural_network::{Layer, LayerTopology, NetworkError, NeuralNetwork, Neuron, ONE};
use rand::rngs::StdRng;
use rand::SeedableRng;

/// The fixed-point number nearest to `x`.
fn q(x: f32) -> i32 {
    (x * ONE as f32).round() as i32
}

fn topology(widths: &[usize]) -> Vec<LayerTopology> {
    widths.iter().map(|&n| LayerTopology { neurons: n }).collect()
}

fn single_neuron_network(bias: f32, weights: &[f32]) -> NeuralNetwork {
    let neuron = Neuron::new(q(bias), weights.iter().map(|&w| q(w)).collect());
    let layer = Layer::from_neurons(weights.len(), vec![neuron]).unwrap();
    NeuralNetwork::from_layers(vec![layer]).unwrap()
}

#[test]
fn scenario_a_activation_zero() {
    let net = single_neuron_network(0.0, &[0.5, -0.5]);
    assert_eq!(net.propogate(vec![q(2.0), q(2.0)]), Ok(vec![q(0.0)]));
}

#[test]
fn scenario_b_positive_passes_through() {
    let net = single_neuron_network(-1.0, &[1.0, 1.0]);
    assert_eq!(net.propogate(vec![q(1.0), q(1.0)]), Ok(vec![q(1.0)]));
}

#[test]
fn scenario_c_negative_is_clamped() {
    let net = single_neuron_network(-5.0, &[1.0, 1.0]);
    assert_eq!(net.propogate(vec![q(1.0), q(1.0)]), Ok(vec![q(0.0)]));
}

#[test]
fn scenario_d_two_layers() {
    let first = Layer::from_neurons(1, vec![Neuron::new(q(0.0), vec![q(2.0)])]).unwrap();
    assert_eq!(first.propogate(&vec![q(3.0)]), Ok(vec![q(6.0)]));
    let second = Layer::from_neurons(1, vec![Neuron::new(q(0.0), vec![q(1.0)])]).unwrap();
    let net = NeuralNetwork::from_layers(vec![first, second]).unwrap();
    assert_eq!(net.propogate(vec![q(3.0)]), Ok(vec![q(6.0)]));
}

#[test]
fn output_has_last_width() {
    let mut rng = StdRng::seed_from_u64(1);
    let net = NeuralNetwork::init(topology(&[3, 5, 4, 2]), &mut rng).unwrap();
    assert_eq!(net.layers().len(), 3);
    let out = net.propogate(vec![q(0.5), q(-1.0), q(2.0)]).unwrap();
    assert_eq!(out.len(), 2);
}

#[test]
fn init_shapes_layers_by_topology() {
    let mut rng = StdRng::seed_from_u64(2);
    let net = NeuralNetwork::init(topology(&[4, 3, 6]), &mut rng).unwrap();
    let layers = net.layers();
    assert_eq!(layers[0].input_width(), 4);
    assert_eq!(layers[0].neurons().len(), 3);
    assert_eq!(layers[1].input_width(), 3);
    assert_eq!(layers[1].neurons().len(), 6);
    for neuron in layers[1].neurons() {
        assert_eq!(neuron.weights().len(), 3);
    }
}

#[test]
fn random_parameters_lie_in_unit_range_and_vary() {
    let mut rng = StdRng::seed_from_u64(3);
    let net = NeuralNetwork::init(topology(&[8, 8]), &mut rng).unwrap();
    let mut seen = Vec::new();
    for neuron in net.layers()[0].neurons() {
        seen.push(neuron.bias());
        seen.extend(neuron.weights().iter().copied());
    }
    assert_eq!(seen.len(), 8 * 9);
    assert!(seen.iter().all(|&v| -ONE <= v && v <= ONE));
    assert!(seen.iter().any(|&v| v != seen[0]));
    assert!(seen.iter().any(|&v| v != -ONE && v != ONE));
}

#[test]
fn outputs_are_never_negative() {
    let mut rng = StdRng::seed_from_u64(4);
    let net = NeuralNetwork::init(topology(&[3, 16, 16]), &mut rng).unwrap();
    for input in [[1.0, 2.0, 3.0], [-1.0, -2.0, -3.0], [0.25, -7.5, 4.0]] {
        let out = net.propogate(input.iter().map(|&x| q(x)).collect()).unwrap();
        assert_eq!(out.len(), 16);
        assert!(out.iter().all(|&v| v >= 0));
    }
    for neuron in net.layers()[0].neurons() {
        assert!(neuron.propogate(&vec![q(-3.0), q(1.0), q(9.0)]).unwrap() >= 0);
    }
}

#[test]
fn zero_parameters_give_zero_output() {
    let first = Layer::from_neurons(
        2,
        vec![Neuron::new(0, vec![0, 0]), Neuron::new(0, vec![0, 0]), Neuron::new(0, vec![0, 0])],
    )
    .unwrap();
    let second = Layer::from_neurons(3, vec![Neuron::new(0, vec![0, 0, 0]), Neuron::new(0, vec![0, 0, 0])])
        .unwrap();
    let net = NeuralNetwork::from_layers(vec![first, second]).unwrap();
    assert_eq!(net.propogate(vec![q(5.0), q(-3.0)]), Ok(vec![0, 0]));
    assert_eq!(net.propogate(vec![i32::MAX, i32::MIN]), Ok(vec![0, 0]));
}

#[test]
fn repeated_propagation_is_identical() {
    let mut rng = StdRng::seed_from_u64(5);
    let net = NeuralNetwork::init(topology(&[2, 7, 3]), &mut rng).unwrap();
    let input = vec![q(0.75), q(-1.25)];
    let first = net.propogate(input.clone());
    let second = net.propogate(input);
    assert!(first.is_ok());
    assert_eq!(first, second);
}

#[test]
fn same_seed_builds_same_network() {
    let a = NeuralNetwork::init(topology(&[3, 4, 2]), &mut StdRng::seed_from_u64(6)).unwrap();
    let b = NeuralNetwork::init(topology(&[3, 4, 2]), &mut StdRng::seed_from_u64(6)).unwrap();
    let input = vec![q(1.0), q(-0.5), q(0.125)];
    assert_eq!(a.propogate(input.clone()), b.propogate(input));
}

#[test]
fn short_topology_is_invalid() {
    let mut rng = StdRng::seed_from_u64(7);
    assert!(matches!(
        NeuralNetwork::init(topology(&[]), &mut rng),
        Err(NetworkError::InvalidTopology)
    ));
    assert!(matches!(
        NeuralNetwork::init(topology(&[3]), &mut rng),
        Err(NetworkError::InvalidTopology)
    ));
}

#[test]
fn wrong_input_width_is_a_mismatch() {
    let mut rng = StdRng::seed_from_u64(8);
    let net = NeuralNetwork::init(topology(&[3, 2]), &mut rng).unwrap();
    assert_eq!(net.propogate(vec![q(1.0), q(2.0)]), Err(NetworkError::DimensionMismatch));
    assert_eq!(net.propogate(vec![0; 4]), Err(NetworkError::DimensionMismatch));
    assert_eq!(net.propogate(Vec::new()), Err(NetworkError::DimensionMismatch));
}

#[test]
fn neuron_rejects_wrong_input_width() {
    let neuron = Neuron::new(q(0.5), vec![q(1.0), q(1.0)]);
    assert_eq!(neuron.propogate(&vec![q(1.0)]), Err(NetworkError::DimensionMismatch));
    assert_eq!(neuron.propogate(&vec![q(1.0), q(1.0)]), Ok(q(2.5)));
}

#[test]
fn layer_rejects_mismatched_neurons_and_inputs() {
    let bad = Layer::from_neurons(2, vec![Neuron::new(0, vec![1, 2]), Neuron::new(0, vec![1])]);
    assert!(matches!(bad, Err(NetworkError::DimensionMismatch)));
    let layer = Layer::from_neurons(2, vec![Neuron::new(q(1.0), vec![q(1.0), q(-1.0)])]).unwrap();
    assert_eq!(layer.propogate(&vec![q(1.0)]), Err(NetworkError::DimensionMismatch));
    assert_eq!(layer.propogate(&vec![q(4.0), q(1.5)]), Ok(vec![q(3.5)]));
}

#[test]
fn empty_layer_keeps_its_input_width() {
    let empty = Layer::from_neurons(3, Vec::new()).unwrap();
    assert_eq!(empty.propogate(&vec![1, 2, 3]), Ok(Vec::new()));
    assert_eq!(empty.propogate(&vec![1, 2]), Err(NetworkError::DimensionMismatch));
}

#[test]
fn network_rejects_no_layers_and_misfit_layers() {
    assert!(matches!(NeuralNetwork::from_layers(Vec::new()), Err(NetworkError::InvalidTopology)));
    let first = Layer::from_neurons(1, vec![Neuron::new(0, vec![ONE])]).unwrap();
    let second = Layer::from_neurons(2, vec![Neuron::new(0, vec![ONE, ONE])]).unwrap();
    assert!(matches!(
        NeuralNetwork::from_layers(vec![first, second]),
        Err(NetworkError::DimensionMismatch)
    ));
}

#[test]
fn fractions_multiply_exactly() {
    let net = single_neuron_network(0.125, &[0.5, 0.25, -0.75]);
    // 0.5 * 3 + 0.25 * -2 - 0.75 * 1 + 0.125 = 0.375
    assert_eq!(net.propogate(vec![q(3.0), q(-2.0), q(1.0)]), Ok(vec![q(0.375)]));
}

#[test]
fn rescaling_rounds_down() {
    // (1 / ONE) * (3 / ONE) is 3 / ONE^2, which lies below the smallest step.
    let neuron = Neuron::new(0, vec![1]);
    assert_eq!(neuron.propogate(&vec![3]), Ok(0));
    // 1.5 * (1 + 1 / ONE) = 1.5 + 1.5 / ONE, rounded down to 1.5 + 1 / ONE.
    let neuron = Neuron::new(0, vec![q(1.5)]);
    assert_eq!(neuron.propogate(&vec![ONE + 1]), Ok(q(1.5) + 1));
}

#[test]
fn large_activation_saturates() {
    let neuron = Neuron::new(i32::MAX, vec![i32::MAX, i32::MAX]);
    assert_eq!(neuron.propogate(&vec![i32::MAX, i32::MAX]), Ok(i32::MAX));
    let neuron = Neuron::new(i32::MIN, vec![i32::MIN, i32::MIN]);
    assert_eq!(neuron.propogate(&vec![i32::MAX, i32::MAX]), Ok(0));
    assert_eq!(neuron.propogate(&vec![i32::MIN, i32::MIN]), Ok(i32::MAX));
}
