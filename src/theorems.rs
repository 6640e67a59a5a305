//! What holds of every network: the shape of its output, the sign of every
//! output, zero parameters, and that the output depends on nothing but the
//! parameters and the input.

use crate::model::{
    dot, input_width, layer_output, network_output, neuron_output, shaped_by, LayerView,
    NeuronView,
};
use vstd::prelude::*;

verus! {

/// A layer outputs one value per neuron.
pub proof fn lemma_layer_output_len(l: LayerView, x: Seq<i32>)
    ensures
        layer_output(l, x).len() == l.neurons.len(),
{
}

/// For a network whose layers a topology `[n0, ..., nk]` with `k >= 1`
/// describes, the network expects inputs of width `n0`, and an input of that
/// width gives an output of width `nk`.
pub proof fn lemma_output_shape(layers: Seq<LayerView>, widths: Seq<usize>, x: Seq<i32>)
    requires
        widths.len() >= 2,
        shaped_by(layers, widths),
        x.len() == widths[0],
    ensures
        input_width(layers) == widths[0],
        network_output(layers, x).len() == widths.last(),
    decreases layers.len(),
{
    if layers.len() > 1 {
        let front = layers.drop_last();
        let front_widths = widths.drop_last();
        assert(shaped_by(front, front_widths)) by {
            assert forall|i: int| 0 <= i < front.len() implies (#[trigger] front[i]).input_width
                == front_widths[i] && front[i].neurons.len() == front_widths[i + 1] by {
                assert(layers[i] == front[i]);
            }
        }
        lemma_output_shape(front, front_widths, x);
    }
    assert(layers.last() == layers[layers.len() - 1]);
}

/// The rectifier never outputs a negative value: every neuron's output is at
/// least zero.
pub proof fn lemma_neuron_output_nonnegative(n: NeuronView, x: Seq<i32>)
    ensures
        neuron_output(n, x) >= 0,
{
}

/// Every value that a layer outputs is at least zero.
pub proof fn lemma_layer_output_nonnegative(l: LayerView, x: Seq<i32>)
    ensures
        forall|j: int| 0 <= j < layer_output(l, x).len() ==> #[trigger] layer_output(l, x)[j] >= 0,
{
}

/// Every value that a network of at least one layer outputs is at least zero.
pub proof fn lemma_network_output_nonnegative(layers: Seq<LayerView>, x: Seq<i32>)
    requires
        layers.len() >= 1,
    ensures
        forall|j: int|
            0 <= j < network_output(layers, x).len() ==> #[trigger] network_output(layers, x)[j]
                >= 0,
{
    lemma_layer_output_nonnegative(layers.last(), network_output(layers.drop_last(), x));
}

/// A neuron with bias zero and all weights zero.
pub open spec fn neuron_is_zero(n: NeuronView) -> bool {
    &&& n.bias == 0
    &&& forall|k: int| 0 <= k < n.weights.len() ==> #[trigger] n.weights[k] == 0
}

/// Every neuron of every layer has bias zero and all weights zero.
pub open spec fn network_is_zero(layers: Seq<LayerView>) -> bool {
    forall|i: int, j: int|
        0 <= i < layers.len() && 0 <= j < layers[i].neurons.len() ==> neuron_is_zero(
            #[trigger] layers[i].neurons[j],
        )
}

proof fn lemma_dot_zero(w: Seq<i32>, x: Seq<i32>, n: nat)
    requires
        n <= w.len(),
        forall|k: int| 0 <= k < w.len() ==> #[trigger] w[k] == 0,
    ensures
        dot(w, x, n) == 0,
    decreases n,
{
    if n > 0 {
        lemma_dot_zero(w, x, (n - 1) as nat);
        assert(w[n - 1] == 0);
    }
}

/// A network whose every neuron has bias zero and all weights zero outputs
/// all zeros, one per neuron of its last layer, whatever the input.
pub proof fn lemma_zero_network(layers: Seq<LayerView>, x: Seq<i32>)
    requires
        layers.len() >= 1,
        network_is_zero(layers),
    ensures
        network_output(layers, x) == Seq::new(layers.last().neurons.len(), |j: int| 0i32),
{
    let l = layers.last();
    let y = network_output(layers.drop_last(), x);
    assert forall|j: int| 0 <= j < l.neurons.len() implies #[trigger] layer_output(l, y)[j]
        == 0 by {
        assert(neuron_is_zero(layers[layers.len() - 1].neurons[j]));
        lemma_dot_zero(l.neurons[j].weights, y, l.neurons[j].weights.len());
    }
    assert(network_output(layers, x) =~= Seq::new(l.neurons.len(), |j: int| 0i32));
}

/// Two propagations through networks with the same parameters, on the same
/// input, give the same output.
pub proof fn lemma_output_deterministic(
    a: Seq<LayerView>,
    b: Seq<LayerView>,
    x: Seq<i32>,
    y: Seq<i32>,
)
    requires
        a == b,
        x == y,
    ensures
        network_output(a, x) == network_output(b, y),
{
}

} // verus!
