//! The mathematical model of neurons, layers and networks, and of what each
//! of them computes.

use vstd::prelude::*;

verus! {

/// The fixed-point scale: the integer `v` stands for the real `v / ONE`.
pub const ONE: i32 = 65536;

/// Why a network could not be built or could not run.
#[derive(Debug, Clone, Copy, PartialEq, Eq, Structural)]
pub enum NetworkError {
    /// A topology with fewer than two entries, or a network with no layer.
    InvalidTopology,
    /// An input vector whose length is not the width that the receiver expects.
    DimensionMismatch,
}

/// A neuron as a value: its bias and its weights.
pub ghost struct NeuronView {
    pub bias: i32,
    pub weights: Seq<i32>,
}

/// A layer as a value: the width of its input and its neurons in order.
pub ghost struct LayerView {
    pub input_width: nat,
    pub neurons: Seq<NeuronView>,
}

/// `w[0] * x[0] + ... + w[n - 1] * x[n - 1]`, summed in index order.
pub open spec fn dot(w: Seq<i32>, x: Seq<i32>, n: nat) -> int
    decreases n,
{
    if n == 0 {
        0
    } else {
        dot(w, x, (n - 1) as nat) + w[n - 1] * x[n - 1]
    }
}

/// The rectifier `max(a, 0)`, saturating at the largest representable value
/// the way a float overflows to infinity.
pub open spec fn rectify(a: int) -> int {
    if a < 0 {
        0
    } else if a > i32::MAX {
        i32::MAX as int
    } else {
        a
    }
}

/// The weighted sum of the inputs plus the bias, at the scale `ONE * ONE`.
pub open spec fn activation(n: NeuronView, x: Seq<i32>) -> int {
    dot(n.weights, x, n.weights.len()) + n.bias * ONE
}

/// What a neuron fires on an input: its activation brought back to the scale
/// `ONE` (rounding down), then rectified.
pub open spec fn neuron_output(n: NeuronView, x: Seq<i32>) -> i32 {
    rectify(activation(n, x) / (ONE as int)) as i32
}

/// What a layer outputs: each neuron's output on the same input, in order.
pub open spec fn layer_output(l: LayerView, x: Seq<i32>) -> Seq<i32> {
    Seq::new(l.neurons.len(), |j: int| neuron_output(l.neurons[j], x))
}

/// The input folded through the layers in order.
pub open spec fn network_output(layers: Seq<LayerView>, x: Seq<i32>) -> Seq<i32>
    decreases layers.len(),
{
    if layers.len() == 0 {
        x
    } else {
        layer_output(layers.last(), network_output(layers.drop_last(), x))
    }
}

/// Every neuron of the layer has one weight per input.
pub open spec fn layer_wf(l: LayerView) -> bool {
    forall|j: int| 0 <= j < l.neurons.len() ==> (#[trigger] l.neurons[j]).weights.len()
        == l.input_width
}

/// Each layer's output is as wide as the next layer's input.
pub open spec fn layers_chain(layers: Seq<LayerView>) -> bool {
    forall|i: int|
        0 <= i < layers.len() - 1 ==> (#[trigger] layers[i]).neurons.len() == layers[i
            + 1].input_width
}

/// At least one layer, each well formed, and adjacent layers fit together.
pub open spec fn network_wf(layers: Seq<LayerView>) -> bool {
    &&& layers.len() >= 1
    &&& forall|i: int| 0 <= i < layers.len() ==> layer_wf(#[trigger] layers[i])
    &&& layers_chain(layers)
}

/// The width that the network expects of its input.
pub open spec fn input_width(layers: Seq<LayerView>) -> nat {
    layers[0].input_width
}

/// The layers are those that the topology `widths` describes: one between
/// each pair of adjacent widths, in order.
pub open spec fn shaped_by(layers: Seq<LayerView>, widths: Seq<usize>) -> bool {
    &&& layers.len() + 1 == widths.len()
    &&& forall|i: int|
        0 <= i < layers.len() ==> (#[trigger] layers[i]).input_width == widths[i]
            && layers[i].neurons.len() == widths[i + 1]
}

/// Every bias and every weight lies in `[-ONE, ONE]`, the reals `[-1, 1]`.
pub open spec fn neuron_in_unit_range(n: NeuronView) -> bool {
    &&& -ONE <= n.bias <= ONE
    &&& forall|k: int| 0 <= k < n.weights.len() ==> -ONE <= #[trigger] n.weights[k] <= ONE
}

/// Every neuron of the layer has its parameters in `[-ONE, ONE]`.
pub open spec fn layer_in_unit_range(l: LayerView) -> bool {
    forall|j: int| 0 <= j < l.neurons.len() ==> neuron_in_unit_range(#[trigger] l.neurons[j])
}

/// Every layer has its parameters in `[-ONE, ONE]`.
pub open spec fn network_in_unit_range(layers: Seq<LayerView>) -> bool {
    forall|i: int| 0 <= i < layers.len() ==> layer_in_unit_range(#[trigger] layers[i])
}

/// The neuron counts of a topology, in order.
pub open spec fn widths_of(topology: Seq<LayerTopology>) -> Seq<usize> {
    topology.map_values(|t: LayerTopology| t.neurons)
}

/// The width of one layer of a topology.
#[derive(Debug, Clone, Copy, PartialEq, Eq, Structural)]
pub struct LayerTopology {
    pub neurons: usize,
}

} // verus!
