//! A layer: neurons that read the same input.

use crate::model::{
    layer_in_unit_range, layer_output, layer_wf, neuron_in_unit_range, neuron_output, LayerView,
    NetworkError,
};
use crate::neuron::Neuron;
use vstd::prelude::*;

verus! {

/// Neurons that all take `input_width` inputs; the layer outputs one value
/// per neuron.
#[derive(Debug)]
pub struct Layer {
    input_width: usize,
    neurons: Vec<Neuron>,
}

impl View for Layer {
    type V = LayerView;

    closed spec fn view(&self) -> LayerView {
        LayerView {
            input_width: self.input_width as nat,
            neurons: self.neurons@.map_values(|n: Neuron| n@),
        }
    }
}

impl Layer {
    /// Every neuron has one weight per input.
    #[verifier::type_invariant]
    pub open spec fn inv(&self) -> bool {
        layer_wf(self@)
    }

    /// A layer of the given neurons, each of which must have `input_width`
    /// weights; otherwise `DimensionMismatch`.
    pub fn from_neurons(input_width: usize, neurons: Vec<Neuron>) -> (r: Result<
        Layer,
        NetworkError,
    >)
        ensures
            (forall|j: int| 0 <= j < neurons@.len() ==> (#[trigger] neurons@[j])@.weights.len()
                == input_width) ==> (r matches Ok(l) && l@ == (LayerView {
                input_width: input_width as nat,
                neurons: neurons@.map_values(|n: Neuron| n@),
            })),
            !(forall|j: int| 0 <= j < neurons@.len() ==> (#[trigger] neurons@[j])@.weights.len()
                == input_width) ==> r == Err::<Layer, NetworkError>(
                NetworkError::DimensionMismatch,
            ),
    {
        let mut j: usize = 0;
        while j < neurons.len()
            invariant
                j <= neurons@.len(),
                forall|i: int| 0 <= i < j ==> (#[trigger] neurons@[i])@.weights.len() == input_width,
            decreases neurons.len() - j,
        {
            if neurons[j].weights().len() != input_width {
                return Err(NetworkError::DimensionMismatch);
            }
            j = j + 1;
        }
        Ok(Layer { input_width, neurons })
    }

    /// A layer of `output_size` neurons, each built by `Neuron::random` with
    /// `input_size` weights.
    pub fn init(input_size: usize, output_size: usize, rng: &mut rand::rngs::StdRng) -> (r: Layer)
        ensures
            r@.input_width == input_size,
            r@.neurons.len() == output_size,
            layer_in_unit_range(r@),
    {
        let mut neurons: Vec<Neuron> = Vec::new();
        while neurons.len() < output_size
            invariant
                neurons.len() <= output_size,
                forall|j: int| 0 <= j < neurons.len() ==> (#[trigger] neurons@[j])@.weights.len()
                    == input_size,
                forall|j: int|
                    0 <= j < neurons.len() ==> neuron_in_unit_range(
                        #[trigger] neurons@[j]@,
                    ),
            decreases output_size - neurons.len(),
        {
            let n = Neuron::random(input_size, rng);
            neurons.push(n);
        }
        Layer { input_width: input_size, neurons }
    }

    /// The width of the input that the layer reads.
    pub fn input_width(&self) -> (r: usize)
        ensures
            r == self@.input_width,
    {
        self.input_width
    }

    /// The neurons, in order.
    pub fn neurons(&self) -> (r: &Vec<Neuron>)
        ensures
            r@.map_values(|n: Neuron| n@) == self@.neurons,
    {
        &self.neurons
    }

    /// Each neuron's output on `inputs`, in neuron order, or
    /// `DimensionMismatch` when `inputs` is not `input_width` long.
    pub fn propogate(&self, inputs: &Vec<i32>) -> (r: Result<Vec<i32>, NetworkError>)
        ensures
            inputs@.len() == self@.input_width ==> (r matches Ok(v) && v@ == layer_output(
                self@,
                inputs@,
            )),
            inputs@.len() != self@.input_width ==> r == Err::<Vec<i32>, NetworkError>(
                NetworkError::DimensionMismatch,
            ),
    {
        proof {
            use_type_invariant(self);
        }
        if inputs.len() != self.input_width {
            return Err(NetworkError::DimensionMismatch);
        }
        let mut outputs: Vec<i32> = Vec::new();
        let mut j: usize = 0;
        while j < self.neurons.len()
            invariant
                j <= self.neurons@.len(),
                inputs@.len() == self@.input_width,
                layer_wf(self@),
                outputs@.len() == j,
                forall|i: int| 0 <= i < j ==> #[trigger] outputs@[i] == neuron_output(
                    self@.neurons[i],
                    inputs@,
                ),
            decreases self.neurons.len() - j,
        {
            assert(self@.neurons[j as int] == self.neurons@[j as int]@);
            match self.neurons[j].propogate(inputs) {
                Ok(v) => outputs.push(v),
                Err(e) => return Err(e),
            }
            j = j + 1;
        }
        assert(outputs@ =~= layer_output(self@, inputs@));
        Ok(outputs)
    }
}

} // verus!
