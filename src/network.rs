//! A network: layers applied one after the other.

use crate::layer::Layer;
use crate::model::{
    input_width, layer_in_unit_range, layer_output, layer_wf, layers_chain, network_in_unit_range,
    network_output, network_wf, shaped_by, widths_of, LayerTopology, LayerView, NetworkError,
};
use vstd::prelude::*;

verus! {

/// Layers in order, each reading what the one before it outputs.
#[derive(Debug)]
pub struct NeuralNetwork {
    layers: Vec<Layer>,
}

impl View for NeuralNetwork {
    type V = Seq<LayerView>;

    closed spec fn view(&self) -> Seq<LayerView> {
        self.layers@.map_values(|l: Layer| l@)
    }
}

impl NeuralNetwork {
    /// At least one layer, each well formed, adjacent ones fitting together.
    #[verifier::type_invariant]
    pub open spec fn inv(&self) -> bool {
        network_wf(self@)
    }

    /// A network with one randomly initialised layer between each pair of
    /// adjacent widths of the topology, or `InvalidTopology` when it has
    /// fewer than two entries.
    pub fn init(layers: Vec<LayerTopology>, rng: &mut rand::rngs::StdRng) -> (r: Result<
        NeuralNetwork,
        NetworkError,
    >)
        ensures
            layers@.len() < 2 ==> r == Err::<NeuralNetwork, NetworkError>(
                NetworkError::InvalidTopology,
            ),
            layers@.len() >= 2 ==> (r matches Ok(net) && network_wf(net@) && shaped_by(
                net@,
                widths_of(layers@),
            ) && network_in_unit_range(net@)),
    {
        if layers.len() < 2 {
            return Err(NetworkError::InvalidTopology);
        }
        let ghost widths = widths_of(layers@);
        let mut built: Vec<Layer> = Vec::new();
        let mut i: usize = 0;
        while i < layers.len() - 1
            invariant
                layers@.len() >= 2,
                widths == widths_of(layers@),
                i <= layers@.len() - 1,
                built@.len() == i,
                forall|k: int|
                    0 <= k < i ==> (#[trigger] built@[k])@.input_width == widths[k]
                        && built@[k]@.neurons.len() == widths[k + 1] && layer_wf(built@[k]@)
                        && layer_in_unit_range(built@[k]@),
            decreases layers.len() - 1 - i,
        {
            let l = Layer::init(layers[i].neurons, layers[i + 1].neurons, rng);
            proof {
                use_type_invariant(&l);
            }
            built.push(l);
            i = i + 1;
        }
        let net = NeuralNetwork { layers: built };
        assert(shaped_by(net@, widths));
        Ok(net)
    }

    /// A network of the given layers, or `InvalidTopology` when there is none
    /// and `DimensionMismatch` when a layer's output is not as wide as the
    /// next layer's input.
    pub fn from_layers(layers: Vec<Layer>) -> (r: Result<NeuralNetwork, NetworkError>)
        ensures
            layers@.len() == 0 ==> r == Err::<NeuralNetwork, NetworkError>(
                NetworkError::InvalidTopology,
            ),
            layers@.len() > 0 && layers_chain(layers@.map_values(|l: Layer| l@)) ==> (r matches Ok(
                net,
            ) && net@ == layers@.map_values(|l: Layer| l@)),
            layers@.len() > 0 && !layers_chain(layers@.map_values(|l: Layer| l@)) ==> r
                == Err::<NeuralNetwork, NetworkError>(NetworkError::DimensionMismatch),
    {
        if layers.len() == 0 {
            return Err(NetworkError::InvalidTopology);
        }
        let ghost views = layers@.map_values(|l: Layer| l@);
        let mut i: usize = 0;
        while i < layers.len()
            invariant
                views == layers@.map_values(|l: Layer| l@),
                i <= layers@.len(),
                forall|k: int| 0 <= k < i ==> layer_wf(#[trigger] views[k]),
                forall|k: int|
                    0 <= k < i && k + 1 < views.len() ==> (#[trigger] views[k]).neurons.len()
                        == views[k + 1].input_width,
            decreases layers.len() - i,
        {
            let l = &layers[i];
            proof {
                use_type_invariant(l);
            }
            if i + 1 < layers.len() && l.neurons().len() != layers[i + 1].input_width() {
                assert(views[i as int].neurons.len() != views[i + 1].input_width);
                return Err(NetworkError::DimensionMismatch);
            }
            i = i + 1;
        }
        Ok(NeuralNetwork { layers })
    }

    /// The layers, in order.
    pub fn layers(&self) -> (r: &Vec<Layer>)
        ensures
            r@.map_values(|l: Layer| l@) == self@,
    {
        &self.layers
    }

    /// The input folded through every layer in order, or `DimensionMismatch`
    /// when it is not as long as the first layer expects.
    pub fn propogate(&self, inputs: Vec<i32>) -> (r: Result<Vec<i32>, NetworkError>)
        ensures
            network_wf(self@),
            inputs@.len() == input_width(self@) ==> (r matches Ok(v) && v@ == network_output(
                self@,
                inputs@,
            )),
            inputs@.len() != input_width(self@) ==> r == Err::<Vec<i32>, NetworkError>(
                NetworkError::DimensionMismatch,
            ),
    {
        proof {
            use_type_invariant(self);
        }
        if inputs.len() != self.layers[0].input_width() {
            return Err(NetworkError::DimensionMismatch);
        }
        let ghost x = inputs@;
        let mut current = inputs;
        let mut i: usize = 0;
        while i < self.layers.len()
            invariant
                network_wf(self@),
                i <= self@.len(),
                current@ == network_output(self@.take(i as int), x),
                i < self@.len() ==> current@.len() == self@[i as int].input_width,
            decreases self.layers.len() - i,
        {
            let ghost before = current@;
            match self.layers[i].propogate(&current) {
                Ok(v) => current = v,
                Err(e) => return Err(e),
            }
            proof {
                let t = self@.take(i + 1);
                assert(t.drop_last() =~= self@.take(i as int));
                assert(t.last() == self@[i as int]);
                assert(current@ == layer_output(self@[i as int], before));
            }
            i = i + 1;
        }
        assert(self@.take(self@.len() as int) =~= self@);
        Ok(current)
    }
}

} // verus!
