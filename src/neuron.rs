//! A single rectified linear unit.

use crate::model::{activation, dot, neuron_in_unit_range, neuron_output, NetworkError, NeuronView, ONE};
use crate::random::draw_between;
use vstd::prelude::*;

verus! {

/// A bias and one weight per input.
#[derive(Debug)]
pub struct Neuron {
    bias: i32,
    weights: Vec<i32>,
}

impl View for Neuron {
    type V = NeuronView;

    closed spec fn view(&self) -> NeuronView {
        NeuronView { bias: self.bias, weights: self.weights@ }
    }
}

impl Neuron {
    /// A neuron with the given bias and weights.
    pub fn new(bias: i32, weights: Vec<i32>) -> (r: Neuron)
        ensures
            r@ == (NeuronView { bias: bias, weights: weights@ }),
    {
        Neuron { bias, weights }
    }

    /// A neuron with `input_size` weights, whose bias and weights are each
    /// drawn uniformly from `[-ONE, ONE]`.
    pub fn random(input_size: usize, rng: &mut rand::rngs::StdRng) -> (r: Neuron)
        ensures
            r@.weights.len() == input_size,
            neuron_in_unit_range(r@),
    {
        let bias = draw_between(rng, -ONE, ONE);
        let mut weights: Vec<i32> = Vec::new();
        while weights.len() < input_size
            invariant
                weights.len() <= input_size,
                forall|k: int| 0 <= k < weights.len() ==> -ONE <= #[trigger] weights@[k] <= ONE,
            decreases input_size - weights.len(),
        {
            let w = draw_between(rng, -ONE, ONE);
            weights.push(w);
        }
        Neuron { bias, weights }
    }

    /// The bias.
    pub fn bias(&self) -> (r: i32)
        ensures
            r == self@.bias,
    {
        self.bias
    }

    /// The weights, one per input.
    pub fn weights(&self) -> (r: &Vec<i32>)
        ensures
            r@ == self@.weights,
    {
        &self.weights
    }

    /// What the neuron fires on `inputs`: the rectified weighted sum plus the
    /// bias, or `DimensionMismatch` when there is not one input per weight.
    pub fn propogate(&self, inputs: &Vec<i32>) -> (r: Result<i32, NetworkError>)
        ensures
            inputs@.len() == self@.weights.len() ==> r == Ok::<i32, NetworkError>(
                neuron_output(self@, inputs@),
            ),
            inputs@.len() != self@.weights.len() ==> r == Err::<i32, NetworkError>(
                NetworkError::DimensionMismatch,
            ),
    {
        let n = self.weights.len();
        if inputs.len() != n {
            return Err(NetworkError::DimensionMismatch);
        }
        // Each product is at most 2^62 in size, so the sum of at most 2^64
        // of them stays well inside an i128.
        let mut acc: i128 = 0;
        let mut k: usize = 0;
        while k < n
            invariant
                k <= n,
                n == self.weights@.len(),
                n == inputs@.len(),
                acc == dot(self.weights@, inputs@, k as nat),
                -(k as int) * 0x4000_0000_0000_0000 <= acc <= (k as int) * 0x4000_0000_0000_0000,
            decreases n - k,
        {
            let w = self.weights[k] as i128;
            let x = inputs[k] as i128;
            proof {
                assert(-0x4000_0000_0000_0000 <= w * x <= 0x4000_0000_0000_0000) by (nonlinear_arith)
                    requires
                        -0x8000_0000 <= w <= 0x7fff_ffff,
                        -0x8000_0000 <= x <= 0x7fff_ffff,
                ;
            }
            acc = acc + w * x;
            k = k + 1;
        }
        acc = acc + (self.bias as i128) * (ONE as i128);
        assert(acc == activation(self@, inputs@));
        if acc < 0 {
            return Ok(0);
        }
        let q = acc / (ONE as i128);
        if q > i32::MAX as i128 {
            Ok(i32::MAX)
        } else {
            Ok(q as i32)
        }
    }
}

} // verus!
