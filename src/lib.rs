//! A feedforward network of rectified linear neurons over fixed-point numbers.
//!
//! Every scalar is a signed 32-bit fixed-point number with sixteen fractional
//! bits: the integer `v` stands for the real `v / ONE`.

mod layer;
pub mod model;
mod network;
mod neuron;
mod random;
pub mod theorems;

pub use layer::Layer;
pub use model::{LayerTopology, NetworkError, ONE};
pub use network::NeuralNetwork;
pub use neuron::Neuron;
