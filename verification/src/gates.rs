//! Capability markers: which gate families a layer supports.
use vstd::prelude::*;
use crate::layer::Layer;

verus! {

/// Layers which implement Pauli gates.
pub trait PauliGate: Layer {

}

/// Layers which implement Hadamard gates.
pub trait HGate: Layer {

}

/// Layers which implement S gates.
pub trait SGate: Layer {

}

/// Layers which implement T gates.
pub trait TGate: Layer {

}

/// Layers which implement CNOT gates.
pub trait CXGate: Layer {

}

} // verus!
