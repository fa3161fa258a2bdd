//! An interface for quantum computing.
//!
//! Lay provides an interface for sending and receiving operations for
//! quantum computer hardwares or simulators, with the behaviour of every
//! component stated in contracts and machine-checked.

pub mod gates;
pub mod operations;
pub mod convert;
pub mod inject;
pub mod inspect;
pub mod transparent;

pub mod hooks;

mod layer;
pub use layer::Layer;

mod measured;
pub use measured::Measured;
pub use measured::SlotIndex;
pub use measured::packed_bits;
pub use measured::lemma_packed_bits_bound;
pub use measured::lemma_packed_bits_zero;
pub use measured::lemma_packed_bits_split;
pub use measured::lemma_packed_bits_extract;
pub use measured::lemma_failed_outcome_reads_zero;

pub use gates::{PauliGate, HGate, SGate, TGate, CXGate};
pub use operations::OpsVec;
pub use transparent::TransparentLayer;
