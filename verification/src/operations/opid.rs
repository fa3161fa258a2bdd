//! Builtin operation IDs.
use vstd::prelude::*;

verus! {

/// Initialize
pub const INIT: u16 = 1;

/// Measurement
pub const MEAS: u16 = 2;

/// Pauli X gate
pub const X: u16 = 3;

/// Pauli Y gate
pub const Y: u16 = 4;

/// Pauli Z gate
pub const Z: u16 = 5;

/// Hadamard gate
pub const H: u16 = 6;

/// S gate
pub const S: u16 = 7;

/// S-dagger gate
pub const SDG: u16 = 8;

/// T gate
pub const T: u16 = 9;

/// T-dagger gate
pub const TDG: u16 = 10;

/// CNOT gate
pub const CX: u16 = 11;

/// When a library user defines a new operation ID,
/// the value should be greater than or equal to this value.
pub const USERDEF: u16 = 256;

} // verus!
