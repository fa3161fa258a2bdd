//! Traits for operations.
use vstd::prelude::*;
use crate::layer::Layer;
use crate::gates::{PauliGate, HGate, SGate, TGate, CXGate};

pub mod opid;

mod opargs;
pub use opargs::OpArgs;
pub use opargs::op_args_cloned;

mod opsvec;
pub use opsvec::OpsVec;
pub use opsvec::lemma_opsvec_append_order;

verus! {

/// Provides operations for initialize and measurement.
///
/// Operations are value types: each constructor returns the one value its
/// spec counterpart names, so that two equal argument lists build equal
/// operations.
pub trait Operation<L: Layer>: Sized {
    /// The initialize operation as a value.
    spec fn spec_initialize() -> Self;

    /// The measure operation as a value.
    spec fn spec_measure(q: L::Qubit, s: L::Slot) -> Self;

    fn initialize() -> (r: Self)
        ensures
            r == Self::spec_initialize(),
    ;

    fn measure(q: L::Qubit, s: L::Slot) -> (r: Self)
        ensures
            r == Self::spec_measure(q, s),
    ;
}

/// Provides operations for Pauli X, Y, Z gate.
pub trait PauliOperation<L: Layer + PauliGate>: Sized {
    /// The X gate on qubit `q` as a value.
    spec fn spec_x(q: L::Qubit) -> Self;

    /// The Y gate on qubit `q` as a value.
    spec fn spec_y(q: L::Qubit) -> Self;

    /// The Z gate on qubit `q` as a value.
    spec fn spec_z(q: L::Qubit) -> Self;

    fn x(q: L::Qubit) -> (r: Self)
        ensures
            r == Self::spec_x(q),
    ;

    fn y(q: L::Qubit) -> (r: Self)
        ensures
            r == Self::spec_y(q),
    ;

    fn z(q: L::Qubit) -> (r: Self)
        ensures
            r == Self::spec_z(q),
    ;
}

/// Provides operations for Hadamard gate.
pub trait HOperation<L: Layer + HGate>: Sized {
    /// The Hadamard gate on qubit `q` as a value.
    spec fn spec_h(q: L::Qubit) -> Self;

    fn h(q: L::Qubit) -> (r: Self)
        ensures
            r == Self::spec_h(q),
    ;
}

/// Provides operations for S and S-dagger gate.
pub trait SOperation<L: Layer + SGate>: Sized {
    /// The S gate on qubit `q` as a value.
    spec fn spec_s(q: L::Qubit) -> Self;

    /// The S-dagger gate on qubit `q` as a value.
    spec fn spec_sdg(q: L::Qubit) -> Self;

    fn s(q: L::Qubit) -> (r: Self)
        ensures
            r == Self::spec_s(q),
    ;

    fn sdg(q: L::Qubit) -> (r: Self)
        ensures
            r == Self::spec_sdg(q),
    ;
}

/// Provides operations for T and T-dagger gate.
pub trait TOperation<L: Layer + TGate>: Sized {
    /// The T gate on qubit `q` as a value.
    spec fn spec_t(q: L::Qubit) -> Self;

    /// The T-dagger gate on qubit `q` as a value.
    spec fn spec_tdg(q: L::Qubit) -> Self;

    fn t(q: L::Qubit) -> (r: Self)
        ensures
            r == Self::spec_t(q),
    ;

    fn tdg(q: L::Qubit) -> (r: Self)
        ensures
            r == Self::spec_tdg(q),
    ;
}

/// Provides operations for CNOT gate.
pub trait CXOperation<L: Layer + CXGate>: Sized {
    /// The CNOT gate with control `c` and target `t` as a value.
    spec fn spec_cx(c: L::Qubit, t: L::Qubit) -> Self;

    fn cx(c: L::Qubit, t: L::Qubit) -> (r: Self)
        ensures
            r == Self::spec_cx(c, t),
    ;
}

} // verus!
