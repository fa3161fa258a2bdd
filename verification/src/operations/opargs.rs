//! A reference implementation of the operation traits.
use vstd::prelude::*;
use crate::layer::Layer;
use crate::gates::{PauliGate, HGate, SGate, TGate, CXGate};
use crate::operations::opid;
use crate::operations::{Operation, PauliOperation, HOperation, SOperation, TOperation, CXOperation};

verus! {

/// A reference implementation of `Operation`: an opcode plus the payload
/// shape that opcode calls for.
///
/// The single-precision (`QF`, `QFF`) and double-precision (`QD`) rotation
/// payloads are carried as raw IEEE-754 bit patterns (`u32`, `u64`): the
/// core never computes with an angle, it only transports it to the backend.
/// The `Var` payload is the backend-defined extension payload `L::Var`,
/// tagged with a user-defined opcode; the core never inspects it.
#[derive(Debug, PartialEq)]
pub enum OpArgs<L: Layer> {
    Empty(u16),
    Q(u16, L::Qubit),
    QQ(u16, L::Qubit, L::Qubit),
    QS(u16, L::Qubit, L::Slot),
    QF(u16, L::Qubit, u32),
    QD(u16, L::Qubit, u64),
    QFF(u16, L::Qubit, u32, u32),
    Var(u16, L::Var),
}

/// How a cloned operation relates to its original: the same variant and
/// opcode, with every address and payload a clone of the original's.
pub open spec fn op_args_cloned<L: Layer>(a: OpArgs<L>, b: OpArgs<L>) -> bool where
    L::Qubit: Clone,
    L::Slot: Clone,
    L::Var: Clone,
{
    match (a, b) {
        (OpArgs::Empty(c1), OpArgs::Empty(c2)) => c1 == c2,
        (OpArgs::Q(c1, q1), OpArgs::Q(c2, q2)) => c1 == c2 && cloned(q1, q2),
        (OpArgs::QQ(c1, q1, p1), OpArgs::QQ(c2, q2, p2)) => c1 == c2 && cloned(q1, q2) && cloned(
            p1,
            p2,
        ),
        (OpArgs::QS(c1, q1, s1), OpArgs::QS(c2, q2, s2)) => c1 == c2 && cloned(q1, q2) && cloned(
            s1,
            s2,
        ),
        (OpArgs::QF(c1, q1, f1), OpArgs::QF(c2, q2, f2)) => c1 == c2 && cloned(q1, q2) && f1 == f2,
        (OpArgs::QD(c1, q1, d1), OpArgs::QD(c2, q2, d2)) => c1 == c2 && cloned(q1, q2) && d1 == d2,
        (OpArgs::QFF(c1, q1, f1, g1), OpArgs::QFF(c2, q2, f2, g2)) => c1 == c2 && cloned(q1, q2)
            && f1 == f2 && g1 == g2,
        (OpArgs::Var(c1, v1), OpArgs::Var(c2, v2)) => c1 == c2 && cloned(v1, v2),
        _ => false,
    }
}

impl<L: Layer> Clone for OpArgs<L> where L::Qubit: Clone, L::Slot: Clone, L::Var: Clone {
    /// Clones the operation variant-wise; addresses and payloads are cloned
    /// with their own `Clone` implementations.
    fn clone(&self) -> (r: Self)
        ensures
            op_args_cloned(*self, r),
    {
        match self {
            OpArgs::Empty(c) => OpArgs::Empty(*c),
            OpArgs::Q(c, q) => OpArgs::Q(*c, q.clone()),
            OpArgs::QQ(c, q, p) => OpArgs::QQ(*c, q.clone(), p.clone()),
            OpArgs::QS(c, q, s) => OpArgs::QS(*c, q.clone(), s.clone()),
            OpArgs::QF(c, q, f) => OpArgs::QF(*c, q.clone(), *f),
            OpArgs::QD(c, q, d) => OpArgs::QD(*c, q.clone(), *d),
            OpArgs::QFF(c, q, f, g) => OpArgs::QFF(*c, q.clone(), *f, *g),
            OpArgs::Var(c, v) => OpArgs::Var(*c, v.clone()),
        }
    }
}

impl<L: Layer<Operation = OpArgs<L>>> Operation<L> for OpArgs<L> {
    open spec fn spec_initialize() -> Self {
        OpArgs::Empty(opid::INIT)
    }

    open spec fn spec_measure(q: L::Qubit, s: L::Slot) -> Self {
        OpArgs::QS(opid::MEAS, q, s)
    }

    fn initialize() -> Self {
        OpArgs::Empty(opid::INIT)
    }

    fn measure(q: L::Qubit, s: L::Slot) -> Self {
        OpArgs::QS(opid::MEAS, q, s)
    }
}

impl<L: Layer<Operation = OpArgs<L>> + PauliGate> PauliOperation<L> for OpArgs<L> {
    open spec fn spec_x(q: L::Qubit) -> Self {
        OpArgs::Q(opid::X, q)
    }

    open spec fn spec_y(q: L::Qubit) -> Self {
        OpArgs::Q(opid::Y, q)
    }

    open spec fn spec_z(q: L::Qubit) -> Self {
        OpArgs::Q(opid::Z, q)
    }

    fn x(q: L::Qubit) -> Self {
        OpArgs::Q(opid::X, q)
    }

    fn y(q: L::Qubit) -> Self {
        OpArgs::Q(opid::Y, q)
    }

    fn z(q: L::Qubit) -> Self {
        OpArgs::Q(opid::Z, q)
    }
}

impl<L: Layer<Operation = OpArgs<L>> + HGate> HOperation<L> for OpArgs<L> {
    open spec fn spec_h(q: L::Qubit) -> Self {
        OpArgs::Q(opid::H, q)
    }

    fn h(q: L::Qubit) -> Self {
        OpArgs::Q(opid::H, q)
    }
}

impl<L: Layer<Operation = OpArgs<L>> + SGate> SOperation<L> for OpArgs<L> {
    open spec fn spec_s(q: L::Qubit) -> Self {
        OpArgs::Q(opid::S, q)
    }

    open spec fn spec_sdg(q: L::Qubit) -> Self {
        OpArgs::Q(opid::SDG, q)
    }

    fn s(q: L::Qubit) -> Self {
        OpArgs::Q(opid::S, q)
    }

    fn sdg(q: L::Qubit) -> Self {
        OpArgs::Q(opid::SDG, q)
    }
}

impl<L: Layer<Operation = OpArgs<L>> + TGate> TOperation<L> for OpArgs<L> {
    open spec fn spec_t(q: L::Qubit) -> Self {
        OpArgs::Q(opid::T, q)
    }

    open spec fn spec_tdg(q: L::Qubit) -> Self {
        OpArgs::Q(opid::TDG, q)
    }

    fn t(q: L::Qubit) -> Self {
        OpArgs::Q(opid::T, q)
    }

    fn tdg(q: L::Qubit) -> Self {
        OpArgs::Q(opid::TDG, q)
    }
}

impl<L: Layer<Operation = OpArgs<L>> + CXGate> CXOperation<L> for OpArgs<L> {
    open spec fn spec_cx(c: L::Qubit, t: L::Qubit) -> Self {
        OpArgs::QQ(opid::CX, c, t)
    }

    fn cx(c: L::Qubit, t: L::Qubit) -> Self {
        OpArgs::QQ(opid::CX, c, t)
    }
}

} // verus!
