//! Vec wrapper for building slices of operations.
use vstd::prelude::*;
use crate::layer::Layer;
use crate::gates::{PauliGate, HGate, SGate, TGate, CXGate};
use crate::operations::{Operation, PauliOperation, HOperation, SOperation, TOperation, CXOperation};

verus! {

/// Vec wrapper for building a slice of `Operation`s.
///
/// The view of an `OpsVec` is the sequence of operations appended so far,
/// in the order they were appended: nothing reorders, drops or deduplicates
/// an entry.
pub struct OpsVec<L: Layer> {
    inner: Vec<L::Operation>,
}

impl<L: Layer> View for OpsVec<L> {
    type V = Seq<L::Operation>;

    closed spec fn view(&self) -> Seq<L::Operation> {
        self.inner@
    }
}

impl<L: Layer> OpsVec<L> {
    pub fn new() -> (r: Self)
        ensures
            r@ == Seq::<L::Operation>::empty(),
    {
        OpsVec::from_vec(vec![])
    }

    pub fn from_vec(v: Vec<L::Operation>) -> (r: Self)
        ensures
            r@ == v@,
    {
        OpsVec { inner: v }
    }

    pub fn into_vec(self) -> (r: Vec<L::Operation>)
        ensures
            r@ == self@,
    {
        self.inner
    }

    pub fn as_slice(&self) -> (r: &[L::Operation])
        ensures
            r@ == self@,
    {
        self.inner.as_slice()
    }

    pub fn as_mut_slice(&mut self) -> (r: &mut [L::Operation])
        ensures
            r@ == old(self)@,
            final(self)@ == final(r)@,
    {
        self.inner.as_mut_slice()
    }

    pub fn as_vec(&self) -> (r: &Vec<L::Operation>)
        ensures
            r@ == self@,
    {
        &self.inner
    }

    pub fn as_mut_vec(&mut self) -> (r: &mut Vec<L::Operation>)
        ensures
            r@ == old(self)@,
            final(self)@ == final(r)@,
    {
        &mut self.inner
    }

    pub fn len(&self) -> (r: usize)
        ensures
            r == self@.len(),
    {
        self.inner.len()
    }

    pub fn iter(&self) -> (r: std::slice::Iter<'_, L::Operation>)
        ensures
            vstd::std_specs::slice::into_iter_elts(r) == self@,
    {
        self.inner.as_slice().iter()
    }

    pub fn clear(&mut self)
        ensures
            final(self)@ == Seq::<L::Operation>::empty(),
    {
        self.inner.clear()
    }
}

/// Order preservation: every append method ensures `final(self)@ ==
/// old(self)@.push(op)`, and this law says what that view is: the earlier
/// operations stay unchanged, in place, and the appended operation stands
/// at the end. By induction over a run of appends, iterating the built
/// sequence yields exactly the appended operations, in the order appended.
pub proof fn lemma_opsvec_append_order<L: Layer>(
    ops: OpsVec<L>,
    prior: Seq<L::Operation>,
    op: L::Operation,
)
    requires
        ops@ == prior.push(op),
    ensures
        ops@.len() == prior.len() + 1,
        ops@[prior.len() as int] == op,
        forall|i: int| 0 <= i < prior.len() ==> ops@[i] == prior[i],
{
}

impl<L: Layer> OpsVec<L> where L::Operation: Operation<L> {
    /// Appends the initialize operation.
    pub fn initialize(&mut self)
        ensures
            final(self)@ == old(self)@.push(<L::Operation as Operation<L>>::spec_initialize()),
    {
        self.inner.push(L::Operation::initialize());
    }

    /// Appends a measurement of qubit `q` into slot `s`.
    pub fn measure(&mut self, q: L::Qubit, s: L::Slot)
        ensures
            final(self)@ == old(self)@.push(<L::Operation as Operation<L>>::spec_measure(q, s)),
    {
        self.inner.push(L::Operation::measure(q, s));
    }
}

impl<L: Layer + PauliGate> OpsVec<L> where L::Operation: PauliOperation<L> {
    /// Appends an X gate on qubit `q`.
    pub fn x(&mut self, q: L::Qubit)
        ensures
            final(self)@ == old(self)@.push(<L::Operation as PauliOperation<L>>::spec_x(q)),
    {
        self.inner.push(L::Operation::x(q));
    }

    /// Appends a Y gate on qubit `q`.
    pub fn y(&mut self, q: L::Qubit)
        ensures
            final(self)@ == old(self)@.push(<L::Operation as PauliOperation<L>>::spec_y(q)),
    {
        self.inner.push(L::Operation::y(q));
    }

    /// Appends a Z gate on qubit `q`.
    pub fn z(&mut self, q: L::Qubit)
        ensures
            final(self)@ == old(self)@.push(<L::Operation as PauliOperation<L>>::spec_z(q)),
    {
        self.inner.push(L::Operation::z(q));
    }
}

impl<L: Layer + HGate> OpsVec<L> where L::Operation: HOperation<L> {
    /// Appends a Hadamard gate on qubit `q`.
    pub fn h(&mut self, q: L::Qubit)
        ensures
            final(self)@ == old(self)@.push(<L::Operation as HOperation<L>>::spec_h(q)),
    {
        self.inner.push(L::Operation::h(q));
    }
}

impl<L: Layer + SGate> OpsVec<L> where L::Operation: SOperation<L> {
    /// Appends an S gate on qubit `q`.
    pub fn s(&mut self, q: L::Qubit)
        ensures
            final(self)@ == old(self)@.push(<L::Operation as SOperation<L>>::spec_s(q)),
    {
        self.inner.push(L::Operation::s(q));
    }

    /// Appends an S-dagger gate on qubit `q`.
    pub fn sdg(&mut self, q: L::Qubit)
        ensures
            final(self)@ == old(self)@.push(<L::Operation as SOperation<L>>::spec_sdg(q)),
    {
        self.inner.push(L::Operation::sdg(q));
    }
}

impl<L: Layer + TGate> OpsVec<L> where L::Operation: TOperation<L> {
    /// Appends a T gate on qubit `q`.
    pub fn t(&mut self, q: L::Qubit)
        ensures
            final(self)@ == old(self)@.push(<L::Operation as TOperation<L>>::spec_t(q)),
    {
        self.inner.push(L::Operation::t(q));
    }

    /// Appends a T-dagger gate on qubit `q`.
    pub fn tdg(&mut self, q: L::Qubit)
        ensures
            final(self)@ == old(self)@.push(<L::Operation as TOperation<L>>::spec_tdg(q)),
    {
        self.inner.push(L::Operation::tdg(q));
    }
}

impl<L: Layer + CXGate> OpsVec<L> where L::Operation: CXOperation<L> {
    /// Appends a CNOT gate with control `c` and target `t`.
    pub fn cx(&mut self, c: L::Qubit, t: L::Qubit)
        ensures
            final(self)@ == old(self)@.push(<L::Operation as CXOperation<L>>::spec_cx(c, t)),
    {
        self.inner.push(L::Operation::cx(c, t));
    }
}

} // verus!
