//! Call-interception layer: wraps an inner layer, redirects every call to a
//! user-supplied hook, and re-tags the operation type with a wrapper of its
//! own, so that a distinct outer operation representation can be swapped in.
use vstd::prelude::*;
use std::marker::PhantomData;
use crate::layer::Layer;
use crate::hooks::LayerHooks;
use crate::gates::{PauliGate, HGate, SGate, TGate, CXGate};
use crate::operations::{Operation, PauliOperation, HOperation, SOperation, TOperation, CXOperation};

verus! {

/// Wraps an inner layer plus three hooks, one per dispatch call. Each call
/// to `send`, `receive` or `send_receive` fires its hook exactly once, on
/// the inner layer and the original arguments (operations unwrapped to the
/// inner representation), and returns exactly what the hook returned; the
/// wrapper dispatches nothing beyond what the hook itself chooses to do.
pub struct InjectLayer<
    L: Layer,
    F: Fn(&mut L, &[L::Operation]) -> L::Requested,
    G: Fn(&mut L, &mut L::Buffer) -> L::Response,
    H: Fn(&mut L, &[L::Operation], &mut L::Buffer) -> L::Response,
> {
    pub layer: L,
    pub hooks: LayerHooks<L, F, G, H>,
}

impl<
    L: Layer,
    F: Fn(&mut L, &[L::Operation]) -> L::Requested,
    G: Fn(&mut L, &mut L::Buffer) -> L::Response,
    H: Fn(&mut L, &[L::Operation], &mut L::Buffer) -> L::Response,
> InjectLayer<L, F, G, H> {
    /// The hooks must be total (callable on every inner-layer state and
    /// argument list): the layer contract itself admits every batch.
    pub fn new(layer: L, f_send: F, f_receive: G, f_send_receive: H) -> (r: Self)
        requires
            forall|m: &mut L, o: &[L::Operation]| #[trigger] call_requires(f_send, (m, o)),
            forall|m: &mut L, b: &mut L::Buffer| #[trigger] call_requires(f_receive, (m, b)),
            forall|m: &mut L, o: &[L::Operation], b: &mut L::Buffer| #[trigger] call_requires(
                f_send_receive,
                (m, o, b),
            ),
        ensures
            r.layer == layer,
            r.hooks.spec_f_send() == f_send,
            r.hooks.spec_f_receive() == f_receive,
            r.hooks.spec_f_send_receive() == f_send_receive,
    {
        InjectLayer { layer, hooks: LayerHooks::new(f_send, f_receive, f_send_receive) }
    }
}

impl<
    L: Layer,
    F: Fn(&mut L, &[L::Operation]) -> L::Requested,
    G: Fn(&mut L, &mut L::Buffer) -> L::Response,
    H: Fn(&mut L, &[L::Operation], &mut L::Buffer) -> L::Response,
> Layer for InjectLayer<L, F, G, H> where L::Operation: Clone {
    type Operation = InjectOperation<L, F, G, H>;

    type Qubit = L::Qubit;

    type Slot = L::Slot;

    type Var = L::Var;

    type Buffer = L::Buffer;

    type Requested = L::Requested;

    type Response = L::Response;

    fn make_buffer(&self) -> (r: L::Buffer)
        ensures
            call_ensures(L::make_buffer, (&self.layer,), r),
    {
        self.layer.make_buffer()
    }

    /// Unwraps the operations into the inner representation and fires the
    /// send hook exactly once on them; the hook's return value is the
    /// result.
    fn send(&mut self, ops: &[Self::Operation]) -> (r: L::Requested)
        ensures
            final(self).hooks == old(self).hooks,
            exists|m: &mut L, s: &[L::Operation]|
                {
                    &&& *m == old(self).layer
                    &&& *final(m) == final(self).layer
                    &&& s@.len() == ops@.len()
                    &&& forall|i: int| 0 <= i < ops@.len() ==> cloned(ops@[i].0, #[trigger] s@[i])
                    &&& #[trigger] call_ensures(old(self).hooks.spec_f_send(), (m, s), r)
                },
    {
        let inner = unwrap_ops(ops);
        self.hooks.call_send(&mut self.layer, inner.as_slice())
    }

    /// Fires the receive hook exactly once, on the inner layer and the
    /// original buffer; the hook's return value is the result.
    fn receive(&mut self, buf: &mut L::Buffer) -> (r: L::Response)
        ensures
            final(self).hooks == old(self).hooks,
            exists|m: &mut L, b: &mut L::Buffer|
                {
                    &&& *m == old(self).layer
                    &&& *final(m) == final(self).layer
                    &&& *b == *old(buf)
                    &&& *final(b) == *final(buf)
                    &&& #[trigger] call_ensures(old(self).hooks.spec_f_receive(), (m, b), r)
                },
    {
        self.hooks.call_receive(&mut self.layer, buf)
    }

    /// Unwraps the operations and fires the send-receive hook exactly once
    /// on them and the original buffer; the hook's return value is the
    /// result.
    fn send_receive(&mut self, ops: &[Self::Operation], buf: &mut L::Buffer) -> (r: L::Response)
        ensures
            final(self).hooks == old(self).hooks,
            exists|m: &mut L, s: &[L::Operation], b: &mut L::Buffer|
                {
                    &&& *m == old(self).layer
                    &&& *final(m) == final(self).layer
                    &&& s@.len() == ops@.len()
                    &&& forall|i: int| 0 <= i < ops@.len() ==> cloned(ops@[i].0, #[trigger] s@[i])
                    &&& *b == *old(buf)
                    &&& *final(b) == *final(buf)
                    &&& #[trigger] call_ensures(
                        old(self).hooks.spec_f_send_receive(),
                        (m, s, b),
                        r,
                    )
                },
    {
        let inner = unwrap_ops(ops);
        self.hooks.call_send_receive(&mut self.layer, inner.as_slice(), buf)
    }
}

/// Builds the inner operation sequence that a batch of outer operations
/// stands for, by unwrapping (cloning) each element in order.
fn unwrap_ops<
    L: Layer,
    F: Fn(&mut L, &[L::Operation]) -> L::Requested,
    G: Fn(&mut L, &mut L::Buffer) -> L::Response,
    H: Fn(&mut L, &[L::Operation], &mut L::Buffer) -> L::Response,
>(ops: &[InjectOperation<L, F, G, H>]) -> (r: Vec<L::Operation>) where L::Operation: Clone
    ensures
        r@.len() == ops@.len(),
        forall|i: int| 0 <= i < ops@.len() ==> cloned(ops@[i].0, #[trigger] r@[i]),
{
    let mut inner: Vec<L::Operation> = Vec::new();
    let mut j: usize = 0;
    while j < ops.len()
        invariant
            j <= ops@.len(),
            inner@.len() == j,
            forall|i: int| 0 <= i < j ==> cloned(ops@[i].0, #[trigger] inner@[i]),
        decreases ops@.len() - j,
    {
        inner.push(ops[j].0.clone());
        j = j + 1;
    }
    inner
}

impl<
    L: Layer + PauliGate,
    F: Fn(&mut L, &[L::Operation]) -> L::Requested,
    G: Fn(&mut L, &mut L::Buffer) -> L::Response,
    H: Fn(&mut L, &[L::Operation], &mut L::Buffer) -> L::Response,
> PauliGate for InjectLayer<L, F, G, H> where L::Operation: Clone {

}

impl<
    L: Layer + HGate,
    F: Fn(&mut L, &[L::Operation]) -> L::Requested,
    G: Fn(&mut L, &mut L::Buffer) -> L::Response,
    H: Fn(&mut L, &[L::Operation], &mut L::Buffer) -> L::Response,
> HGate for InjectLayer<L, F, G, H> where L::Operation: Clone {

}

impl<
    L: Layer + SGate,
    F: Fn(&mut L, &[L::Operation]) -> L::Requested,
    G: Fn(&mut L, &mut L::Buffer) -> L::Response,
    H: Fn(&mut L, &[L::Operation], &mut L::Buffer) -> L::Response,
> SGate for InjectLayer<L, F, G, H> where L::Operation: Clone {

}

impl<
    L: Layer + TGate,
    F: Fn(&mut L, &[L::Operation]) -> L::Requested,
    G: Fn(&mut L, &mut L::Buffer) -> L::Response,
    H: Fn(&mut L, &[L::Operation], &mut L::Buffer) -> L::Response,
> TGate for InjectLayer<L, F, G, H> where L::Operation: Clone {

}

impl<
    L: Layer + CXGate,
    F: Fn(&mut L, &[L::Operation]) -> L::Requested,
    G: Fn(&mut L, &mut L::Buffer) -> L::Response,
    H: Fn(&mut L, &[L::Operation], &mut L::Buffer) -> L::Response,
> CXGate for InjectLayer<L, F, G, H> where L::Operation: Clone {

}

/// The outer operation representation of an inject layer: a true wrapper
/// holding the inner operation value unchanged.
pub struct InjectOperation<
    L: Layer,
    F: Fn(&mut L, &[L::Operation]) -> L::Requested,
    G: Fn(&mut L, &mut L::Buffer) -> L::Response,
    H: Fn(&mut L, &[L::Operation], &mut L::Buffer) -> L::Response,
>(pub L::Operation, pub PhantomData<(F, G, H)>);

impl<
    L: Layer,
    F: Fn(&mut L, &[L::Operation]) -> L::Requested,
    G: Fn(&mut L, &mut L::Buffer) -> L::Response,
    H: Fn(&mut L, &[L::Operation], &mut L::Buffer) -> L::Response,
> InjectOperation<L, F, G, H> {
    pub fn new(op: L::Operation) -> (r: Self)
        ensures
            r.0 == op,
    {
        InjectOperation(op, PhantomData)
    }
}

impl<
    L: Layer,
    F: Fn(&mut L, &[L::Operation]) -> L::Requested,
    G: Fn(&mut L, &mut L::Buffer) -> L::Response,
    H: Fn(&mut L, &[L::Operation], &mut L::Buffer) -> L::Response,
> Clone for InjectOperation<L, F, G, H> where L::Operation: Clone {
    /// Clones the wrapped inner operation.
    fn clone(&self) -> (r: Self)
        ensures
            cloned(self.0, r.0),
    {
        InjectOperation(self.0.clone(), PhantomData)
    }
}

impl<
    L: Layer,
    F: Fn(&mut L, &[L::Operation]) -> L::Requested,
    G: Fn(&mut L, &mut L::Buffer) -> L::Response,
    H: Fn(&mut L, &[L::Operation], &mut L::Buffer) -> L::Response,
> Operation<InjectLayer<L, F, G, H>> for InjectOperation<L, F, G, H> where
    L::Operation: Operation<L>,
    L::Operation: Clone,
 {
    open spec fn spec_initialize() -> Self {
        InjectOperation(<L::Operation as Operation<L>>::spec_initialize(), PhantomData)
    }

    open spec fn spec_measure(q: L::Qubit, s: L::Slot) -> Self {
        InjectOperation(<L::Operation as Operation<L>>::spec_measure(q, s), PhantomData)
    }

    fn initialize() -> Self {
        Self::new(L::Operation::initialize())
    }

    fn measure(q: L::Qubit, s: L::Slot) -> Self {
        Self::new(L::Operation::measure(q, s))
    }
}

impl<
    L: Layer + PauliGate,
    F: Fn(&mut L, &[L::Operation]) -> L::Requested,
    G: Fn(&mut L, &mut L::Buffer) -> L::Response,
    H: Fn(&mut L, &[L::Operation], &mut L::Buffer) -> L::Response,
> PauliOperation<InjectLayer<L, F, G, H>> for InjectOperation<L, F, G, H> where
    L::Operation: PauliOperation<L>,
    L::Operation: Clone,
 {
    open spec fn spec_x(q: L::Qubit) -> Self {
        InjectOperation(<L::Operation as PauliOperation<L>>::spec_x(q), PhantomData)
    }

    open spec fn spec_y(q: L::Qubit) -> Self {
        InjectOperation(<L::Operation as PauliOperation<L>>::spec_y(q), PhantomData)
    }

    open spec fn spec_z(q: L::Qubit) -> Self {
        InjectOperation(<L::Operation as PauliOperation<L>>::spec_z(q), PhantomData)
    }

    fn x(q: L::Qubit) -> Self {
        Self::new(L::Operation::x(q))
    }

    fn y(q: L::Qubit) -> Self {
        Self::new(L::Operation::y(q))
    }

    fn z(q: L::Qubit) -> Self {
        Self::new(L::Operation::z(q))
    }
}

impl<
    L: Layer + HGate,
    F: Fn(&mut L, &[L::Operation]) -> L::Requested,
    G: Fn(&mut L, &mut L::Buffer) -> L::Response,
    H: Fn(&mut L, &[L::Operation], &mut L::Buffer) -> L::Response,
> HOperation<InjectLayer<L, F, G, H>> for InjectOperation<L, F, G, H> where
    L::Operation: HOperation<L>,
    L::Operation: Clone,
 {
    open spec fn spec_h(q: L::Qubit) -> Self {
        InjectOperation(<L::Operation as HOperation<L>>::spec_h(q), PhantomData)
    }

    fn h(q: L::Qubit) -> Self {
        Self::new(L::Operation::h(q))
    }
}

impl<
    L: Layer + SGate,
    F: Fn(&mut L, &[L::Operation]) -> L::Requested,
    G: Fn(&mut L, &mut L::Buffer) -> L::Response,
    H: Fn(&mut L, &[L::Operation], &mut L::Buffer) -> L::Response,
> SOperation<InjectLayer<L, F, G, H>> for InjectOperation<L, F, G, H> where
    L::Operation: SOperation<L>,
    L::Operation: Clone,
 {
    open spec fn spec_s(q: L::Qubit) -> Self {
        InjectOperation(<L::Operation as SOperation<L>>::spec_s(q), PhantomData)
    }

    open spec fn spec_sdg(q: L::Qubit) -> Self {
        InjectOperation(<L::Operation as SOperation<L>>::spec_sdg(q), PhantomData)
    }

    fn s(q: L::Qubit) -> Self {
        Self::new(L::Operation::s(q))
    }

    fn sdg(q: L::Qubit) -> Self {
        Self::new(L::Operation::sdg(q))
    }
}

impl<
    L: Layer + TGate,
    F: Fn(&mut L, &[L::Operation]) -> L::Requested,
    G: Fn(&mut L, &mut L::Buffer) -> L::Response,
    H: Fn(&mut L, &[L::Operation], &mut L::Buffer) -> L::Response,
> TOperation<InjectLayer<L, F, G, H>> for InjectOperation<L, F, G, H> where
    L::Operation: TOperation<L>,
    L::Operation: Clone,
 {
    open spec fn spec_t(q: L::Qubit) -> Self {
        InjectOperation(<L::Operation as TOperation<L>>::spec_t(q), PhantomData)
    }

    open spec fn spec_tdg(q: L::Qubit) -> Self {
        InjectOperation(<L::Operation as TOperation<L>>::spec_tdg(q), PhantomData)
    }

    fn t(q: L::Qubit) -> Self {
        Self::new(L::Operation::t(q))
    }

    fn tdg(q: L::Qubit) -> Self {
        Self::new(L::Operation::tdg(q))
    }
}

impl<
    L: Layer + CXGate,
    F: Fn(&mut L, &[L::Operation]) -> L::Requested,
    G: Fn(&mut L, &mut L::Buffer) -> L::Response,
    H: Fn(&mut L, &[L::Operation], &mut L::Buffer) -> L::Response,
> CXOperation<InjectLayer<L, F, G, H>> for InjectOperation<L, F, G, H> where
    L::Operation: CXOperation<L>,
    L::Operation: Clone,
 {
    open spec fn spec_cx(c: L::Qubit, t: L::Qubit) -> Self {
        InjectOperation(<L::Operation as CXOperation<L>>::spec_cx(c, t), PhantomData)
    }

    fn cx(c: L::Qubit, t: L::Qubit) -> Self {
        Self::new(L::Operation::cx(c, t))
    }
}

} // verus!
