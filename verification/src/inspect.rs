//! Call-inspection layer: wraps an inner layer and redirects every call to
//! a user-supplied hook, keeping the inner operation type unchanged.
use vstd::prelude::*;
use crate::layer::Layer;
use crate::hooks::LayerHooks;
use crate::gates::{PauliGate, HGate, SGate, TGate, CXGate};

verus! {

/// Wraps an inner layer plus three hooks, one per dispatch call. Each call
/// to `send`, `receive` or `send_receive` fires its hook exactly once, on
/// the inner layer and the original arguments, and returns exactly what the
/// hook returned; the wrapper dispatches nothing beyond what the hook
/// itself chooses to do.
pub struct InspectLayer<
    L: Layer,
    F: Fn(&mut L, &[L::Operation]) -> L::Requested,
    G: Fn(&mut L, &mut L::Buffer) -> L::Response,
    H: Fn(&mut L, &[L::Operation], &mut L::Buffer) -> L::Response,
> {
    pub layer: L,
    pub hooks: LayerHooks<L, F, G, H>,
}

impl<
    L: Layer,
    F: Fn(&mut L, &[L::Operation]) -> L::Requested,
    G: Fn(&mut L, &mut L::Buffer) -> L::Response,
    H: Fn(&mut L, &[L::Operation], &mut L::Buffer) -> L::Response,
> InspectLayer<L, F, G, H> {
    /// The hooks must be total (callable on every inner-layer state and
    /// argument list): the layer contract itself admits every batch.
    pub fn new(layer: L, f_send: F, f_receive: G, f_send_receive: H) -> (r: Self)
        requires
            forall|m: &mut L, o: &[L::Operation]| #[trigger] call_requires(f_send, (m, o)),
            forall|m: &mut L, b: &mut L::Buffer| #[trigger] call_requires(f_receive, (m, b)),
            forall|m: &mut L, o: &[L::Operation], b: &mut L::Buffer| #[trigger] call_requires(
                f_send_receive,
                (m, o, b),
            ),
        ensures
            r.layer == layer,
            r.hooks.spec_f_send() == f_send,
            r.hooks.spec_f_receive() == f_receive,
            r.hooks.spec_f_send_receive() == f_send_receive,
    {
        InspectLayer { layer, hooks: LayerHooks::new(f_send, f_receive, f_send_receive) }
    }
}

impl<
    L: Layer,
    F: Fn(&mut L, &[L::Operation]) -> L::Requested,
    G: Fn(&mut L, &mut L::Buffer) -> L::Response,
    H: Fn(&mut L, &[L::Operation], &mut L::Buffer) -> L::Response,
> Layer for InspectLayer<L, F, G, H> {
    type Operation = L::Operation;

    type Qubit = L::Qubit;

    type Slot = L::Slot;

    type Var = L::Var;

    type Buffer = L::Buffer;

    type Requested = L::Requested;

    type Response = L::Response;

    fn make_buffer(&self) -> (r: L::Buffer)
        ensures
            call_ensures(L::make_buffer, (&self.layer,), r),
    {
        self.layer.make_buffer()
    }

    /// Fires the send hook exactly once, on the inner layer and the
    /// original operations; the hook's return value is the result.
    fn send(&mut self, ops: &[L::Operation]) -> (r: L::Requested)
        ensures
            final(self).hooks == old(self).hooks,
            exists|m: &mut L|
                {
                    &&& *m == old(self).layer
                    &&& *final(m) == final(self).layer
                    &&& #[trigger] call_ensures(old(self).hooks.spec_f_send(), (m, ops), r)
                },
    {
        self.hooks.call_send(&mut self.layer, ops)
    }

    /// Fires the receive hook exactly once, on the inner layer and the
    /// original buffer; the hook's return value is the result.
    fn receive(&mut self, buf: &mut L::Buffer) -> (r: L::Response)
        ensures
            final(self).hooks == old(self).hooks,
            exists|m: &mut L, b: &mut L::Buffer|
                {
                    &&& *m == old(self).layer
                    &&& *final(m) == final(self).layer
                    &&& *b == *old(buf)
                    &&& *final(b) == *final(buf)
                    &&& #[trigger] call_ensures(old(self).hooks.spec_f_receive(), (m, b), r)
                },
    {
        self.hooks.call_receive(&mut self.layer, buf)
    }

    /// Fires the send-receive hook exactly once, on the inner layer and the
    /// original arguments; the hook's return value is the result.
    fn send_receive(&mut self, ops: &[L::Operation], buf: &mut L::Buffer) -> (r: L::Response)
        ensures
            final(self).hooks == old(self).hooks,
            exists|m: &mut L, b: &mut L::Buffer|
                {
                    &&& *m == old(self).layer
                    &&& *final(m) == final(self).layer
                    &&& *b == *old(buf)
                    &&& *final(b) == *final(buf)
                    &&& #[trigger] call_ensures(
                        old(self).hooks.spec_f_send_receive(),
                        (m, ops, b),
                        r,
                    )
                },
    {
        self.hooks.call_send_receive(&mut self.layer, ops, buf)
    }
}

impl<
    L: Layer + PauliGate,
    F: Fn(&mut L, &[L::Operation]) -> L::Requested,
    G: Fn(&mut L, &mut L::Buffer) -> L::Response,
    H: Fn(&mut L, &[L::Operation], &mut L::Buffer) -> L::Response,
> PauliGate for InspectLayer<L, F, G, H> {

}

impl<
    L: Layer + HGate,
    F: Fn(&mut L, &[L::Operation]) -> L::Requested,
    G: Fn(&mut L, &mut L::Buffer) -> L::Response,
    H: Fn(&mut L, &[L::Operation], &mut L::Buffer) -> L::Response,
> HGate for InspectLayer<L, F, G, H> {

}

impl<
    L: Layer + SGate,
    F: Fn(&mut L, &[L::Operation]) -> L::Requested,
    G: Fn(&mut L, &mut L::Buffer) -> L::Response,
    H: Fn(&mut L, &[L::Operation], &mut L::Buffer) -> L::Response,
> SGate for InspectLayer<L, F, G, H> {

}

impl<
    L: Layer + TGate,
    F: Fn(&mut L, &[L::Operation]) -> L::Requested,
    G: Fn(&mut L, &mut L::Buffer) -> L::Response,
    H: Fn(&mut L, &[L::Operation], &mut L::Buffer) -> L::Response,
> TGate for InspectLayer<L, F, G, H> {

}

impl<
    L: Layer + CXGate,
    F: Fn(&mut L, &[L::Operation]) -> L::Requested,
    G: Fn(&mut L, &mut L::Buffer) -> L::Response,
    H: Fn(&mut L, &[L::Operation], &mut L::Buffer) -> L::Response,
> CXGate for InspectLayer<L, F, G, H> {

}

} // verus!
