//! The hook triple that the call-interception layers carry.
use vstd::prelude::*;
use std::marker::PhantomData;
use crate::layer::Layer;

verus! {

/// Three user-supplied hooks replacing `send`, `receive` and `send_receive`
/// over an inner layer `L`; each receives mutable access to the inner layer
/// and the original arguments.
///
/// The hooks must be total: `new` demands that each can be called on every
/// inner-layer state and argument list, since the layer contract itself
/// admits every batch. Each `call_` method fires its hook exactly once and
/// returns exactly what the hook returned.
pub struct LayerHooks<
    L: Layer,
    F: Fn(&mut L, &[L::Operation]) -> L::Requested,
    G: Fn(&mut L, &mut L::Buffer) -> L::Response,
    H: Fn(&mut L, &[L::Operation], &mut L::Buffer) -> L::Response,
> {
    f_send: F,
    f_receive: G,
    f_send_receive: H,
    phantom: PhantomData<L>,
}

impl<
    L: Layer,
    F: Fn(&mut L, &[L::Operation]) -> L::Requested,
    G: Fn(&mut L, &mut L::Buffer) -> L::Response,
    H: Fn(&mut L, &[L::Operation], &mut L::Buffer) -> L::Response,
> LayerHooks<L, F, G, H> {
    /// All three hooks can be called on any arguments.
    #[verifier::type_invariant]
    spec fn hooks_total(self) -> bool {
        &&& forall|m: &mut L, o: &[L::Operation]| #[trigger] call_requires(self.f_send, (m, o))
        &&& forall|m: &mut L, b: &mut L::Buffer| #[trigger] call_requires(self.f_receive, (m, b))
        &&& forall|m: &mut L, o: &[L::Operation], b: &mut L::Buffer| #[trigger] call_requires(
            self.f_send_receive,
            (m, o, b),
        )
    }

    /// The hook that replaces `send`.
    pub closed spec fn spec_f_send(self) -> F {
        self.f_send
    }

    /// The hook that replaces `receive`.
    pub closed spec fn spec_f_receive(self) -> G {
        self.f_receive
    }

    /// The hook that replaces `send_receive`.
    pub closed spec fn spec_f_send_receive(self) -> H {
        self.f_send_receive
    }

    pub fn new(f_send: F, f_receive: G, f_send_receive: H) -> (r: Self)
        requires
            forall|m: &mut L, o: &[L::Operation]| #[trigger] call_requires(f_send, (m, o)),
            forall|m: &mut L, b: &mut L::Buffer| #[trigger] call_requires(f_receive, (m, b)),
            forall|m: &mut L, o: &[L::Operation], b: &mut L::Buffer| #[trigger] call_requires(
                f_send_receive,
                (m, o, b),
            ),
        ensures
            r.spec_f_send() == f_send,
            r.spec_f_receive() == f_receive,
            r.spec_f_send_receive() == f_send_receive,
    {
        LayerHooks { f_send, f_receive, f_send_receive, phantom: PhantomData }
    }

    /// Fires the send hook, exactly once.
    pub fn call_send(&self, layer: &mut L, ops: &[L::Operation]) -> (r: L::Requested)
        ensures
            exists|m: &mut L|
                {
                    &&& *m == *old(layer)
                    &&& *final(m) == *final(layer)
                    &&& #[trigger] call_ensures(self.spec_f_send(), (m, ops), r)
                },
    {
        proof {
            use_type_invariant(self);
            assert(self.spec_f_send() == self.f_send);
        }
        (self.f_send)(&mut *layer, ops)
    }

    /// Fires the receive hook, exactly once.
    pub fn call_receive(&self, layer: &mut L, buf: &mut L::Buffer) -> (r: L::Response)
        ensures
            exists|m: &mut L, b: &mut L::Buffer|
                {
                    &&& *m == *old(layer)
                    &&& *final(m) == *final(layer)
                    &&& *b == *old(buf)
                    &&& *final(b) == *final(buf)
                    &&& #[trigger] call_ensures(self.spec_f_receive(), (m, b), r)
                },
    {
        proof {
            use_type_invariant(self);
            assert(self.spec_f_receive() == self.f_receive);
        }
        (self.f_receive)(&mut *layer, &mut *buf)
    }

    /// Fires the send-receive hook, exactly once.
    pub fn call_send_receive(&self, layer: &mut L, ops: &[L::Operation], buf: &mut L::Buffer) -> (r:
        L::Response)
        ensures
            exists|m: &mut L, b: &mut L::Buffer|
                {
                    &&& *m == *old(layer)
                    &&& *final(m) == *final(layer)
                    &&& *b == *old(buf)
                    &&& *final(b) == *final(buf)
                    &&& #[trigger] call_ensures(self.spec_f_send_receive(), (m, ops, b), r)
                },
    {
        proof {
            use_type_invariant(self);
            assert(self.spec_f_send_receive() == self.f_send_receive);
        }
        (self.f_send_receive)(&mut *layer, ops, &mut *buf)
    }
}

} // verus!
