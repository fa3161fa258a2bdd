//! A transparent decorator: wraps an inner layer and forwards every call
//! unchanged, keeping the operation type and capability set of the inner
//! layer. It is the identity transform that deeper wrappers stack on.
use vstd::prelude::*;
use crate::layer::Layer;
use crate::gates::{PauliGate, HGate, SGate, TGate, CXGate};

verus! {

/// Forwards the whole layer contract to `base`, exactly once per call.
pub struct TransparentLayer<T: Layer> {
    pub base: T,
}

impl<T: Layer> TransparentLayer<T> {
    pub fn new(base: T) -> (r: Self)
        ensures
            r.base == base,
    {
        TransparentLayer { base }
    }
}

impl<T: Layer> Layer for TransparentLayer<T> {
    type Operation = T::Operation;

    type Qubit = T::Qubit;

    type Slot = T::Slot;

    type Var = T::Var;

    type Buffer = T::Buffer;

    type Requested = T::Requested;

    type Response = T::Response;

    fn make_buffer(&self) -> (r: T::Buffer)
        ensures
            call_ensures(T::make_buffer, (&self.base,), r),
    {
        self.base.make_buffer()
    }

    /// Forwards the batch to the inner layer, exactly once.
    fn send(&mut self, ops: &[T::Operation]) -> (r: T::Requested)
        ensures
            exists|m: &mut T|
                {
                    &&& *m == old(self).base
                    &&& *final(m) == final(self).base
                    &&& #[trigger] call_ensures(T::send, (m, ops), r)
                },
    {
        self.base.send(ops)
    }

    /// Forwards the buffer to the inner layer, exactly once.
    fn receive(&mut self, buf: &mut T::Buffer) -> (r: T::Response)
        ensures
            exists|m: &mut T, b: &mut T::Buffer|
                {
                    &&& *m == old(self).base
                    &&& *final(m) == final(self).base
                    &&& *b == *old(buf)
                    &&& *final(b) == *final(buf)
                    &&& #[trigger] call_ensures(T::receive, (m, b), r)
                },
    {
        self.base.receive(buf)
    }

    /// Forwards both arguments to the inner layer's combined call, exactly
    /// once.
    fn send_receive(&mut self, ops: &[T::Operation], buf: &mut T::Buffer) -> (r: T::Response)
        ensures
            exists|m: &mut T, b: &mut T::Buffer|
                {
                    &&& *m == old(self).base
                    &&& *final(m) == final(self).base
                    &&& *b == *old(buf)
                    &&& *final(b) == *final(buf)
                    &&& #[trigger] call_ensures(T::send_receive, (m, ops, b), r)
                },
    {
        self.base.send_receive(ops, buf)
    }
}

impl<T: Layer + PauliGate> PauliGate for TransparentLayer<T> {

}

impl<T: Layer + HGate> HGate for TransparentLayer<T> {

}

impl<T: Layer + SGate> SGate for TransparentLayer<T> {

}

impl<T: Layer + TGate> TGate for TransparentLayer<T> {

}

impl<T: Layer + CXGate> CXGate for TransparentLayer<T> {

}

} // verus!
