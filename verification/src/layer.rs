//! Trait for abstract quantum computer.
use vstd::prelude::*;
use crate::measured::Measured;

verus! {

/// Sends operations and receives result.
///
/// The layer itself places no demand on what a backend does with a batch:
/// whether the backend accepted or honoured it is encoded entirely in the
/// backend-defined `Requested` and `Response` types.
pub trait Layer: Sized {
    /// One command of a dispatch batch.
    type Operation;

    /// Backend-defined address of a qubit.
    type Qubit;

    /// Backend-defined address of a classical result register.
    type Slot;

    /// Backend-defined payload of extension operations.
    type Var;

    /// Backend-defined measurement storage, readable by slot.
    type Buffer: Measured<Slot = Self::Slot>;

    /// What `send` reports back.
    type Requested;

    /// What `receive` reports back.
    type Response;

    /// Sends operations.
    fn send(&mut self, ops: &[Self::Operation]) -> Self::Requested;

    /// Receives measured result.
    fn receive(&mut self, buf: &mut Self::Buffer) -> Self::Response;

    /// Sends and receives. Unless overridden, this is exactly a send
    /// followed by a receive on the same layer.
    fn send_receive(&mut self, ops: &[Self::Operation], buf: &mut Self::Buffer) -> (r:
        Self::Response)
        default_ensures
            exists|m1: &mut Self, req: Self::Requested, m2: &mut Self, b: &mut Self::Buffer|
                {
                    &&& *m1 == *old(self)
                    &&& #[trigger] call_ensures(Self::send, (m1, ops), req)
                    &&& *m2 == *final(m1)
                    &&& *b == *old(buf)
                    &&& *final(m2) == *final(self)
                    &&& *final(b) == *final(buf)
                    &&& #[trigger] call_ensures(Self::receive, (m2, b), r)
                },
    {
        self.send(ops);
        self.receive(buf)
    }

    /// Make new buffer for receiving result.
    fn make_buffer(&self) -> Self::Buffer;
}

} // verus!
