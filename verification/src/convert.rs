//! Address-remapping layer: wraps an inner layer under an outer address
//! domain, converting every address at operation-construction time.
use vstd::prelude::*;
use std::marker::PhantomData;
use crate::layer::Layer;
use crate::measured::Measured;
use crate::gates::{PauliGate, HGate, SGate, TGate, CXGate};
use crate::operations::{Operation, PauliOperation, HOperation, SOperation, TOperation, CXOperation};
use vstd::arithmetic::div_mod::{
    lemma_add_mod_noop_right, lemma_fundamental_div_mod_converse, lemma_small_mod,
};

verus! {

/// A pure, total, deterministic address mapping from an outer domain
/// (`Q1`, `S1`) to an inner one (`Q2`, `S2`): each conversion returns
/// exactly the value its spec counterpart names.
pub trait Converter<Q1, Q2, S1, S2> {
    /// The qubit mapping as a function.
    spec fn spec_qconv(q: Q1) -> Q2;

    /// The slot mapping as a function.
    spec fn spec_sconv(s: S1) -> S2;

    /// Converts an outer qubit address to an inner one.
    fn qconv(q: Q1) -> (r: Q2)
        ensures
            r == Self::spec_qconv(q),
    ;

    /// Converts an outer slot address to an inner one.
    fn sconv(s: S1) -> (r: S2)
        ensures
            r == Self::spec_sconv(s),
    ;
}

/// Wraps an inner layer and exposes the same contract under the outer
/// address types `Q` and `S`, remapped by the converter `C`.
pub struct QubitSlotConvertLayer<L: Layer, Q, S, C> where C: Converter<Q, L::Qubit, S, L::Slot> {
    pub layer: L,
    pub phantom: PhantomData<(C, Q, S)>,
}

impl<L: Layer, Q, S, C> QubitSlotConvertLayer<L, Q, S, C> where C: Converter<
    Q,
    L::Qubit,
    S,
    L::Slot,
> {
    pub fn new(layer: L) -> (r: Self)
        ensures
            r.layer == layer,
    {
        QubitSlotConvertLayer { layer, phantom: PhantomData }
    }
}

impl<L: Layer, Q, S, C> Layer for QubitSlotConvertLayer<L, Q, S, C> where
    C: Converter<Q, L::Qubit, S, L::Slot>,
    L::Operation: Clone,
 {
    type Operation = QubitSlotConvertOperation<L, Q, S, C>;

    type Qubit = Q;

    type Slot = S;

    type Var = L::Var;

    type Buffer = QubitSlotConvertLayerBuffer<Self, L, C>;

    type Requested = L::Requested;

    type Response = L::Response;

    fn make_buffer(&self) -> (r: Self::Buffer)
        ensures
            call_ensures(L::make_buffer, (&self.layer,), r.0),
    {
        QubitSlotConvertLayerBuffer(self.layer.make_buffer(), PhantomData)
    }

    /// Unwraps each outer operation into the inner representation and hands
    /// the freshly built sequence to the inner layer, exactly once.
    fn send(&mut self, ops: &[Self::Operation]) -> (r: Self::Requested)
        ensures
            exists|m: &mut L, s: &[L::Operation]|
                {
                    &&& *m == old(self).layer
                    &&& *final(m) == final(self).layer
                    &&& s@.len() == ops@.len()
                    &&& forall|i: int| 0 <= i < ops@.len() ==> cloned(ops@[i].0, #[trigger] s@[i])
                    &&& #[trigger] call_ensures(L::send, (m, s), r)
                },
    {
        let inner = unwrap_ops(ops);
        self.layer.send(inner.as_slice())
    }

    /// Delegates to the inner layer on the wrapped buffer, exactly once.
    fn receive(&mut self, buf: &mut Self::Buffer) -> (r: Self::Response)
        ensures
            exists|m: &mut L, b: &mut L::Buffer|
                {
                    &&& *m == old(self).layer
                    &&& *final(m) == final(self).layer
                    &&& *b == old(buf).0
                    &&& *final(b) == final(buf).0
                    &&& #[trigger] call_ensures(L::receive, (m, b), r)
                },
    {
        self.layer.receive(&mut buf.0)
    }

    /// Unwraps the outer operations and delegates to the inner layer's
    /// combined send and receive, exactly once.
    fn send_receive(&mut self, ops: &[Self::Operation], buf: &mut Self::Buffer) -> (r:
        Self::Response)
        ensures
            exists|m: &mut L, s: &[L::Operation], b: &mut L::Buffer|
                {
                    &&& *m == old(self).layer
                    &&& *final(m) == final(self).layer
                    &&& s@.len() == ops@.len()
                    &&& forall|i: int| 0 <= i < ops@.len() ==> cloned(ops@[i].0, #[trigger] s@[i])
                    &&& *b == old(buf).0
                    &&& *final(b) == final(buf).0
                    &&& #[trigger] call_ensures(L::send_receive, (m, s, b), r)
                },
    {
        let inner = unwrap_ops(ops);
        self.layer.send_receive(inner.as_slice(), &mut buf.0)
    }
}

/// Builds the inner operation sequence that a batch of outer operations
/// stands for, by unwrapping (cloning) each element in order.
fn unwrap_ops<L: Layer, Q, S, C>(ops: &[QubitSlotConvertOperation<L, Q, S, C>]) -> (r: Vec<
    L::Operation,
>) where C: Converter<Q, L::Qubit, S, L::Slot>, L::Operation: Clone
    ensures
        r@.len() == ops@.len(),
        forall|i: int| 0 <= i < ops@.len() ==> cloned(ops@[i].0, #[trigger] r@[i]),
{
    let mut inner: Vec<L::Operation> = Vec::new();
    let mut j: usize = 0;
    while j < ops.len()
        invariant
            j <= ops@.len(),
            inner@.len() == j,
            forall|i: int| 0 <= i < j ==> cloned(ops@[i].0, #[trigger] inner@[i]),
        decreases ops@.len() - j,
    {
        inner.push(ops[j].0.clone());
        j = j + 1;
    }
    inner
}

impl<L: Layer + PauliGate, Q, S, C> PauliGate for QubitSlotConvertLayer<L, Q, S, C> where
    C: Converter<Q, L::Qubit, S, L::Slot>,
    L::Operation: Clone,
 {

}

impl<L: Layer + HGate, Q, S, C> HGate for QubitSlotConvertLayer<L, Q, S, C> where
    C: Converter<Q, L::Qubit, S, L::Slot>,
    L::Operation: Clone,
 {

}

impl<L: Layer + SGate, Q, S, C> SGate for QubitSlotConvertLayer<L, Q, S, C> where
    C: Converter<Q, L::Qubit, S, L::Slot>,
    L::Operation: Clone,
 {

}

impl<L: Layer + TGate, Q, S, C> TGate for QubitSlotConvertLayer<L, Q, S, C> where
    C: Converter<Q, L::Qubit, S, L::Slot>,
    L::Operation: Clone,
 {

}

impl<L: Layer + CXGate, Q, S, C> CXGate for QubitSlotConvertLayer<L, Q, S, C> where
    C: Converter<Q, L::Qubit, S, L::Slot>,
    L::Operation: Clone,
 {

}

/// The outer operation representation: a true wrapper holding the inner
/// operation value, whose addresses were already converted when the
/// operation was constructed.
pub struct QubitSlotConvertOperation<L: Layer, Q, S, C>(
    pub L::Operation,
    pub PhantomData<(Q, S, C)>,
);

impl<L: Layer, Q, S, C> QubitSlotConvertOperation<L, Q, S, C> where C: Converter<
    Q,
    L::Qubit,
    S,
    L::Slot,
> {
    fn new(op: L::Operation) -> (r: Self)
        ensures
            r.0 == op,
    {
        QubitSlotConvertOperation(op, PhantomData)
    }
}

impl<L: Layer, Q, S, C> Clone for QubitSlotConvertOperation<L, Q, S, C> where
    L::Operation: Clone,
 {
    /// Clones the wrapped inner operation.
    fn clone(&self) -> (r: Self)
        ensures
            cloned(self.0, r.0),
    {
        QubitSlotConvertOperation(self.0.clone(), PhantomData)
    }
}

impl<L: Layer, Q, S, C> Operation<QubitSlotConvertLayer<L, Q, S, C>> for QubitSlotConvertOperation<
    L,
    Q,
    S,
    C,
> where
    C: Converter<Q, L::Qubit, S, L::Slot>,
    L::Operation: Operation<L>,
    L::Operation: Clone,
 {
    open spec fn spec_initialize() -> Self {
        QubitSlotConvertOperation(<L::Operation as Operation<L>>::spec_initialize(), PhantomData)
    }

    open spec fn spec_measure(q: Q, s: S) -> Self {
        QubitSlotConvertOperation(
            <L::Operation as Operation<L>>::spec_measure(C::spec_qconv(q), C::spec_sconv(s)),
            PhantomData,
        )
    }

    fn initialize() -> Self {
        Self::new(L::Operation::initialize())
    }

    fn measure(q: Q, s: S) -> Self {
        Self::new(L::Operation::measure(C::qconv(q), C::sconv(s)))
    }
}

impl<L: Layer + PauliGate, Q, S, C> PauliOperation<QubitSlotConvertLayer<L, Q, S, C>> for QubitSlotConvertOperation<
    L,
    Q,
    S,
    C,
> where
    C: Converter<Q, L::Qubit, S, L::Slot>,
    L::Operation: PauliOperation<L>,
    L::Operation: Clone,
 {
    open spec fn spec_x(q: Q) -> Self {
        QubitSlotConvertOperation(
            <L::Operation as PauliOperation<L>>::spec_x(C::spec_qconv(q)),
            PhantomData,
        )
    }

    open spec fn spec_y(q: Q) -> Self {
        QubitSlotConvertOperation(
            <L::Operation as PauliOperation<L>>::spec_y(C::spec_qconv(q)),
            PhantomData,
        )
    }

    open spec fn spec_z(q: Q) -> Self {
        QubitSlotConvertOperation(
            <L::Operation as PauliOperation<L>>::spec_z(C::spec_qconv(q)),
            PhantomData,
        )
    }

    fn x(q: Q) -> Self {
        Self::new(L::Operation::x(C::qconv(q)))
    }

    fn y(q: Q) -> Self {
        Self::new(L::Operation::y(C::qconv(q)))
    }

    fn z(q: Q) -> Self {
        Self::new(L::Operation::z(C::qconv(q)))
    }
}

impl<L: Layer + HGate, Q, S, C> HOperation<QubitSlotConvertLayer<L, Q, S, C>> for QubitSlotConvertOperation<
    L,
    Q,
    S,
    C,
> where
    C: Converter<Q, L::Qubit, S, L::Slot>,
    L::Operation: HOperation<L>,
    L::Operation: Clone,
 {
    open spec fn spec_h(q: Q) -> Self {
        QubitSlotConvertOperation(
            <L::Operation as HOperation<L>>::spec_h(C::spec_qconv(q)),
            PhantomData,
        )
    }

    fn h(q: Q) -> Self {
        Self::new(L::Operation::h(C::qconv(q)))
    }
}

impl<L: Layer + SGate, Q, S, C> SOperation<QubitSlotConvertLayer<L, Q, S, C>> for QubitSlotConvertOperation<
    L,
    Q,
    S,
    C,
> where
    C: Converter<Q, L::Qubit, S, L::Slot>,
    L::Operation: SOperation<L>,
    L::Operation: Clone,
 {
    open spec fn spec_s(q: Q) -> Self {
        QubitSlotConvertOperation(
            <L::Operation as SOperation<L>>::spec_s(C::spec_qconv(q)),
            PhantomData,
        )
    }

    open spec fn spec_sdg(q: Q) -> Self {
        QubitSlotConvertOperation(
            <L::Operation as SOperation<L>>::spec_sdg(C::spec_qconv(q)),
            PhantomData,
        )
    }

    fn s(q: Q) -> Self {
        Self::new(L::Operation::s(C::qconv(q)))
    }

    fn sdg(q: Q) -> Self {
        Self::new(L::Operation::sdg(C::qconv(q)))
    }
}

impl<L: Layer + TGate, Q, S, C> TOperation<QubitSlotConvertLayer<L, Q, S, C>> for QubitSlotConvertOperation<
    L,
    Q,
    S,
    C,
> where
    C: Converter<Q, L::Qubit, S, L::Slot>,
    L::Operation: TOperation<L>,
    L::Operation: Clone,
 {
    open spec fn spec_t(q: Q) -> Self {
        QubitSlotConvertOperation(
            <L::Operation as TOperation<L>>::spec_t(C::spec_qconv(q)),
            PhantomData,
        )
    }

    open spec fn spec_tdg(q: Q) -> Self {
        QubitSlotConvertOperation(
            <L::Operation as TOperation<L>>::spec_tdg(C::spec_qconv(q)),
            PhantomData,
        )
    }

    fn t(q: Q) -> Self {
        Self::new(L::Operation::t(C::qconv(q)))
    }

    fn tdg(q: Q) -> Self {
        Self::new(L::Operation::tdg(C::qconv(q)))
    }
}

impl<L: Layer + CXGate, Q, S, C> CXOperation<QubitSlotConvertLayer<L, Q, S, C>> for QubitSlotConvertOperation<
    L,
    Q,
    S,
    C,
> where
    C: Converter<Q, L::Qubit, S, L::Slot>,
    L::Operation: CXOperation<L>,
    L::Operation: Clone,
 {
    open spec fn spec_cx(c: Q, t: Q) -> Self {
        QubitSlotConvertOperation(
            <L::Operation as CXOperation<L>>::spec_cx(C::spec_qconv(c), C::spec_qconv(t)),
            PhantomData,
        )
    }

    fn cx(c: Q, t: Q) -> Self {
        Self::new(L::Operation::cx(C::qconv(c), C::qconv(t)))
    }
}

/// Wraps the inner layer's buffer; reading a slot converts the outer slot
/// address to the inner one on every access.
pub struct QubitSlotConvertLayerBuffer<Conv, L: Layer, C>(pub L::Buffer, pub PhantomData<(Conv, C)>);

impl<Conv: Layer, L: Layer, C> Measured for QubitSlotConvertLayerBuffer<Conv, L, C> where
    C: Converter<Conv::Qubit, L::Qubit, Conv::Slot, L::Slot>,
 {
    type Slot = Conv::Slot;

    open spec fn bit(&self, n: Conv::Slot) -> bool {
        self.0.bit(C::spec_sconv(n))
    }

    fn get(&self, n: Conv::Slot) -> (r: bool) {
        self.0.get(C::sconv(n))
    }
}

/// Folds a two-dimensional address `(x, y)` into the linear index
/// `x + y * W` for a fixed grid width `W`, wrapping modulo `u32`.
pub struct SerializationLayerConverterU32<const W: u32>();

impl<const W: u32> Converter<(u32, u32), u32, (u32, u32), u32> for SerializationLayerConverterU32<
    W,
> {
    open spec fn spec_qconv(q: (u32, u32)) -> u32 {
        (((q.0 + q.1 * W) as int) % 0x100000000) as u32
    }

    open spec fn spec_sconv(s: (u32, u32)) -> u32 {
        (((s.0 + s.1 * W) as int) % 0x100000000) as u32
    }

    fn qconv(q: (u32, u32)) -> (r: u32) {
        proof {
            lemma_wrapping_linear_index(q.0, q.1, W);
        }
        q.0.wrapping_add(q.1.wrapping_mul(W))
    }

    fn sconv(s: (u32, u32)) -> (r: u32) {
        proof {
            lemma_wrapping_linear_index(s.0, s.1, W);
        }
        s.0.wrapping_add(s.1.wrapping_mul(W))
    }
}

/// The wrapping composition `x + (y * w mod 2^32) mod 2^32` computes the
/// linear index `x + y * w` modulo `2^32`.
proof fn lemma_wrapping_linear_index(x: u32, y: u32, w: u32)
    ensures
        vstd::wrapping::u32_specs::wrapping_add(
            x,
            vstd::wrapping::u32_specs::wrapping_mul(y, w),
        ) as int == ((x + y * w) as int) % 0x100000000,
{
    let m: int = 0x100000000;
    let p: int = y as int * w as int;
    lemma_add_mod_noop_right(x as int, p, m);
    let total: int = x as int + p % m;
    if total >= m {
        lemma_fundamental_div_mod_converse(total, m, 1, total - m);
    } else {
        lemma_small_mod(total as nat, m as nat);
    }
    lemma_small_mod(((x + y * w) as int % m) as nat, m as nat);
}

/// Law: within the grid (first coordinate below `W`) and the `u32` range,
/// the serialization converter maps `(x, y)` to exactly `x + y * W`.
pub proof fn lemma_serialization_converter_exact<const W: u32>(x: u32, y: u32)
    requires
        x + y * W <= u32::MAX,
    ensures
        SerializationLayerConverterU32::<W>::spec_qconv((x, y)) == x + y * W,
        SerializationLayerConverterU32::<W>::spec_sconv((x, y)) == x + y * W,
{
    lemma_small_mod((x + y * W) as nat, 0x100000000);
}

/// Law: distinct in-grid coordinates map to distinct linear indices.
pub proof fn lemma_serialization_converter_injective<const W: u32>(a: (u32, u32), b: (u32, u32))
    requires
        a.0 < W,
        b.0 < W,
        a.0 + a.1 * W <= u32::MAX,
        b.0 + b.1 * W <= u32::MAX,
        a != b,
    ensures
        SerializationLayerConverterU32::<W>::spec_qconv(a) != SerializationLayerConverterU32::<
            W,
        >::spec_qconv(b),
{
    lemma_serialization_converter_exact::<W>(a.0, a.1);
    lemma_serialization_converter_exact::<W>(b.0, b.1);
    if a.0 + a.1 * W == b.0 + b.1 * W {
        let t: int = a.0 + a.1 * W;
        lemma_fundamental_div_mod_converse(t, W as int, a.1 as int, a.0 as int);
        lemma_fundamental_div_mod_converse(t, W as int, b.1 as int, b.0 as int);
    }
}

/// An address-remapping layer over the grid converter of width `W`.
pub type SerializationLayer<L, const W: u32> = QubitSlotConvertLayer<
    L,
    (u32, u32),
    (u32, u32),
    SerializationLayerConverterU32<W>,
>;

} // verus!
