use lay::{Layer, Measured, OpsVec, TransparentLayer};
use lay::gates::{PauliGate, HGate, SGate, TGate, CXGate};
use lay::operations::OpArgs;
use lay::operations::opid;
use lay::convert::{Converter, QubitSlotConvertLayer, SerializationLayer, SerializationLayerConverterU32};
use lay::inject::{InjectLayer, InjectOperation};
use lay::inspect::InspectLayer;

/// A grid of qubits that flips on X, records measurements at send time, and
/// copies the recorded bits into the buffer at receive time.
#[derive(Debug, PartialEq)]
struct Grid {
    qubits: Vec<bool>,
    recorded: Vec<bool>,
    seen: Vec<OpArgs<Grid>>,
}

impl Grid {
    fn new(n: usize) -> Grid {
        Grid { qubits: vec![false; n], recorded: Vec::new(), seen: Vec::new() }
    }
}

#[derive(Debug, PartialEq)]
struct GridBuffer {
    bits: Vec<bool>,
}

impl Measured for GridBuffer {
    type Slot = u32;

    fn bit(&self, n: u32) -> bool {
        self.bits.get(n as usize).copied().unwrap_or(false)
    }

    fn get(&self, n: u32) -> bool {
        self.bits.get(n as usize).copied().unwrap_or(false)
    }
}

impl Layer for Grid {
    type Operation = OpArgs<Grid>;
    type Qubit = u32;
    type Slot = u32;
    type Var = ();
    type Buffer = GridBuffer;
    type Requested = ();
    type Response = ();

    fn send(&mut self, ops: &[OpArgs<Grid>]) {
        for op in ops {
            self.seen.push(op.clone());
            match op {
                OpArgs::Empty(c) if *c == opid::INIT => {
                    for q in self.qubits.iter_mut() {
                        *q = false;
                    }
                }
                OpArgs::Q(c, q) if *c == opid::X => {
                    let q = *q as usize;
                    self.qubits[q] = !self.qubits[q];
                }
                OpArgs::QS(c, q, s) if *c == opid::MEAS => {
                    let s = *s as usize;
                    if self.recorded.len() <= s {
                        self.recorded.resize(s + 1, false);
                    }
                    self.recorded[s] = self.qubits[*q as usize];
                }
                _ => {}
            }
        }
    }

    fn receive(&mut self, buf: &mut GridBuffer) {
        buf.bits = self.recorded.clone();
    }

    fn make_buffer(&self) -> GridBuffer {
        GridBuffer { bits: Vec::new() }
    }
}

impl PauliGate for Grid {}
impl HGate for Grid {}
impl SGate for Grid {}
impl TGate for Grid {}
impl CXGate for Grid {}

#[test]
fn end_to_end_flip_and_measure() {
    let mut backend = Grid::new(1);
    let mut ops: OpsVec<Grid> = OpsVec::new();
    ops.initialize();
    ops.x(0);
    ops.measure(0, 0);
    let mut buf = backend.make_buffer();
    backend.send_receive(ops.as_slice(), &mut buf);
    assert!(buf.get(0));
}

#[test]
fn convert_layer_remaps_qubit_addresses() {
    let mut conv: SerializationLayer<Grid, 4> = QubitSlotConvertLayer::new(Grid::new(8));
    let mut ops: OpsVec<SerializationLayer<Grid, 4>> = OpsVec::new();
    ops.x((1, 0));
    conv.send(ops.as_slice());
    // the inner backend observed x(1): 1 + 0*4
    assert_eq!(conv.layer.seen, vec![OpArgs::Q(opid::X, 1)]);
}

#[test]
fn convert_layer_end_to_end_on_grid() {
    let mut conv: SerializationLayer<Grid, 4> = QubitSlotConvertLayer::new(Grid::new(8));
    let mut ops: OpsVec<SerializationLayer<Grid, 4>> = OpsVec::new();
    ops.initialize();
    ops.x((1, 1));
    ops.measure((1, 1), (2, 0));
    let mut buf = conv.make_buffer();
    conv.send_receive(ops.as_slice(), &mut buf);
    // the measured bit of inner qubit 5 landed in inner slot 2, and the
    // measured view remaps the outer slot (2, 0) to it on every get
    assert!(buf.get((2, 0)));
    assert!(!buf.get((0, 0)));
    assert_eq!(conv.layer.seen.len(), 3);
    assert_eq!(conv.layer.seen[1], OpArgs::Q(opid::X, 5));
    assert_eq!(conv.layer.seen[2], OpArgs::QS(opid::MEAS, 5, 2));
}

#[test]
fn convert_layer_gates_compose_through_builder() {
    // every capability of the inner layer is available on the wrapper
    let mut ops: OpsVec<SerializationLayer<Grid, 4>> = OpsVec::new();
    ops.initialize();
    ops.x((0, 0));
    ops.y((1, 0));
    ops.z((2, 0));
    ops.h((3, 0));
    ops.s((0, 1));
    ops.sdg((1, 1));
    ops.t((2, 1));
    ops.tdg((3, 1));
    ops.cx((0, 0), (1, 0));
    ops.measure((0, 0), (0, 0));
    let mut conv: SerializationLayer<Grid, 4> = QubitSlotConvertLayer::new(Grid::new(16));
    conv.send(ops.as_slice());
    assert_eq!(conv.layer.seen[4], OpArgs::Q(opid::H, 3));
    assert_eq!(conv.layer.seen[5], OpArgs::Q(opid::S, 4));
    assert_eq!(conv.layer.seen[9], OpArgs::QQ(opid::CX, 0, 1));
}

#[test]
fn serialization_converter_linear_index() {
    type Conv = SerializationLayerConverterU32<4>;
    assert_eq!(<Conv as Converter<(u32, u32), u32, (u32, u32), u32>>::qconv((1, 2)), 9);
    assert_eq!(<Conv as Converter<(u32, u32), u32, (u32, u32), u32>>::sconv((3, 1)), 7);
    assert_eq!(<Conv as Converter<(u32, u32), u32, (u32, u32), u32>>::qconv((0, 0)), 0);
    // outside the u32 range the index wraps: 0x40000000 * 4 is 2^32
    assert_eq!(<Conv as Converter<(u32, u32), u32, (u32, u32), u32>>::qconv((5, 0x40000000)), 5);
}

/// A backend that counts how often each dispatch call reaches it.
#[derive(Debug, PartialEq)]
struct Counter {
    sends: u32,
    receives: u32,
    send_receives: u32,
}

#[derive(Debug, PartialEq)]
struct CounterBuffer;

impl Measured for CounterBuffer {
    type Slot = u32;

    fn bit(&self, _n: u32) -> bool {
        false
    }

    fn get(&self, _n: u32) -> bool {
        false
    }
}

impl Layer for Counter {
    type Operation = u8;
    type Qubit = u32;
    type Slot = u32;
    type Var = ();
    type Buffer = CounterBuffer;
    type Requested = u32;
    type Response = u32;

    fn send(&mut self, _ops: &[u8]) -> u32 {
        self.sends += 1;
        0
    }

    fn receive(&mut self, _buf: &mut CounterBuffer) -> u32 {
        self.receives += 1;
        0
    }

    fn make_buffer(&self) -> CounterBuffer {
        CounterBuffer
    }
}

#[test]
fn inspect_layer_fires_each_hook_once() {
    let mut insp = InspectLayer::new(
        Counter { sends: 0, receives: 0, send_receives: 0 },
        |l: &mut Counter, ops: &[u8]| {
            l.sends += 1;
            100 + ops.len() as u32
        },
        |l: &mut Counter, _b: &mut CounterBuffer| {
            l.receives += 1;
            200
        },
        |l: &mut Counter, ops: &[u8], _b: &mut CounterBuffer| {
            l.send_receives += 1;
            300 + ops[0] as u32
        },
    );
    let r = insp.send(&[1, 2, 3]);
    assert_eq!(r, 103);
    assert_eq!(insp.layer, Counter { sends: 1, receives: 0, send_receives: 0 });

    let mut buf = insp.make_buffer();
    let r = insp.receive(&mut buf);
    assert_eq!(r, 200);
    assert_eq!(insp.layer, Counter { sends: 1, receives: 1, send_receives: 0 });

    // the send-receive hook is the whole call: no extra dispatch happens
    let r = insp.send_receive(&[9], &mut buf);
    assert_eq!(r, 309);
    assert_eq!(insp.layer, Counter { sends: 1, receives: 1, send_receives: 1 });
}

#[test]
fn inject_layer_fires_hooks_on_unwrapped_operations() {
    let mut inj = InjectLayer::new(
        Counter { sends: 0, receives: 0, send_receives: 0 },
        |l: &mut Counter, ops: &[u8]| {
            l.sends += 1;
            ops[0] as u32
        },
        |l: &mut Counter, _b: &mut CounterBuffer| {
            l.receives += 1;
            400
        },
        |l: &mut Counter, ops: &[u8], _b: &mut CounterBuffer| {
            l.send_receives += 1;
            500 + ops.len() as u32
        },
    );
    let r = inj.send(&[InjectOperation::new(7), InjectOperation::new(8)]);
    assert_eq!(r, 7);
    assert_eq!(inj.layer, Counter { sends: 1, receives: 0, send_receives: 0 });

    let mut buf = inj.make_buffer();
    let r = inj.receive(&mut buf);
    assert_eq!(r, 400);
    let r = inj.send_receive(&[InjectOperation::new(1)], &mut buf);
    assert_eq!(r, 501);
    assert_eq!(inj.layer, Counter { sends: 1, receives: 1, send_receives: 1 });
}

#[test]
fn inspect_layer_forwards_calls_to_grid() {
    // hooks that forward reproduce the plain backend behaviour
    let mut insp = InspectLayer::new(
        Grid::new(2),
        |l: &mut Grid, ops: &[OpArgs<Grid>]| l.send(ops),
        |l: &mut Grid, b: &mut GridBuffer| l.receive(b),
        |l: &mut Grid, ops: &[OpArgs<Grid>], b: &mut GridBuffer| l.send_receive(ops, b),
    );
    // the inspect layer keeps the inner operation type unchanged, so the
    // batch is built with the inner layer's own capabilities
    let mut ops: OpsVec<Grid> = OpsVec::new();
    ops.initialize();
    ops.x(0);
    ops.measure(0, 1);
    let mut buf = insp.make_buffer();
    insp.send_receive(ops.as_slice(), &mut buf);
    assert!(buf.get(1));
    assert!(!buf.get(0));
    assert_eq!(insp.layer.seen.len(), 3);
}

#[test]
fn stacked_wrappers_keep_the_contract() {
    // an inspect layer over a convert layer over the grid
    let conv: SerializationLayer<Grid, 4> = QubitSlotConvertLayer::new(Grid::new(8));
    let mut insp = InspectLayer::new(
        conv,
        |l: &mut SerializationLayer<Grid, 4>, ops| l.send(ops),
        |l: &mut SerializationLayer<Grid, 4>, b| l.receive(b),
        |l: &mut SerializationLayer<Grid, 4>, ops, b| l.send_receive(ops, b),
    );
    let mut ops: OpsVec<SerializationLayer<Grid, 4>> = OpsVec::new();
    ops.initialize();
    ops.x((3, 1));
    ops.measure((3, 1), (0, 0));
    let mut buf = insp.make_buffer();
    insp.send_receive(ops.as_slice(), &mut buf);
    assert!(buf.get((0, 0)));
    assert_eq!(insp.layer.layer.seen[1], OpArgs::Q(opid::X, 7));
}

#[test]
fn transparent_layer_is_identity() {
    // stacked transparent decorators change nothing
    let mut t = TransparentLayer::new(TransparentLayer::new(Grid::new(1)));
    let mut ops: OpsVec<Grid> = OpsVec::new();
    ops.initialize();
    ops.x(0);
    ops.measure(0, 0);
    let mut buf = t.make_buffer();
    t.send_receive(ops.as_slice(), &mut buf);
    assert!(buf.get(0));
    assert_eq!(t.base.base.seen.len(), 3);
}

#[test]
fn inject_layer_retags_operations() {
    // gated builder methods are available at the inject-layer type itself,
    // through its re-tagged operation wrapper
    let mut inj = InjectLayer::new(
        Grid::new(2),
        |l: &mut Grid, ops: &[OpArgs<Grid>]| l.send(ops),
        |l: &mut Grid, b: &mut GridBuffer| l.receive(b),
        |l: &mut Grid, ops: &[OpArgs<Grid>], b: &mut GridBuffer| l.send_receive(ops, b),
    );
    let mut ops: OpsVec<InjectLayer<Grid, _, _, _>> = OpsVec::new();
    ops.initialize();
    ops.x(1);
    ops.measure(1, 0);
    let mut buf = inj.make_buffer();
    inj.send_receive(ops.as_slice(), &mut buf);
    assert!(buf.get(0));
    assert_eq!(inj.layer.seen[1], OpArgs::Q(opid::X, 1));
}
