use lay::{Layer, Measured, OpsVec};
use lay::gates::{PauliGate, HGate, SGate, TGate, CXGate};
use lay::operations::OpArgs;
use lay::operations::opid;

#[derive(Debug, PartialEq)]
struct FullBackend;

#[derive(Debug, PartialEq)]
struct NullBuffer;

impl Measured for NullBuffer {
    type Slot = u32;

    fn bit(&self, _n: u32) -> bool {
        false
    }

    fn get(&self, _n: u32) -> bool {
        false
    }
}

impl Layer for FullBackend {
    type Operation = OpArgs<FullBackend>;
    type Qubit = u32;
    type Slot = u32;
    type Var = ();
    type Buffer = NullBuffer;
    type Requested = ();
    type Response = ();

    fn send(&mut self, _ops: &[OpArgs<FullBackend>]) {}

    fn receive(&mut self, _buf: &mut NullBuffer) {}

    fn make_buffer(&self) -> NullBuffer {
        NullBuffer
    }
}

impl PauliGate for FullBackend {}
impl HGate for FullBackend {}
impl SGate for FullBackend {}
impl TGate for FullBackend {}
impl CXGate for FullBackend {}

#[test]
fn it_works() {
    assert_eq!(2 + 2, 4);
}

#[test]
fn opsvec_appends_in_order() {
    let mut ops: OpsVec<FullBackend> = OpsVec::new();
    ops.initialize();
    ops.x(0);
    ops.y(1);
    ops.z(2);
    ops.h(3);
    ops.s(4);
    ops.sdg(5);
    ops.t(6);
    ops.tdg(7);
    ops.cx(8, 9);
    ops.measure(0, 0);
    assert_eq!(ops.len(), 11);
    let expected = vec![
        OpArgs::Empty(opid::INIT),
        OpArgs::Q(opid::X, 0),
        OpArgs::Q(opid::Y, 1),
        OpArgs::Q(opid::Z, 2),
        OpArgs::Q(opid::H, 3),
        OpArgs::Q(opid::S, 4),
        OpArgs::Q(opid::SDG, 5),
        OpArgs::Q(opid::T, 6),
        OpArgs::Q(opid::TDG, 7),
        OpArgs::QQ(opid::CX, 8, 9),
        OpArgs::QS(opid::MEAS, 0, 0),
    ];
    assert_eq!(ops.as_slice(), expected.as_slice());
}

#[test]
fn opsvec_iter_restartable_and_ordered() {
    let mut ops: OpsVec<FullBackend> = OpsVec::new();
    ops.x(10);
    ops.y(20);
    ops.z(30);
    let first: Vec<&OpArgs<FullBackend>> = ops.iter().collect();
    assert_eq!(first.len(), 3);
    assert_eq!(first[0], &OpArgs::Q(opid::X, 10));
    assert_eq!(first[1], &OpArgs::Q(opid::Y, 20));
    assert_eq!(first[2], &OpArgs::Q(opid::Z, 30));
    // a second, independent iteration sees the same sequence
    let second: Vec<&OpArgs<FullBackend>> = ops.iter().collect();
    assert_eq!(first, second);
}

#[test]
fn opsvec_clear_and_vec_roundtrip() {
    let mut ops: OpsVec<FullBackend> = OpsVec::new();
    assert_eq!(ops.len(), 0);
    ops.h(1);
    ops.h(2);
    assert_eq!(ops.len(), 2);
    ops.clear();
    assert_eq!(ops.len(), 0);
    assert_eq!(ops.as_slice(), &[]);

    let raw = vec![OpArgs::Q(opid::X, 4), OpArgs::Empty(opid::INIT)];
    let from: OpsVec<FullBackend> = OpsVec::from_vec(raw);
    assert_eq!(from.len(), 2);
    assert_eq!(from.as_vec().len(), 2);
    let back = from.into_vec();
    assert_eq!(back, vec![OpArgs::Q(opid::X, 4), OpArgs::Empty(opid::INIT)]);
}

#[test]
fn opsvec_mut_views() {
    let mut ops: OpsVec<FullBackend> = OpsVec::new();
    ops.x(1);
    ops.x(2);
    {
        let slice = ops.as_mut_slice();
        slice[0] = OpArgs::Q(opid::Y, 1);
    }
    assert_eq!(ops.as_slice()[0], OpArgs::Q(opid::Y, 1));
    {
        let v = ops.as_mut_vec();
        v.push(OpArgs::Q(opid::Z, 3));
    }
    assert_eq!(ops.len(), 3);
    assert_eq!(ops.as_slice()[2], OpArgs::Q(opid::Z, 3));
}

#[test]
fn opid_values_are_stable() {
    assert_eq!(opid::INIT, 1);
    assert_eq!(opid::MEAS, 2);
    assert_eq!(opid::X, 3);
    assert_eq!(opid::Y, 4);
    assert_eq!(opid::Z, 5);
    assert_eq!(opid::H, 6);
    assert_eq!(opid::S, 7);
    assert_eq!(opid::SDG, 8);
    assert_eq!(opid::T, 9);
    assert_eq!(opid::TDG, 10);
    assert_eq!(opid::CX, 11);
    assert_eq!(opid::USERDEF, 256);
}

#[test]
fn opargs_extension_payload_is_transported() {
    // an extension operation carries a backend-defined payload untouched
    let op: OpArgs<FullBackend> = OpArgs::Var(opid::USERDEF, ());
    match op {
        OpArgs::Var(code, ()) => assert_eq!(code, 256),
        _ => panic!("wrong variant"),
    }
}

#[test]
fn opargs_clone_keeps_value() {
    let op: OpArgs<FullBackend> = OpArgs::QQ(opid::CX, 3, 4);
    let copy = op.clone();
    assert_eq!(op, copy);
    let rot: OpArgs<FullBackend> = OpArgs::QF(300, 1, 0.5f32.to_bits());
    let rot_copy = rot.clone();
    assert_eq!(rot, rot_copy);
}
