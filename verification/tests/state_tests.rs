use slate::state::{Store, AtomicInstruction, StatePrimitive};
use slate::bridge::NodeId;

#[test]
fn create_then_attach_is_deterministic() {
    let mut a = Store::new();
    let mut b = Store::new();

    let ops = [
        AtomicInstruction::State(StatePrimitive::NodeCreate { node: NodeId(1) }),
        AtomicInstruction::State(StatePrimitive::NodeCreate { node: NodeId(2) }),
        AtomicInstruction::State(StatePrimitive::NodeAttach { node: NodeId(2), parent: NodeId(1), index: 0 }),
    ];

    for op in &ops {
        a.apply(op);
    }
    for op in &ops {
        b.apply(op);
    }

    assert_eq!(a.version(), b.version());
    assert_eq!(a.snapshot().root, b.snapshot().root);
    assert_eq!(a.node_count(), 2);
}

#[test]
fn root_is_the_unattached_live_node() {
    let mut s = Store::new();
    assert_eq!(s.snapshot().root, None);
    s.apply(&AtomicInstruction::State(StatePrimitive::NodeCreate { node: NodeId(1) }));
    s.apply(&AtomicInstruction::State(StatePrimitive::NodeCreate { node: NodeId(2) }));
    s.apply(&AtomicInstruction::State(StatePrimitive::NodeAttach { node: NodeId(2), parent: NodeId(1), index: 5 }));
    assert_eq!(s.snapshot().root, Some(NodeId(1)));
    s.apply(&AtomicInstruction::State(StatePrimitive::NodeDetach { node: NodeId(1) }));
    assert_eq!(s.snapshot().root, None);
    assert_eq!(s.version(), 4);
    // Layout and render instructions leave the nodes alone but still count.
    s.apply(&AtomicInstruction::Layout);
    assert_eq!(s.version(), 5);
    assert_eq!(s.node_count(), 2);
    s.apply(&AtomicInstruction::State(StatePrimitive::AttrBind { node: NodeId(2), key: 7, value: 9 }));
    s.apply(&AtomicInstruction::State(StatePrimitive::SignalEmit { node: NodeId(2), signal: 1 }));
    assert_eq!(s.snapshot().version, 7);
    assert_eq!(s.snapshot().node_count, 2);
}

#[test]
fn same_instructions_give_same_state() {
    let ops = [
        AtomicInstruction::State(StatePrimitive::NodeCreate { node: NodeId(1) }),
        AtomicInstruction::State(StatePrimitive::NodeCreate { node: NodeId(1) }),
        AtomicInstruction::State(StatePrimitive::NodeCreate { node: NodeId(3) }),
        AtomicInstruction::State(StatePrimitive::NodeAttach { node: NodeId(3), parent: NodeId(1), index: 0 }),
        AtomicInstruction::Render,
        AtomicInstruction::State(StatePrimitive::NodeDetach { node: NodeId(3) }),
        AtomicInstruction::State(StatePrimitive::AttrBind { node: NodeId(1), key: 2, value: 5 }),
    ];
    let mut a = Store::new();
    let mut b = Store::new();
    for op in &ops {
        a.apply(op);
        b.apply(op);
        assert_eq!(a.version(), b.version());
        assert_eq!(a.node_count(), b.node_count());
    }
    assert_eq!(a.node_count(), 3);
    assert_eq!(a.version(), 7);
    let sa = a.snapshot();
    let sb = b.snapshot();
    assert_eq!((sa.version, sa.node_count), (sb.version, sb.node_count));
}

#[test]
fn root_is_the_first_root_in_slot_order() {
    let mut s = Store::new();
    s.apply(&AtomicInstruction::State(StatePrimitive::NodeCreate { node: NodeId(9) }));
    s.apply(&AtomicInstruction::State(StatePrimitive::NodeCreate { node: NodeId(4) }));
    s.apply(&AtomicInstruction::State(StatePrimitive::NodeCreate { node: NodeId(6) }));
    assert_eq!(s.snapshot().root(), Some(NodeId(9)));
    s.apply(&AtomicInstruction::State(StatePrimitive::NodeDetach { node: NodeId(9) }));
    assert_eq!(s.snapshot().root(), Some(NodeId(4)));
    assert_eq!(s.snapshot().version(), 4);
    assert_eq!(s.snapshot().node_count(), 3);
}
