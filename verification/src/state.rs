//! The state store: nodes created, attached and detached by state instructions,
//! attribute bindings, and a version that counts the instructions applied.
use vstd::prelude::*;
use std::sync::Arc;
use slotmap::{SlotMap, DefaultKey, Key, KeyData};
use dashmap::DashMap;
use crate::bridge::NodeId;

verus! {

/// slotmap's default key, carried as it is.
#[verifier::external_type_specification]
#[verifier::external_body]
pub struct ExDefaultKey(slotmap::DefaultKey);

/// dashmap's concurrent map, carried as it is.
#[verifier::external_type_specification]
#[verifier::external_body]
#[verifier::reject_recursive_types(K)]
#[verifier::reject_recursive_types(V)]
#[verifier::reject_recursive_types(S)]
pub struct ExDashMap<K, V, S>(dashmap::DashMap<K, V, S>);

/// The arena the nodes live in: a slotmap arena, reached only through the
/// functions below.
#[verifier::external_body]
pub struct NodeArena {
    slots: SlotMap<DefaultKey, Node>,
}

/// The arena key of each node ID.
pub type NodeIndex = DashMap<NodeId, DefaultKey>;

/// Attribute values by node and attribute key.
pub type AttrTable = DashMap<(NodeId, u32), u32>;

/// A node of the tree.
#[derive(Debug, Clone)]
pub struct Node {
    pub id: NodeId,
    pub parent: Option<NodeId>,
    pub children: Vec<NodeId>,
    pub detached: bool,
}

/// A node's contents as plain values.
pub open spec fn node_view(n: Node) -> (NodeId, Option<NodeId>, Seq<NodeId>, bool) {
    (n.id, n.parent, n.children@, n.detached)
}

/// The nodes an arena holds, by the 64-bit code of their keys (slotmap's `KeyData::as_ffi`).
pub uninterp spec fn arena_nodes(m: NodeArena) -> Map<u64, Node>;

/// The arena key code each node ID is indexed under.
pub uninterp spec fn index_codes(m: NodeIndex) -> Map<NodeId, u64>;

/// The attribute values by node and attribute key.
pub uninterp spec fn attr_values(m: AttrTable) -> Map<(NodeId, u32), u32>;

/// Whether a key code is one that slotmap gives an occupied slot: its version half is odd.
pub open spec fn is_live_code(c: u64) -> bool {
    (c / 0x1_0000_0000) % 2 == 1
}

/// An empty arena (slotmap's `SlotMap::new`).
#[verifier::external_body]
fn arena_new() -> (r: NodeArena)
    ensures
        arena_nodes(r).dom() == Set::<u64>::empty(),
{
    NodeArena { slots: SlotMap::new() }
}

/// Store a node under a fresh key (slotmap's `SlotMap::insert`); the key's code is
/// returned. A key is never handed out while another node holds it, and the slot
/// it names is occupied, so its version is odd. slotmap keeps one slot of its own
/// and panics once `u32::MAX` slots exist; nodes are never removed, so every slot
/// but its own holds a node, and fewer than `u32::MAX - 1` nodes leave room.
#[verifier::external_body]
fn arena_insert(m: &mut NodeArena, n: Node) -> (r: u64)
    requires
        arena_nodes(*old(m)).len() < u32::MAX - 1,
    ensures
        !arena_nodes(*old(m)).contains_key(r),
        is_live_code(r),
        arena_nodes(*final(m)) == arena_nodes(*old(m)).insert(r, n),
{
    m.slots.insert(n).data().as_ffi()
}

/// The number of nodes (slotmap's `SlotMap::len`).
#[verifier::external_body]
fn arena_len(m: &NodeArena) -> (r: usize)
    ensures
        r == arena_nodes(*m).len(),
{
    m.slots.len()
}

/// A copy of the node under a key code (slotmap's `SlotMap::get`), where one is stored.
#[verifier::external_body]
fn arena_get(m: &NodeArena, code: u64) -> (r: Option<Node>)
    ensures
        arena_nodes(*m).contains_key(code) ==> r is Some && node_view(r->0) == node_view(arena_nodes(*m)[code]),
{
    m.slots.get(KeyData::from_ffi(code).into()).cloned()
}

/// Replace the node under a key code (slotmap's `SlotMap::get_mut`).
#[verifier::external_body]
fn arena_set(m: &mut NodeArena, code: u64, n: Node)
    requires
        arena_nodes(*old(m)).contains_key(code),
    ensures
        arena_nodes(*final(m)) == arena_nodes(*old(m)).insert(code, n),
{
    if let Some(slot) = m.slots.get_mut(KeyData::from_ffi(code).into()) {
        *slot = n;
    }
}

/// The slot index a key code names: its low 32 bits.
pub open spec fn slot_of(c: u64) -> int {
    (c % 0x1_0000_0000) as int
}

/// Every stored node with its key code (slotmap's `SlotMap::iter`). slotmap walks its
/// slots by index and yields the occupied ones, so the entries come in increasing
/// slot index, one for each stored node.
#[verifier::external_body]
fn arena_entries(m: &NodeArena) -> (r: Vec<(u64, Node)>)
    ensures
        forall|i: int| 0 <= i < r@.len() ==> arena_nodes(*m).contains_key(#[trigger] r@[i].0)
            && node_view(arena_nodes(*m)[r@[i].0]) == node_view(r@[i].1),
        forall|c: u64| #[trigger] arena_nodes(*m).contains_key(c) ==> exists|i: int| 0 <= i < r@.len()
            && #[trigger] r@[i].0 == c,
        forall|i: int, j: int| 0 <= i < j < r@.len() ==> slot_of(#[trigger] r@[i].0) < slot_of(#[trigger] r@[j].0),
{
    let mut r = Vec::new();
    for (k, v) in m.slots.iter() {
        r.push((k.data().as_ffi(), v.clone()));
    }
    r
}

/// An empty index (dashmap's `DashMap::new`).
#[verifier::external_body]
fn index_new() -> (r: NodeIndex)
    ensures
        index_codes(r).dom() == Set::<NodeId>::empty(),
{
    DashMap::new()
}

/// Index a node ID under a key code (dashmap's `DashMap::insert`).
#[verifier::external_body]
fn index_insert(m: &mut NodeIndex, id: NodeId, code: u64)
    requires
        is_live_code(code),
    ensures
        index_codes(*final(m)) == index_codes(*old(m)).insert(id, code),
{
    m.insert(id, KeyData::from_ffi(code).into());
}

/// The key code a node ID is indexed under (dashmap's `DashMap::get`).
#[verifier::external_body]
fn index_get(m: &NodeIndex, id: NodeId) -> (r: Option<u64>)
    ensures
        r == (if index_codes(*m).contains_key(id) { Some(index_codes(*m)[id]) } else { None::<u64> }),
{
    m.get(&id).map(|k| k.data().as_ffi())
}

/// An empty attribute table (dashmap's `DashMap::new`).
#[verifier::external_body]
fn attrs_new() -> (r: AttrTable)
    ensures
        attr_values(r).dom() == Set::<(NodeId, u32)>::empty(),
{
    DashMap::new()
}

/// Bind an attribute value (dashmap's `DashMap::insert`).
#[verifier::external_body]
fn attrs_insert(m: &mut AttrTable, k: (NodeId, u32), v: u32)
    ensures
        attr_values(*final(m)) == attr_values(*old(m)).insert(k, v),
{
    m.insert(k, v);
}

/// A state instruction.
#[derive(Debug, Clone, Copy, PartialEq, Eq, Structural)]
pub enum StatePrimitive {
    NodeCreate { node: NodeId },
    NodeDetach { node: NodeId },
    NodeAttach { node: NodeId, parent: NodeId, index: u32 },
    AttrBind { node: NodeId, key: u32, value: u32 },
    SignalEmit { node: NodeId, signal: u32 },
}

/// An instruction as the store sees it: state instructions, and the layout and render
/// instructions that other subsystems take.
#[derive(Debug, Clone, Copy, PartialEq, Eq, Structural)]
pub enum AtomicInstruction {
    State(StatePrimitive),
    Layout,
    Render,
}

/// A point-in-time view of the store.
#[derive(Debug, Clone)]
pub struct Snapshot {
    pub version: u64,
    pub node_count: usize,
    pub root: Option<NodeId>,
    _keepalive: Arc<()>,
}

impl Snapshot {
    /// The version the snapshot was taken at.
    pub closed spec fn at_version(&self) -> u64 {
        self.version
    }

    /// The number of nodes then.
    pub closed spec fn count(&self) -> usize {
        self.node_count
    }

    /// The root then, if any.
    pub closed spec fn root_node(&self) -> Option<NodeId> {
        self.root
    }

    /// The version the snapshot was taken at.
    pub fn version(&self) -> (r: u64)
        ensures
            r == self.at_version(),
    {
        self.version
    }

    /// The number of nodes then.
    pub fn node_count(&self) -> (r: usize)
        ensures
            r == self.count(),
    {
        self.node_count
    }

    /// The root then, if any.
    pub fn root(&self) -> (r: Option<NodeId>)
        ensures
            r == self.root_node(),
    {
        self.root
    }
}

/// A node's contents as plain values: its ID, parent, children and whether it is detached.
pub type NodeView = (NodeId, Option<NodeId>, Seq<NodeId>, bool);

/// The tree by node ID, whatever the arena keys: what a state instruction does to it.
pub open spec fn step_tree(t: Map<NodeId, NodeView>, sp: StatePrimitive) -> Map<NodeId, NodeView> {
    match sp {
        StatePrimitive::NodeCreate { node } => t.insert(node, (node, None, Seq::<NodeId>::empty(), false)),
        StatePrimitive::NodeDetach { node } => if t.contains_key(node) {
            let v = t[node];
            t.insert(node, (v.0, v.1, v.2, true))
        } else {
            t
        },
        StatePrimitive::NodeAttach { node, parent, index } => {
            let t1 = if t.contains_key(parent) {
                let p = t[parent];
                t.insert(parent, (p.0, p.1, insert_clamped(p.2, index as int, node), p.3))
            } else {
                t
            };
            if t1.contains_key(node) {
                let c = t1[node];
                t1.insert(node, (c.0, Some(parent), c.2, false))
            } else {
                t1
            }
        },
        _ => t,
    }
}

/// What a state instruction does to the attribute bindings.
pub open spec fn step_attrs(m: Map<(NodeId, u32), u32>, sp: StatePrimitive) -> Map<(NodeId, u32), u32> {
    match sp {
        StatePrimitive::AttrBind { node, key, value } => m.insert((node, key), value),
        _ => m,
    }
}

/// The mutable store. Each state instruction applied bumps the version.
pub struct Store {
    nodes: NodeArena,
    index: NodeIndex,
    attrs: AttrTable,
    version: u64,
}

/// `s` with `x` inserted at position `i`, or at the end where `i` is past it.
pub open spec fn insert_clamped(s: Seq<NodeId>, i: int, x: NodeId) -> Seq<NodeId> {
    let j = if i < s.len() { i } else { s.len() as int };
    s.insert(j, x)
}

impl Store {
    /// The nodes by key code.
    pub closed spec fn nodes(&self) -> Map<u64, Node> {
        arena_nodes(self.nodes)
    }

    /// The key code of each indexed node ID.
    pub closed spec fn index(&self) -> Map<NodeId, u64> {
        index_codes(self.index)
    }

    /// The attribute bindings.
    pub closed spec fn attrs(&self) -> Map<(NodeId, u32), u32> {
        attr_values(self.attrs)
    }

    /// The number of instructions applied.
    pub closed spec fn spec_version(&self) -> u64 {
        self.version
    }

    /// The store's invariant: every indexed code names a stored node.
    pub closed spec fn wf(&self) -> bool {
        &&& forall|id: NodeId| #[trigger] self.index().contains_key(id) ==> self.nodes().contains_key(self.index()[id])
            && is_live_code(self.index()[id])
        &&& forall|a: NodeId, b: NodeId| #![trigger self.index()[a], self.index()[b]]
            self.index().contains_key(a) && self.index().contains_key(b) && a != b ==> self.index()[a] != self.index()[b]
        &&& self.nodes().dom().finite()
    }

    /// The node a node ID names, if it is indexed.
    pub open spec fn node_of(&self, id: NodeId) -> Option<Node> {
        if self.index().contains_key(id) && self.nodes().contains_key(self.index()[id]) {
            Some(self.nodes()[self.index()[id]])
        } else {
            None
        }
    }

    /// The tree by node ID: each indexed node ID's node, whatever its arena key.
    pub open spec fn tree(&self) -> Map<NodeId, NodeView> {
        Map::new(
            |id: NodeId| self.node_of(id) is Some,
            |id: NodeId| node_view(self.node_of(id)->0),
        )
    }

    /// What a store holds apart from its arena keys: its version, its number of
    /// nodes, its tree by node ID and its attribute bindings.
    pub open spec fn same_state(a: Store, b: Store) -> bool {
        &&& a.spec_version() == b.spec_version()
        &&& a.nodes().len() == b.nodes().len()
        &&& a.tree() == b.tree()
        &&& a.attrs() == b.attrs()
    }

    /// An empty store at version 0.
    pub fn new() -> (r: Self)
        ensures
            r.wf(),
            r.nodes() == Map::<u64, Node>::empty(),
            r.index() == Map::<NodeId, u64>::empty(),
            r.attrs() == Map::<(NodeId, u32), u32>::empty(),
            r.spec_version() == 0,
    {
        let r = Store { nodes: arena_new(), index: index_new(), attrs: attrs_new(), version: 0 };
        assert(r.nodes() =~= Map::<u64, Node>::empty());
        assert(r.index() =~= Map::<NodeId, u64>::empty());
        assert(r.attrs() =~= Map::<(NodeId, u32), u32>::empty());
        r
    }

    /// The number of instructions applied.
    pub fn version(&self) -> (r: u64)
        ensures
            r == self.spec_version(),
    {
        self.version
    }

    /// The number of nodes ever created.
    pub fn node_count(&self) -> (r: usize)
        ensures
            r == self.nodes().len(),
    {
        arena_len(&self.nodes)
    }

    /// Apply an instruction. Every call bumps the version; a state instruction also
    /// changes the store, while a layout or render instruction leaves the nodes and
    /// bindings alone. Creating a node needs room in the arena: slotmap keeps one
    /// slot of its own and holds at most `u32::MAX` slots in all.
    pub fn apply(&mut self, instr: &AtomicInstruction)
        requires
            old(self).wf(),
            old(self).spec_version() < u64::MAX,
            *instr matches AtomicInstruction::State(StatePrimitive::NodeCreate { .. }) ==> old(self).nodes().len() < u32::MAX - 1,
        ensures
            final(self).wf(),
            match *instr {
                AtomicInstruction::State(sp) => final(self).spec_version() == old(self).spec_version() + 1
                    && Self::state_step(*old(self), sp, *final(self)),
                _ => final(self).spec_version() == old(self).spec_version() + 1
                    && final(self).nodes() == old(self).nodes() && final(self).index() == old(self).index()
                    && final(self).attrs() == old(self).attrs(),
            },
    {
        if let AtomicInstruction::State(sp) = instr {
            self.apply_state(sp);
        }
        let ghost mid = *self;
        self.version = self.version + 1;
        assert(self.nodes() == mid.nodes() && self.index() == mid.index() && self.attrs() == mid.attrs());
    }

    /// What a state instruction does: from `before` to `after`, version aside.
    pub open spec fn state_step(before: Store, sp: StatePrimitive, after: Store) -> bool {
        match sp {
            StatePrimitive::NodeCreate { node } => exists|c: u64| {
                &&& !before.nodes().contains_key(c)
                &&& after.index() == #[trigger] before.index().insert(node, c)
                &&& after.nodes().dom() == before.nodes().dom().insert(c)
                &&& node_view(after.nodes()[c]) == (node, None::<NodeId>, Seq::<NodeId>::empty(), false)
                &&& forall|c2: u64| c2 != c && #[trigger] before.nodes().contains_key(c2) ==> after.nodes()[c2] == before.nodes()[c2]
                &&& after.attrs() == before.attrs()
            },
            StatePrimitive::NodeDetach { node } => {
                &&& after.index() == before.index()
                &&& after.attrs() == before.attrs()
                &&& after.nodes().dom() == before.nodes().dom()
                &&& match before.node_of(node) {
                    Some(n) => node_view(after.nodes()[before.index()[node]]) == (n.id, n.parent, n.children@, true)
                        && forall|c: u64| c != before.index()[node] && #[trigger] before.nodes().contains_key(c)
                            ==> after.nodes()[c] == before.nodes()[c],
                    None => after.nodes() == before.nodes(),
                }
            },
            StatePrimitive::NodeAttach { node, parent, index } => {
                &&& after.index() == before.index()
                &&& after.attrs() == before.attrs()
                &&& after.nodes().dom() == before.nodes().dom()
                &&& Self::attach_views(before, node, parent, index as int, after)
            },
            StatePrimitive::AttrBind { node, key, value } => {
                &&& after.nodes() == before.nodes()
                &&& after.index() == before.index()
                &&& after.attrs() == before.attrs().insert((node, key), value)
            },
            StatePrimitive::SignalEmit { .. } => {
                &&& after.nodes() == before.nodes()
                &&& after.index() == before.index()
                &&& after.attrs() == before.attrs()
            },
        }
    }

    /// Attaching: the parent (if indexed) takes the child at the index, clamped to its
    /// number of children; then the child (if indexed) takes the parent and is no
    /// longer detached. Every other node keeps its contents.
    pub open spec fn attach_views(before: Store, node: NodeId, parent: NodeId, index: int, after: Store) -> bool {
        let pcode = before.index()[parent];
        let ccode = before.index()[node];
        let has_p = before.node_of(parent) is Some;
        let has_c = before.node_of(node) is Some;
        let p0 = before.nodes()[pcode];
        let p_children = if has_p { insert_clamped(p0.children@, index, node) } else { p0.children@ };
        &&& forall|c: u64| #[trigger] before.nodes().contains_key(c) && (!has_p || c != pcode) && (!has_c || c != ccode)
            ==> after.nodes()[c] == before.nodes()[c]
        &&& has_p && (!has_c || ccode != pcode) ==> node_view(after.nodes()[pcode]) == (p0.id, p0.parent, p_children, p0.detached)
        &&& has_c && (!has_p || ccode != pcode) ==> {
            let c0 = before.nodes()[ccode];
            node_view(after.nodes()[ccode]) == (c0.id, Some(parent), c0.children@, false)
        }
        &&& has_c && has_p && ccode == pcode ==> node_view(after.nodes()[ccode]) == (p0.id, Some(parent), p_children, false)
    }

    fn apply_state(&mut self, sp: &StatePrimitive)
        requires
            old(self).wf(),
            *sp matches StatePrimitive::NodeCreate { .. } ==> old(self).nodes().len() < u32::MAX - 1,
        ensures
            final(self).wf(),
            final(self).spec_version() == old(self).spec_version(),
            Self::state_step(*old(self), *sp, *final(self)),
    {
        match *sp {
            StatePrimitive::NodeCreate { node } => {
                let n = Node { id: node, parent: None, children: Vec::new(), detached: false };
                let ghost nv = n;
                let code = arena_insert(&mut self.nodes, n);
                index_insert(&mut self.index, node, code);
                assert(node_view(self.nodes()[code]) == node_view(nv));
                assert(nv.children@ =~= Seq::<NodeId>::empty());
                assert forall|id: NodeId| #[trigger] self.index().contains_key(id) implies
                    self.nodes().contains_key(self.index()[id]) && is_live_code(self.index()[id]) by {
                    if id != node {
                        assert(old(self).index().contains_key(id));
                    }
                }
                assert forall|a: NodeId, b: NodeId| #![trigger self.index()[a], self.index()[b]]
                    self.index().contains_key(a) && self.index().contains_key(b) && a != b implies
                    self.index()[a] != self.index()[b] by {
                    if a == node {
                        assert(old(self).nodes().contains_key(old(self).index()[b]));
                    } else if b == node {
                        assert(old(self).nodes().contains_key(old(self).index()[a]));
                    } else {
                        assert(old(self).index()[a] != old(self).index()[b]);
                    }
                }
            },
            StatePrimitive::NodeDetach { node } => {
                if let Some(code) = index_get(&self.index, node) {
                    assert(self.index().contains_key(node));
                    assert(self.nodes().contains_key(code));
                    if let Some(n) = arena_get(&self.nodes, code) {
                        let updated = Node { id: n.id, parent: n.parent, children: n.children, detached: true };
                        arena_set(&mut self.nodes, code, updated);
                    }
                }
                assert(self.nodes().dom() =~= old(self).nodes().dom());
                assert forall|id: NodeId| #[trigger] self.index().contains_key(id) implies
                    self.nodes().contains_key(self.index()[id]) && is_live_code(self.index()[id]) by {
                    assert(old(self).index().contains_key(id));
                    assert(old(self).nodes().contains_key(old(self).index()[id]));
                }
            },
            StatePrimitive::NodeAttach { node, parent, index } => {
                if let Some(pcode) = index_get(&self.index, parent) {
                    assert(self.index().contains_key(parent));
                    assert(self.nodes().contains_key(pcode));
                    if let Some(p) = arena_get(&self.nodes, pcode) {
                        let mut children = p.children;
                        let len = children.len();
                        let i = if (index as usize) < len { index as usize } else { len };
                        children.insert(i, node);
                        let updated = Node { id: p.id, parent: p.parent, children, detached: p.detached };
                        arena_set(&mut self.nodes, pcode, updated);
                    }
                }
                if let Some(ccode) = index_get(&self.index, node) {
                    assert(old(self).index().contains_key(node));
                    assert(old(self).nodes().contains_key(ccode));
                    assert(self.nodes().contains_key(ccode));
                    if let Some(c) = arena_get(&self.nodes, ccode) {
                        let updated = Node { id: c.id, parent: Some(parent), children: c.children, detached: false };
                        arena_set(&mut self.nodes, ccode, updated);
                    }
                }
                assert(self.nodes().dom() =~= old(self).nodes().dom());
                assert forall|id: NodeId| #[trigger] self.index().contains_key(id) implies
                    self.nodes().contains_key(self.index()[id]) && is_live_code(self.index()[id]) by {
                    assert(old(self).index().contains_key(id));
                    assert(old(self).nodes().contains_key(old(self).index()[id]));
                }
            },
            StatePrimitive::AttrBind { node, key, value } => {
                attrs_insert(&mut self.attrs, (node, key), value);
                assert(self.index() == old(self).index());
                assert forall|id: NodeId| #[trigger] self.index().contains_key(id) implies
                    self.nodes().contains_key(self.index()[id]) && is_live_code(self.index()[id]) by {
                    assert(old(self).index().contains_key(id));
                }
            },
            StatePrimitive::SignalEmit { .. } => {},
        }
    }

    /// Whether the node under a key code is a root: stored, with no parent, not detached.
    pub open spec fn is_root_at(&self, c: u64) -> bool {
        self.nodes().contains_key(c) && self.nodes()[c].parent is None && !self.nodes()[c].detached
    }

    /// A view of the store now: its version, its number of nodes, and its root, that is
    /// of the nodes with no parent that are not detached, the one in the lowest arena
    /// slot, where there is one.
    pub fn snapshot(&self) -> (r: Snapshot)
        ensures
            r.at_version() == self.spec_version(),
            r.count() == self.nodes().len(),
            r.root_node() is None <==> !exists|c: u64| #[trigger] self.is_root_at(c),
            r.root_node() matches Some(id) ==> exists|c: u64| #[trigger] self.is_root_at(c)
                && self.nodes()[c].id == id
                && forall|c2: u64| #[trigger] self.is_root_at(c2) ==> slot_of(c) <= slot_of(c2),
    {
        let entries = arena_entries(&self.nodes);
        let mut k: usize = 0;
        while k < entries.len() && !(entries[k].1.parent.is_none() && !entries[k].1.detached)
            invariant
                k <= entries.len(),
                forall|j: int| 0 <= j < k ==> !((#[trigger] entries@[j]).1.parent is None && !entries@[j].1.detached),
            decreases entries.len() - k,
        {
            k = k + 1;
        }
        let root = if k < entries.len() { Some(entries[k].1.id) } else { None };
        proof {
            if k < entries.len() {
                let c = entries@[k as int].0;
                assert(node_view(self.nodes()[c]) == node_view(entries@[k as int].1));
                assert(self.is_root_at(c));
                assert forall|c2: u64| #[trigger] self.is_root_at(c2) implies slot_of(c) <= slot_of(c2) by {
                    let i = choose|i: int| 0 <= i < entries@.len() && #[trigger] entries@[i].0 == c2;
                    assert(node_view(self.nodes()[c2]) == node_view(entries@[i].1));
                    if i < k {
                        assert(!(entries@[i].1.parent is None && !entries@[i].1.detached));
                    }
                }
            } else {
                assert forall|c: u64| !#[trigger] self.is_root_at(c) by {
                    if self.nodes().contains_key(c) {
                        let i = choose|i: int| 0 <= i < entries@.len() && #[trigger] entries@[i].0 == c;
                        assert(node_view(self.nodes()[c]) == node_view(entries@[i].1));
                        assert(!(entries@[i].1.parent is None && !entries@[i].1.detached));
                    }
                }
            }
        }
        Snapshot {
            version: self.version,
            node_count: arena_len(&self.nodes),
            root,
            _keepalive: Arc::new(()),
        }
    }
}

/// A state instruction acts on the tree by node ID as `step_tree` says, whatever keys
/// the arena hands out: creating adds a node, every other instruction keeps the
/// number of nodes, and attribute bindings change as `step_attrs` says.
pub proof fn law_state_step_is_a_function(before: Store, sp: StatePrimitive, after: Store)
    requires
        before.wf(),
        after.wf(),
        Store::state_step(before, sp, after),
    ensures
        after.tree() == step_tree(before.tree(), sp),
        after.nodes().len() == before.nodes().len() + (if sp is NodeCreate { 1int } else { 0int }),
        after.attrs() == step_attrs(before.attrs(), sp),
{
    let t0 = before.tree();
    let t1 = after.tree();
    match sp {
        StatePrimitive::NodeCreate { node } => {
            let c = choose|c: u64| {
                &&& !before.nodes().contains_key(c)
                &&& after.index() == #[trigger] before.index().insert(node, c)
                &&& after.nodes().dom() == before.nodes().dom().insert(c)
                &&& node_view(after.nodes()[c]) == (node, None::<NodeId>, Seq::<NodeId>::empty(), false)
                &&& forall|c2: u64| c2 != c && #[trigger] before.nodes().contains_key(c2) ==> after.nodes()[c2] == before.nodes()[c2]
                &&& after.attrs() == before.attrs()
            };
            assert forall|id: NodeId| #[trigger] t1.contains_key(id) == step_tree(t0, sp).contains_key(id) by {
                if id != node && before.index().contains_key(id) {
                    assert(before.nodes().contains_key(before.index()[id]));
                }
            }
            assert forall|id: NodeId| #[trigger] t1.contains_key(id) implies t1[id] == step_tree(t0, sp)[id] by {
                if id != node {
                    assert(before.nodes().contains_key(before.index()[id]));
                    assert(before.index()[id] != c);
                }
            }
            assert(t1 =~= step_tree(t0, sp));
            assert(after.nodes().len() == before.nodes().len() + 1) by {
                vstd::set::axiom_set_insert_len(before.nodes().dom(), c);
            }
        },
        StatePrimitive::NodeDetach { node } => {
            assert forall|id: NodeId| #[trigger] t1.contains_key(id) == step_tree(t0, sp).contains_key(id) by {}
            assert forall|id: NodeId| #[trigger] t1.contains_key(id) implies t1[id] == step_tree(t0, sp)[id] by {
                if id != node && before.node_of(node) is Some {
                    assert(before.index()[id] != before.index()[node]);
                }
            }
            assert(t1 =~= step_tree(t0, sp));
        },
        StatePrimitive::NodeAttach { node, parent, index } => {
            assert forall|id: NodeId| #[trigger] t1.contains_key(id) == step_tree(t0, sp).contains_key(id) by {}
            assert forall|id: NodeId| #[trigger] t1.contains_key(id) implies t1[id] == step_tree(t0, sp)[id] by {
                if id != node && before.node_of(node) is Some {
                    assert(before.index()[id] != before.index()[node]);
                }
                if id != parent && before.node_of(parent) is Some {
                    assert(before.index()[id] != before.index()[parent]);
                }
                if node != parent && before.node_of(node) is Some && before.node_of(parent) is Some {
                    assert(before.index()[parent] != before.index()[node]);
                }
            }
            assert(t1 =~= step_tree(t0, sp));
        },
        _ => {
            assert(t1 =~= step_tree(t0, sp));
        },
    }
}

/// The store is deterministic: two stores that hold the same state apart from their
/// arena keys still do after the same instruction.
pub proof fn law_store_is_deterministic(a0: Store, b0: Store, instr: AtomicInstruction, a1: Store, b1: Store)
    requires
        a0.wf(),
        b0.wf(),
        a1.wf(),
        b1.wf(),
        Store::same_state(a0, b0),
        match instr {
            AtomicInstruction::State(sp) => a1.spec_version() == a0.spec_version() + 1 && Store::state_step(a0, sp, a1)
                && b1.spec_version() == b0.spec_version() + 1 && Store::state_step(b0, sp, b1),
            _ => a1.spec_version() == a0.spec_version() + 1 && a1.nodes() == a0.nodes() && a1.index() == a0.index()
                && a1.attrs() == a0.attrs() && b1.spec_version() == b0.spec_version() + 1 && b1.nodes() == b0.nodes()
                && b1.index() == b0.index() && b1.attrs() == b0.attrs(),
        },
    ensures
        Store::same_state(a1, b1),
{
    if let AtomicInstruction::State(sp) = instr {
        law_state_step_is_a_function(a0, sp, a1);
        law_state_step_is_a_function(b0, sp, b1);
    } else {
        assert(a1.tree() =~= a0.tree());
        assert(b1.tree() =~= b0.tree());
    }
}

} // verus!
