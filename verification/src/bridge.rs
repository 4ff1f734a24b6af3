//! The state shared between script host functions and the kernel: the buffer of
//! calls the script made since the last frame, and the next node ID.
use vstd::prelude::*;

verus! {

/// A node identifier.
#[derive(Debug, Clone, Copy, PartialEq, Eq, Hash, Structural)]
pub struct NodeId(pub u32);

/// The bridge state: buffered calls, oldest first, and the next node ID.
pub struct BridgeState<C> {
    buffer: Vec<C>,
    next_id: u32,
}

impl<C> BridgeState<C> {
    /// The buffered calls, oldest first.
    pub closed spec fn calls(&self) -> Seq<C> {
        self.buffer@
    }

    /// The ID the next node receives.
    pub closed spec fn next_id(&self) -> u32 {
        self.next_id
    }

    /// A fresh state: no calls, node IDs from 1.
    pub fn new() -> (r: Self)
        ensures
            r.calls() == Seq::<C>::empty(),
            r.next_id() == 1,
    {
        BridgeState { buffer: Vec::new(), next_id: 1 }
    }
}

/// Allocate a node ID. IDs count up from 1 and stay at `u32::MAX` once they reach it.
pub fn alloc_id<C>(state: &mut BridgeState<C>) -> (r: NodeId)
    ensures
        r == NodeId(old(state).next_id()),
        final(state).next_id() == (if old(state).next_id() == u32::MAX { u32::MAX } else { (old(state).next_id() + 1) as u32 }),
        final(state).calls() == old(state).calls(),
{
    let v = state.next_id;
    state.next_id = v.saturating_add(1);
    NodeId(v)
}

/// Buffer a call.
pub fn push<C>(state: &mut BridgeState<C>, call: C)
    ensures
        final(state).calls() == old(state).calls().push(call),
        final(state).next_id() == old(state).next_id(),
{
    state.buffer.push(call);
}

/// Take every buffered call, oldest first, leaving the buffer empty.
pub fn drain<C>(state: &mut BridgeState<C>) -> (r: Vec<C>)
    ensures
        r@ == old(state).calls(),
        final(state).calls() == Seq::<C>::empty(),
        final(state).next_id() == old(state).next_id(),
{
    let mut out: Vec<C> = Vec::new();
    std::mem::swap(&mut out, &mut state.buffer);
    out
}

/// Reset at page navigation: drop the buffered calls and count node IDs from 1 again.
pub fn reset<C>(state: &mut BridgeState<C>)
    ensures
        final(state).calls() == Seq::<C>::empty(),
        final(state).next_id() == 1,
{
    state.buffer.clear();
    state.next_id = 1;
}

} // verus!
