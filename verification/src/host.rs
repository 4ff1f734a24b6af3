//! The calls a script can make into the engine. Each one records a DOM call in the
//! bridge buffer; `create_element` also hands out a fresh node ID.
use vstd::prelude::*;
use crate::bridge::{alloc_id, push, BridgeState, NodeId};
use crate::translator::WebCall;

verus! {

/// The ID `alloc_id` hands out next, after `id` was handed out.
pub open spec fn id_after(id: u32) -> u32 {
    if id == u32::MAX { u32::MAX } else { (id + 1) as u32 }
}

/// `createElement(tag)`: allocate a node ID and record the creation of an element
/// with that tag under it; the ID is the script's result.
pub fn create_element(state: &mut BridgeState<WebCall>, tag: String) -> (r: NodeId)
    ensures
        r == NodeId(old(state).next_id()),
        final(state).next_id() == id_after(old(state).next_id()),
        final(state).calls() == old(state).calls().push(WebCall::CreateElement { node: r, tag }),
{
    let id = alloc_id(state);
    push(state, WebCall::CreateElement { node: id, tag });
    id
}

/// `appendChild(parent, child, index)`: record the call; node IDs are unchanged.
pub fn append_child(state: &mut BridgeState<WebCall>, parent: u32, child: u32, index: u32)
    ensures
        final(state).next_id() == old(state).next_id(),
        final(state).calls() == old(state).calls().push(
            WebCall::AppendChild { parent: NodeId(parent), child: NodeId(child), index },
        ),
{
    push(state, WebCall::AppendChild { parent: NodeId(parent), child: NodeId(child), index });
}

/// `setStyle(node, css)`: record an inline-style call; node IDs are unchanged.
pub fn set_style(state: &mut BridgeState<WebCall>, node: u32, css: String)
    ensures
        final(state).next_id() == old(state).next_id(),
        final(state).calls() == old(state).calls().push(
            WebCall::SetInlineStyle { node: NodeId(node), css },
        ),
{
    push(state, WebCall::SetInlineStyle { node: NodeId(node), css });
}

/// Two consecutive `createElement` calls give different node IDs, unless the counter
/// had already reached `u32::MAX`.
pub proof fn law_consecutive_elements_get_distinct_ids(
    s0: BridgeState<WebCall>,
    s1: BridgeState<WebCall>,
    a: NodeId,
    b: NodeId,
)
    requires
        a == NodeId(s0.next_id()),
        s1.next_id() == id_after(s0.next_id()),
        b == NodeId(s1.next_id()),
        s0.next_id() < u32::MAX,
    ensures
        a != b,
{
}

} // verus!
