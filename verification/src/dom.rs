//! The element methods of the DOM API: which web API call each one records.
use vstd::prelude::*;
use crate::bridge::NodeId;
use crate::translator::WebCall;
use crate::strs::{to_owned_string, string_views};

verus! {

/// The element methods that record a call.
#[derive(Debug, Clone, Copy, PartialEq, Eq, Structural)]
pub enum ElementMethod {
    /// `element.setAttribute(name, value)`
    SetAttribute,
    /// `element.removeAttribute(name)`
    RemoveAttribute,
    /// `element.classList.add(class)`
    AddClass,
    /// `element.style` set from a CSS text
    SetStyle,
    /// `node.appendChild(child)`
    AppendChild { child: u32 },
}

/// The argument at `i` as a string; a missing argument reads as `undefined`, as a
/// script's missing argument converts.
pub open spec fn arg_or_undefined(args: Seq<Seq<char>>, i: int) -> Seq<char> {
    if 0 <= i < args.len() { args[i] } else { "undefined"@ }
}

/// The call an element method records on a node, given its arguments as strings: the
/// attribute name and value, the attribute name, the class, or the CSS text, in that
/// order; appending a child records it at index 0, which the DOM works out later.
pub open spec fn spec_element_call(node: u32, method: ElementMethod, args: Seq<Seq<char>>, r: WebCall) -> bool {
    match method {
        ElementMethod::SetAttribute => r matches WebCall::SetAttribute { node: n, name, value }
            && n == NodeId(node) && name@ == arg_or_undefined(args, 0) && value@ == arg_or_undefined(args, 1),
        ElementMethod::RemoveAttribute => r matches WebCall::RemoveAttribute { node: n, name }
            && n == NodeId(node) && name@ == arg_or_undefined(args, 0),
        ElementMethod::AddClass => r matches WebCall::AddClass { node: n, class }
            && n == NodeId(node) && class@ == arg_or_undefined(args, 0),
        ElementMethod::SetStyle => r matches WebCall::SetInlineStyle { node: n, css }
            && n == NodeId(node) && css@ == arg_or_undefined(args, 0),
        ElementMethod::AppendChild { child } => r matches WebCall::AppendChild { parent, child: c, index }
            && parent == NodeId(node) && c == NodeId(child) && index == 0,
    }
}

fn arg_string(args: &Vec<String>, i: usize) -> (r: String)
    ensures
        r@ == arg_or_undefined(string_views(args@), i as int),
{
    if i < args.len() {
        to_owned_string(args[i].as_str())
    } else {
        to_owned_string("undefined")
    }
}

/// The call an element method records.
pub fn element_call(node: u32, method: ElementMethod, args: &Vec<String>) -> (r: WebCall)
    ensures
        spec_element_call(node, method, string_views(args@), r),
{
    match method {
        ElementMethod::SetAttribute => WebCall::SetAttribute {
            node: NodeId(node),
            name: arg_string(args, 0),
            value: arg_string(args, 1),
        },
        ElementMethod::RemoveAttribute => WebCall::RemoveAttribute { node: NodeId(node), name: arg_string(args, 0) },
        ElementMethod::AddClass => WebCall::AddClass { node: NodeId(node), class: arg_string(args, 0) },
        ElementMethod::SetStyle => WebCall::SetInlineStyle { node: NodeId(node), css: arg_string(args, 0) },
        ElementMethod::AppendChild { child } => WebCall::AppendChild {
            parent: NodeId(node),
            child: NodeId(child),
            index: 0,
        },
    }
}

} // verus!
