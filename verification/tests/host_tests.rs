use slate::bridge::{drain, BridgeState, NodeId};
use slate::host::{append_child, create_element, set_style};
use slate::translator::WebCall;

#[test]
fn host_calls_buffer_in_script_order() {
    let mut state: BridgeState<WebCall> = BridgeState::new();
    let root = create_element(&mut state, "div".to_string());
    let child = create_element(&mut state, "span".to_string());
    append_child(&mut state, root.0, child.0, 0);
    set_style(&mut state, root.0, "width:100;height:50;background:red".to_string());

    assert_eq!(root, NodeId(1));
    assert_eq!(child, NodeId(2));
    let calls = drain(&mut state);
    assert_eq!(calls.len(), 4);
    assert!(matches!(&calls[0], WebCall::CreateElement { node: NodeId(1), tag } if tag == "div"));
    assert!(matches!(&calls[1], WebCall::CreateElement { node: NodeId(2), tag } if tag == "span"));
    assert!(matches!(calls[2], WebCall::AppendChild { parent: NodeId(1), child: NodeId(2), index: 0 }));
    assert!(matches!(&calls[3], WebCall::SetInlineStyle { node: NodeId(1), css } if css == "width:100;height:50;background:red"));
    assert!(drain(&mut state).is_empty());
}

#[test]
fn consecutive_elements_get_distinct_ids() {
    let mut state: BridgeState<WebCall> = BridgeState::new();
    let a = create_element(&mut state, "p".to_string());
    let b = create_element(&mut state, "p".to_string());
    assert_ne!(a, b);
}
