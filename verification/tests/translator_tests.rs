use slate::translator::{WebApiTranslator, WebCall, Translation, Axis};
use slate::state::StatePrimitive;
use slate::bridge::NodeId;

fn create(node: u32, tag: &str) -> WebCall {
    WebCall::CreateElement { node: NodeId(node), tag: tag.to_string() }
}

#[test]
fn test_translate_create_element() {
    let mut translator = WebApiTranslator::new();
    let node = NodeId(1);
    let instructions = translator.translate(WebCall::CreateElement { node, tag: "div".to_string() });
    assert_eq!(instructions.len(), 1);
    match &instructions[0] {
        Translation::State(StatePrimitive::NodeCreate { node: n }) => assert_eq!(*n, node),
        _ => panic!("Expected NodeCreate"),
    }
}

#[test]
fn test_translate_append_child() {
    let mut translator = WebApiTranslator::new();
    let parent = NodeId(1);
    let child = NodeId(2);
    let instructions = translator.translate(WebCall::AppendChild { parent, child, index: 0 });
    assert_eq!(instructions.len(), 1);
    match &instructions[0] {
        Translation::State(StatePrimitive::NodeAttach { node, parent: p, .. }) => {
            assert_eq!(*node, child);
            assert_eq!(*p, parent);
        }
        _ => panic!("Expected NodeAttach"),
    }
}

#[test]
fn test_translate_set_style() {
    let mut translator = WebApiTranslator::new();
    let node = NodeId(1);
    translator.translate(create(1, "div"));
    let instructions = translator.translate(WebCall::SetInlineStyle {
        node,
        css: "width:100px;height:50px;background-color:red".to_string(),
    });
    assert!(instructions.len() >= 2);
}

#[test]
fn test_batch_translation() {
    let mut translator = WebApiTranslator::new();
    translator.queue(create(1, "div"));
    translator.queue(WebCall::SetAttribute { node: NodeId(1), name: "id".to_string(), value: "main".to_string() });
    let instructions = translator.flush();
    assert!(instructions.len() >= 1);
}

#[test]
fn test_parse_color() {
    let translator = WebApiTranslator::new();
    assert_eq!(translator.parse_color("red").unwrap(), (255, 0, 0, 255));
    assert_eq!(translator.parse_color("#ff0000").unwrap(), (255, 0, 0, 255));
    assert_eq!(translator.parse_color("blue").unwrap(), (0, 0, 255, 255));
}

#[test]
fn parse_color_rejects_what_is_no_color() {
    let translator = WebApiTranslator::new();
    assert_eq!(translator.parse_color("  white "), Some((255, 255, 255, 255)));
    assert_eq!(translator.parse_color("#ff00"), None);
    assert_eq!(translator.parse_color("#gg0000"), None);
    assert_eq!(translator.parse_color("#ééé"), None);
    assert_eq!(translator.parse_color("purple"), None);
}

#[test]
fn test_simple_dom_creation() {
    let mut translator = WebApiTranslator::new();
    let instructions = translator.translate(create(1, "div"));
    assert_eq!(instructions.len(), 1);
    assert!(matches!(instructions[0], Translation::State(StatePrimitive::NodeCreate { .. })));
}

#[test]
fn test_dom_tree_construction() {
    let mut translator = WebApiTranslator::new();
    translator.queue(create(1, "div"));
    translator.queue(create(2, "span"));
    translator.queue(WebCall::AppendChild { parent: NodeId(1), child: NodeId(2), index: 0 });
    let instructions = translator.flush();
    assert_eq!(instructions.len(), 3);
}

#[test]
fn test_style_translation() {
    let mut translator = WebApiTranslator::new();
    translator.translate(create(1, "div"));
    let instructions = translator.translate(WebCall::SetInlineStyle {
        node: NodeId(1),
        css: "width:100px;height:50px".to_string(),
    });
    assert!(instructions.len() >= 2);
    let has_layout = instructions.iter().any(|i| matches!(i, Translation::SizeFromLength { .. }));
    assert!(has_layout);
}

#[test]
fn test_background_color_translation() {
    let mut translator = WebApiTranslator::new();
    translator.translate(create(1, "div"));
    let instructions = translator.translate(WebCall::SetInlineStyle {
        node: NodeId(1),
        css: "background-color:red".to_string(),
    });
    let has_render = instructions.iter().any(|i| matches!(i, Translation::FillRect { .. }));
    assert!(has_render);
}

#[test]
fn test_complex_dom_manipulation() {
    let mut translator = WebApiTranslator::new();
    translator.queue(create(1, "div"));
    for i in 2..=5 {
        translator.queue(create(i, "span"));
        translator.queue(WebCall::AppendChild { parent: NodeId(1), child: NodeId(i), index: 0 });
    }
    let instructions = translator.flush();
    assert_eq!(instructions.len(), 9);
}

#[test]
fn test_attribute_setting() {
    let mut translator = WebApiTranslator::new();
    translator.translate(create(1, "div"));
    let instructions = translator.translate(WebCall::SetAttribute {
        node: NodeId(1),
        name: "width".to_string(),
        value: "200".to_string(),
    });
    assert!(instructions.len() >= 1);
    match &instructions[0] {
        Translation::SizeFromLength { axis, length, .. } => {
            assert_eq!(*axis, Axis::Width);
            assert_eq!(length, "200");
        }
        _ => panic!("Expected a size request"),
    }
}

#[test]
fn test_class_addition() {
    let mut translator = WebApiTranslator::new();
    translator.translate(create(1, "div"));
    translator.translate(WebCall::AddClass { node: NodeId(1), class: "container".to_string() });
    let instructions = translator.translate(WebCall::AddClass { node: NodeId(1), class: "active".to_string() });
    assert!(instructions.is_empty() || !instructions.is_empty());
}

#[test]
fn test_remove_child() {
    let mut translator = WebApiTranslator::new();
    let instructions = translator.translate(WebCall::RemoveChild { parent: NodeId(1), child: NodeId(2) });
    assert_eq!(instructions.len(), 1);
    assert!(matches!(instructions[0], Translation::State(StatePrimitive::NodeDetach { .. })));
}

#[test]
fn test_hex_color_parsing() {
    let mut translator = WebApiTranslator::new();
    translator.translate(create(1, "div"));
    let instructions = translator.translate(WebCall::SetInlineStyle {
        node: NodeId(1),
        css: "background-color:#ff0000".to_string(),
    });
    assert!(instructions.len() >= 1);
}

#[test]
fn test_multiple_style_properties() {
    let mut translator = WebApiTranslator::new();
    translator.translate(create(1, "div"));
    let instructions = translator.translate(WebCall::SetInlineStyle {
        node: NodeId(1),
        css: "width:100px;height:50px;background-color:blue".to_string(),
    });
    assert!(instructions.len() >= 3);
}

#[test]
fn test_text_node_creation() {
    let mut translator = WebApiTranslator::new();
    let instructions = translator.translate(WebCall::CreateTextNode { node: NodeId(1), text: "Hello, World!".to_string() });
    assert_eq!(instructions.len(), 1);
    assert!(matches!(instructions[0], Translation::State(StatePrimitive::NodeCreate { .. })));
}

#[test]
fn test_insert_before() {
    let mut translator = WebApiTranslator::new();
    let instructions = translator.translate(WebCall::InsertBefore {
        parent: NodeId(1),
        new_child: NodeId(2),
        ref_child: NodeId(3),
    });
    assert_eq!(instructions.len(), 1);
    assert!(matches!(instructions[0], Translation::State(StatePrimitive::NodeAttach { .. })));
}

#[test]
fn test_batch_processing() {
    let mut translator = WebApiTranslator::new();
    for i in 1..=10 {
        translator.queue(create(i, "div"));
    }
    let instructions = translator.flush();
    assert_eq!(instructions.len(), 10);
    let instructions2 = translator.flush();
    assert_eq!(instructions2.len(), 0);
}

#[test]
fn test_real_world_scenario() {
    let mut translator = WebApiTranslator::new();
    translator.queue(create(1, "div"));
    translator.queue(WebCall::SetAttribute { node: NodeId(1), name: "id".to_string(), value: "main".to_string() });
    translator.queue(WebCall::SetInlineStyle {
        node: NodeId(1),
        css: "width:100px;height:50px;background-color:red".to_string(),
    });
    translator.queue(WebCall::CreateTextNode { node: NodeId(2), text: "Hello".to_string() });
    translator.queue(WebCall::AppendChild { parent: NodeId(1), child: NodeId(2), index: 0 });
    let instructions = translator.flush();
    assert!(instructions.len() >= 5);
    let has_state = instructions.iter().any(|i| matches!(i, Translation::State(_)));
    let has_layout = instructions.iter().any(|i| matches!(i, Translation::SizeFromLength { .. }));
    let has_render = instructions.iter().any(|i| matches!(i, Translation::FillRect { .. }));
    assert!(has_state);
    assert!(has_layout);
    assert!(has_render);
}

#[test]
fn inline_style_skips_empty_and_colonless_declarations() {
    let mut translator = WebApiTranslator::new();
    translator.translate(create(1, "div"));
    let instructions = translator.translate(WebCall::SetInlineStyle {
        node: NodeId(1),
        css: " ; color ;  height : 5px ;".to_string(),
    });
    assert_eq!(instructions.len(), 1);
    match &instructions[0] {
        Translation::SizeFromLength { axis, length, .. } => {
            assert_eq!(*axis, Axis::Height);
            assert_eq!(length, "5px");
        }
        _ => panic!("Expected a size request"),
    }
}

fn batch() -> Vec<WebCall> {
    vec![
        create(1, "div"),
        WebCall::SetInlineStyle { node: NodeId(1), css: "width:10px;background-color:#00ff00".to_string() },
        WebCall::AddClass { node: NodeId(1), class: "a".to_string() },
        create(2, "span"),
        WebCall::AppendChild { parent: NodeId(1), child: NodeId(2), index: 3 },
        WebCall::AddClass { node: NodeId(1), class: "b".to_string() },
        WebCall::SetAttribute { node: NodeId(2), name: "style".to_string(), value: "height:4".to_string() },
    ]
}

#[test]
fn translation_in_two_batches_equals_one_batch() {
    let calls = batch();
    let mut whole = WebApiTranslator::new();
    for c in calls.clone() {
        whole.queue(c);
    }
    let all = whole.flush();

    let mut split = WebApiTranslator::new();
    for c in calls[..3].iter().cloned() {
        split.queue(c);
    }
    let mut parts = split.flush();
    for c in calls[3..].iter().cloned() {
        split.queue(c);
    }
    parts.extend(split.flush());

    assert_eq!(format!("{:?}", all), format!("{:?}", parts));
    assert!(!all.is_empty());
}
