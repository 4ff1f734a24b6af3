use slate::svg::{parse_svg_color, SvgElement, SvgElementType};
use slate::forms::{InputType, FormElement, NumericFacts, Form};
use slate::webapi::{WebApiError, StorageApi, PerformanceApi};
use slate::console::{assert_line, console_line, count_line, to_stderr, ConsoleCounters, ConsoleLevel};
use slate::dom::{element_call, ElementMethod};
use slate::bridge::NodeId;
use slate::translator::WebCall;

#[test]
fn test_parse_svg_color() {
    assert_eq!(parse_svg_color("#000"), Some((0, 0, 0, 255)));
    assert_eq!(parse_svg_color("#fff"), Some((255, 255, 255, 255)));
    assert_eq!(parse_svg_color("#ff0000"), Some((255, 0, 0, 255)));
    assert_eq!(parse_svg_color("black"), Some((0, 0, 0, 255)));
    assert_eq!(parse_svg_color("white"), Some((255, 255, 255, 255)));
}

#[test]
fn svg_color_names_ignore_case_and_unknown_is_none() {
    assert_eq!(parse_svg_color("RED"), Some((255, 0, 0, 255)));
    assert_eq!(parse_svg_color("#12"), None);
    assert_eq!(parse_svg_color("nocolor"), None);
}

#[test]
fn svg_attributes_read_back() {
    let mut el = SvgElement::new(SvgElementType::Circle);
    el.set_attribute("r".to_string(), "5".to_string());
    assert_eq!(el.get_attribute("r"), Some(&"5".to_string()));
    assert_eq!(el.get_attribute("cx"), None);
}

#[test]
fn input_types_from_strings() {
    assert_eq!(InputType::from_str("EMAIL"), InputType::Email);
    assert_eq!(InputType::from_str("datetime-local"), InputType::DateTime);
    assert_eq!(InputType::from_str("whatever"), InputType::Text);
}

#[test]
fn web_api_error_messages() {
    assert_eq!(WebApiError::JsError("x".to_string()).message(), "JavaScript error: x");
    assert_eq!(WebApiError::NetworkError("down".to_string()).message(), "Network error: down");
}

#[test]
fn storage_api_starts_empty() {
    let api = StorageApi::new();
    assert_eq!(api.local_storage.len(), 0);
    assert_eq!(api.session_storage.len(), 0);
    let _perf = PerformanceApi::new();
    let form = Form::new();
    assert_eq!(form.method, "GET");
}

#[test]
fn required_field_must_be_filled() {
    let mut el = FormElement::new("input".to_string());
    el.required = true;
    let facts = NumericFacts { is_number: true, below_min: false, above_max: false };
    assert_eq!(el.validate(facts), Err("This field is required".to_string()));
    el.value = "x".to_string();
    assert_eq!(el.validate(facts), Ok(()));
}

#[test]
fn console_lines_and_counters() {
    let args = vec!["a".to_string(), "b".to_string()];
    assert_eq!(console_line(ConsoleLevel::Log, &args), "[LOG] a b");
    assert_eq!(console_line(ConsoleLevel::Error, &vec!["x".to_string()]), "[ERROR] x");
    assert_eq!(console_line(ConsoleLevel::Warn, &vec![]), "[WARN] ");
    assert!(to_stderr(ConsoleLevel::Error));
    assert!(!to_stderr(ConsoleLevel::Info));
    assert_eq!(assert_line(&args), "[ASSERT] Assertion failed: a b");
    let mut c = ConsoleCounters::new();
    assert_eq!(c.count("x"), 1);
    assert_eq!(c.count("x"), 2);
    assert_eq!(c.count("y"), 1);
    assert_eq!(c.get("x"), 2);
    assert_eq!(c.get("z"), 0);
    assert_eq!(count_line("x", 2), "[COUNT] x: 2");
}

#[test]
fn element_methods_record_calls() {
    let call = element_call(3, ElementMethod::SetAttribute, &vec!["id".to_string(), "main".to_string()]);
    assert!(matches!(call, WebCall::SetAttribute { node: NodeId(3), ref name, ref value } if name == "id" && value == "main"));
    let call = element_call(3, ElementMethod::SetAttribute, &vec!["id".to_string()]);
    assert!(matches!(call, WebCall::SetAttribute { ref value, .. } if value == "undefined"));
    let call = element_call(4, ElementMethod::RemoveAttribute, &vec!["class".to_string()]);
    assert!(matches!(call, WebCall::RemoveAttribute { node: NodeId(4), ref name } if name == "class"));
    let call = element_call(5, ElementMethod::AddClass, &vec!["big".to_string()]);
    assert!(matches!(call, WebCall::AddClass { node: NodeId(5), ref class } if class == "big"));
    let call = element_call(6, ElementMethod::SetStyle, &vec!["color: red".to_string()]);
    assert!(matches!(call, WebCall::SetInlineStyle { node: NodeId(6), ref css } if css == "color: red"));
    let call = element_call(1, ElementMethod::AppendChild { child: 2 }, &vec![]);
    assert!(matches!(call, WebCall::AppendChild { parent: NodeId(1), child: NodeId(2), index: 0 }));
}

#[test]
fn svg_colors_outside_ascii_are_invalid() {
    assert_eq!(parse_svg_color("#\u{20AC}"), None);
    assert_eq!(parse_svg_color("#\u{E9}1"), None);
    assert_eq!(parse_svg_color("#\u{E9}\u{E9}\u{E9}"), None);
    assert_eq!(parse_svg_color("r\u{E9}d"), None);
    assert_eq!(parse_svg_color("#0f0"), Some((0, 255, 0, 255)));
}
