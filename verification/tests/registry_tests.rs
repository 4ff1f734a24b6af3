use slate::forms::{Form, FormElement, FormRegistry, InputType, NumericFacts};
use slate::svg::{SvgElementType, SvgRegistry};

fn facts() -> NumericFacts {
    NumericFacts { is_number: false, below_min: false, above_max: false }
}

#[test]
fn form_registry_values_and_validation() {
    let mut reg = FormRegistry::new();
    let mut e = FormElement::new("input".to_string());
    e.input_type = Some(InputType::from_str("email"));
    let id = reg.add_element(e);
    assert_eq!(reg.get_value(id), Some(String::new()));
    reg.set_value(id, "not-an-email".to_string());
    assert_eq!(reg.get_value(id), Some("not-an-email".to_string()));
    assert_eq!(reg.validation_message(id), "");
    assert!(!reg.validate(id, facts()));
    assert_eq!(reg.validation_message(id), "Please enter a valid email address");
    reg.set_value(id, "a@b.c".to_string());
    assert!(reg.validate(id, facts()));
    reg.set_checked(id, true);
    assert!(reg.element(id).unwrap().checked);
}

#[test]
fn form_registry_unknown_ids() {
    let mut reg = FormRegistry::new();
    assert_eq!(reg.get_value(7), None);
    reg.set_value(7, "x".to_string());
    assert_eq!(reg.get_value(7), None);
    assert!(!reg.validate(7, facts()));
    assert_eq!(reg.validation_message(7), "");
    assert!(!reg.submit(7, &Vec::new()));
}

#[test]
fn form_submit_checks_every_element() {
    let mut reg = FormRegistry::new();
    let mut e = FormElement::new("input".to_string());
    e.required = true;
    let eid = reg.add_element(e);
    let mut form = Form::new();
    form.elements.push(eid);
    form.elements.push(eid.wrapping_add(1));
    let fid = reg.add_form(form);
    assert!(!reg.submit(fid, &vec![facts(), facts()]));
    reg.set_value(eid, "filled".to_string());
    assert!(reg.submit(fid, &vec![facts(), facts()]));
    let empty = reg.add_form(Form::new());
    assert!(reg.submit(empty, &Vec::new()));
}

#[test]
fn svg_registry_attributes() {
    let mut reg = SvgRegistry::new();
    let id = reg.create(SvgElementType::Rect);
    assert_eq!(reg.element_type(id), Some(SvgElementType::Rect));
    assert_eq!(reg.get_attribute(id, "fill"), None);
    reg.set_attribute(id, "fill".to_string(), "red".to_string());
    assert_eq!(reg.get_attribute(id, "fill"), Some("red".to_string()));
    reg.set_attribute(id, "fill".to_string(), "blue".to_string());
    assert_eq!(reg.get_attribute(id, "fill"), Some("blue".to_string()));
    reg.set_attribute(id.wrapping_add(1), "fill".to_string(), "green".to_string());
    assert_eq!(reg.get_attribute(id.wrapping_add(1), "fill"), None);
    assert_eq!(reg.element_type(id.wrapping_add(1)), None);
}

#[test]
fn pattern_must_match_the_whole_value() {
    let mut e = FormElement::new("input".to_string());
    e.input_type = Some(InputType::Text);
    e.pattern = Some("[0-9]+".to_string());
    e.value = "abc".to_string();
    assert_eq!(e.validate(facts()), Err("Please match the requested format".to_string()));
    e.value = "123".to_string();
    assert_eq!(e.validate(facts()), Ok(()));
    e.value = "12a".to_string();
    assert!(e.validate(facts()).is_err());
    e.value = String::new();
    assert_eq!(e.validate(facts()), Ok(()));
}

#[test]
fn pattern_syntax_that_is_read() {
    let e = FormElement::new("input".to_string());
    assert!(e.matches_pattern("ab-12", "^[a-z]+-\\d\\d?$"));
    assert!(!e.matches_pattern("ab-123", "[a-z]+-\\d\\d?"));
    assert!(e.matches_pattern("x.y", "x\\.y"));
    assert!(!e.matches_pattern("xzy", "x\\.y"));
    assert!(e.matches_pattern("any thing", ".*"));
    assert!(e.matches_pattern("", "a*"));
    assert!(!e.matches_pattern("b", "[^b]"));
    assert!(e.matches_pattern("c", "[^b]"));
    assert!(e.matches_pattern("colour", "colou?r"));
    assert!(e.matches_pattern("color", "colou?r"));
    assert!(e.matches_pattern("123", "\\d{3}"));
    assert!(!e.matches_pattern("abc", "\\d{3}"));
    assert!(!e.matches_pattern("12", "\\d{3}"));
    assert!(e.matches_pattern("aaaa", "a{2,}"));
    assert!(!e.matches_pattern("a", "a{2,}"));
    assert!(e.matches_pattern("x-yy", "x-y{1,2}"));
    assert!(!e.matches_pattern("x-yyy", "x-y{1,2}"));
    // Groups and alternation are not read, so such a pattern is ignored.
    assert!(e.matches_pattern("abc", "(a|b)"));
    assert!(e.matches_pattern("abc", "a{2"));
}
