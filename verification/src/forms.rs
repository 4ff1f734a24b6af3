//! HTML form elements and their HTML5 validation.
use vstd::prelude::*;
use vstd::string::StringSliceAdditionalSpecFns;
use crate::strs::{
    byte_len, byte_length, chars_contain, chars_of, chars_start_with, concat, decimal, decimal_string,
    lowercase_of, push_str, starts_with, str_eq, to_lowercase, to_owned_string,
};
use crate::random::random_u32;
use crate::pattern::{pattern_matches, spec_pattern_matches};
use std::collections::HashMap;

verus! {

broadcast use vstd::std_specs::hash::group_hash_axioms;

/// Input element types.
#[derive(Debug, Clone, Copy, PartialEq, Eq, Structural)]
pub enum InputType {
    Text,
    Password,
    Email,
    Number,
    Tel,
    Url,
    Search,
    Date,
    Time,
    DateTime,
    Month,
    Week,
    Color,
    Range,
    Checkbox,
    Radio,
    File,
    Submit,
    Reset,
    Button,
    Hidden,
}

/// The input type named by a lowercase type attribute; unknown names are text inputs.
pub open spec fn spec_input_type(name: Seq<char>) -> InputType {
    if name == "password"@ {
        InputType::Password
    } else if name == "email"@ {
        InputType::Email
    } else if name == "number"@ {
        InputType::Number
    } else if name == "tel"@ {
        InputType::Tel
    } else if name == "url"@ {
        InputType::Url
    } else if name == "search"@ {
        InputType::Search
    } else if name == "date"@ {
        InputType::Date
    } else if name == "time"@ {
        InputType::Time
    } else if name == "datetime"@ || name == "datetime-local"@ {
        InputType::DateTime
    } else if name == "month"@ {
        InputType::Month
    } else if name == "week"@ {
        InputType::Week
    } else if name == "color"@ {
        InputType::Color
    } else if name == "range"@ {
        InputType::Range
    } else if name == "checkbox"@ {
        InputType::Checkbox
    } else if name == "radio"@ {
        InputType::Radio
    } else if name == "file"@ {
        InputType::File
    } else if name == "submit"@ {
        InputType::Submit
    } else if name == "reset"@ {
        InputType::Reset
    } else if name == "button"@ {
        InputType::Button
    } else if name == "hidden"@ {
        InputType::Hidden
    } else {
        InputType::Text
    }
}

impl InputType {
    /// The input type of a type attribute, compared without regard to case.
    pub fn from_str(s: &str) -> (r: Self)
        ensures
            r == spec_input_type(lowercase_of(s@)),
    {
        let lower = to_lowercase(s);
        Self::from_lowercase(lower.as_str())
    }

    /// The input type of a lowercase type attribute.
    pub fn from_lowercase(s: &str) -> (r: Self)
        ensures
            r == spec_input_type(s@),
    {
        if str_eq(s, "password") {
            InputType::Password
        } else if str_eq(s, "email") {
            InputType::Email
        } else if str_eq(s, "number") {
            InputType::Number
        } else if str_eq(s, "tel") {
            InputType::Tel
        } else if str_eq(s, "url") {
            InputType::Url
        } else if str_eq(s, "search") {
            InputType::Search
        } else if str_eq(s, "date") {
            InputType::Date
        } else if str_eq(s, "time") {
            InputType::Time
        } else if str_eq(s, "datetime") || str_eq(s, "datetime-local") {
            InputType::DateTime
        } else if str_eq(s, "month") {
            InputType::Month
        } else if str_eq(s, "week") {
            InputType::Week
        } else if str_eq(s, "color") {
            InputType::Color
        } else if str_eq(s, "range") {
            InputType::Range
        } else if str_eq(s, "checkbox") {
            InputType::Checkbox
        } else if str_eq(s, "radio") {
            InputType::Radio
        } else if str_eq(s, "file") {
            InputType::File
        } else if str_eq(s, "submit") {
            InputType::Submit
        } else if str_eq(s, "reset") {
            InputType::Reset
        } else if str_eq(s, "button") {
            InputType::Button
        } else if str_eq(s, "hidden") {
            InputType::Hidden
        } else {
            InputType::Text
        }
    }
}

/// What reading a number input's value as a decimal number gave: whether it is a
/// number, and whether it falls below the `min` or above the `max` attribute (each
/// false when the attribute is absent or not a number).
#[derive(Debug, Clone, Copy)]
pub struct NumericFacts {
    pub is_number: bool,
    pub below_min: bool,
    pub above_max: bool,
}

/// Form element state.
#[derive(Debug, Clone)]
pub struct FormElement {
    pub id: u32,
    pub element_type: String,
    pub input_type: Option<InputType>,
    pub name: String,
    pub value: String,
    pub checked: bool,
    pub disabled: bool,
    pub readonly: bool,
    pub required: bool,
    pub pattern: Option<String>,
    pub min: Option<String>,
    pub max: Option<String>,
    pub min_length: Option<usize>,
    pub max_length: Option<usize>,
    pub placeholder: Option<String>,
    pub autocomplete: Option<String>,
    pub validation_message: Option<String>,
}

/// The simple email check: an `@` and a `.` somewhere.
pub open spec fn spec_is_valid_email(s: Seq<char>) -> bool {
    s.contains('@') && s.contains('.')
}

/// The simple URL check: an `http://` or `https://` prefix.
pub open spec fn spec_is_valid_url(s: Seq<char>) -> bool {
    starts_with(s, "http://"@) || starts_with(s, "https://"@)
}

/// The outcome of HTML5 validation, checked in order: required, the input type's
/// format, the pattern (which a non-empty value must match as a whole), then the
/// minimum and maximum length in bytes.
pub open spec fn spec_validation(e: FormElement, n: NumericFacts) -> Result<(), Seq<char>> {
    let v = e.value@;
    if e.required && v.len() == 0 {
        Err("This field is required"@)
    } else if e.input_type == Some(InputType::Email) && v.len() > 0 && !spec_is_valid_email(v) {
        Err("Please enter a valid email address"@)
    } else if e.input_type == Some(InputType::Url) && v.len() > 0 && !spec_is_valid_url(v) {
        Err("Please enter a valid URL"@)
    } else if e.input_type == Some(InputType::Number) && v.len() > 0 && !n.is_number {
        Err("Please enter a valid number"@)
    } else if e.input_type == Some(InputType::Number) && v.len() > 0 && e.min is Some && n.below_min {
        Err("Value must be at least "@ + e.min->0@)
    } else if e.input_type == Some(InputType::Number) && v.len() > 0 && e.max is Some && n.above_max {
        Err("Value must be at most "@ + e.max->0@)
    } else if e.pattern is Some && v.len() > 0 && !spec_pattern_matches(e.pattern->0@, v) {
        Err("Please match the requested format"@)
    } else if e.min_length is Some && byte_len(v) < e.min_length->0 {
        Err("Please use at least "@ + decimal(e.min_length->0 as nat) + " characters"@)
    } else if e.max_length is Some && byte_len(v) > e.max_length->0 {
        Err("Please use at most "@ + decimal(e.max_length->0 as nat) + " characters"@)
    } else {
        Ok(())
    }
}

/// A message made of `prefix`, a number and `suffix`.
fn number_message(prefix: &str, n: usize, suffix: &str) -> (r: String)
    ensures
        r@ == prefix@ + decimal(n as nat) + suffix@,
{
    let d = decimal_string(n);
    let mut r = concat(prefix, d.as_str());
    push_str(&mut r, suffix);
    r
}

impl FormElement {
    /// A new element of the given kind with a random id and every attribute unset.
    pub fn new(element_type: String) -> (r: Self)
        ensures
            r.element_type == element_type,
            r.input_type is None,
            r.name@ == Seq::<char>::empty(),
            r.value@ == Seq::<char>::empty(),
            !r.checked && !r.disabled && !r.readonly && !r.required,
            r.pattern is None && r.min is None && r.max is None,
            r.min_length is None && r.max_length is None,
            r.placeholder is None && r.autocomplete is None && r.validation_message is None,
    {
        FormElement {
            id: random_u32(),
            element_type,
            input_type: None,
            name: String::new(),
            value: String::new(),
            checked: false,
            disabled: false,
            readonly: false,
            required: false,
            pattern: None,
            min: None,
            max: None,
            min_length: None,
            max_length: None,
            placeholder: None,
            autocomplete: None,
            validation_message: None,
        }
    }

    /// Validates the element by the HTML5 rules, given what reading its value as a
    /// number gave (which only number inputs consult).
    pub fn validate(&self, numeric: NumericFacts) -> (r: Result<(), String>)
        ensures
            r is Ok <==> spec_validation(*self, numeric) is Ok,
            r matches Err(m) ==> spec_validation(*self, numeric) == Err::<(), Seq<char>>(m@),
    {
        let len = byte_length(self.value.as_str());
        let empty = self.value.as_str().is_empty();
        if self.required && empty {
            return Err(to_owned_string("This field is required"));
        }
        match self.input_type {
            Some(InputType::Email) => {
                if !empty && !self.is_valid_email(self.value.as_str()) {
                    return Err(to_owned_string("Please enter a valid email address"));
                }
            },
            Some(InputType::Url) => {
                if !empty && !self.is_valid_url(self.value.as_str()) {
                    return Err(to_owned_string("Please enter a valid URL"));
                }
            },
            Some(InputType::Number) => {
                if !empty {
                    if !numeric.is_number {
                        return Err(to_owned_string("Please enter a valid number"));
                    }
                    if let Some(min) = &self.min {
                        if numeric.below_min {
                            return Err(concat("Value must be at least ", min.as_str()));
                        }
                    }
                    if let Some(max) = &self.max {
                        if numeric.above_max {
                            return Err(concat("Value must be at most ", max.as_str()));
                        }
                    }
                }
            },
            _ => {},
        }
        if let Some(pattern) = &self.pattern {
            if !empty {
                if !self.matches_pattern(self.value.as_str(), pattern.as_str()) {
                    return Err(to_owned_string("Please match the requested format"));
                }
            }
        }
        if let Some(min_length) = self.min_length {
            if len < min_length {
                return Err(number_message("Please use at least ", min_length, " characters"));
            }
        }
        if let Some(max_length) = self.max_length {
            if len > max_length {
                return Err(number_message("Please use at most ", max_length, " characters"));
            }
        }
        Ok(())
    }

    /// The simple email check: the value holds an `@` and a `.`.
    pub fn is_valid_email(&self, email: &str) -> (r: bool)
        ensures
            r == spec_is_valid_email(email@),
    {
        let cs = chars_of(email);
        chars_contain(cs.as_slice(), '@') && chars_contain(cs.as_slice(), '.')
    }

    /// The simple URL check: the value starts with `http://` or `https://`.
    pub fn is_valid_url(&self, url: &str) -> (r: bool)
        ensures
            r == spec_is_valid_url(url@),
    {
        let cs = chars_of(url);
        let http = chars_of("http://");
        let https = chars_of("https://");
        chars_start_with(cs.as_slice(), http.as_slice()) || chars_start_with(cs.as_slice(), https.as_slice())
    }

    /// Whether the whole value matches the pattern (see `pattern_matches`).
    pub fn matches_pattern(&self, value: &str, pattern: &str) -> (r: bool)
        ensures
            r == spec_pattern_matches(pattern@, value@),
    {
        pattern_matches(pattern, value)
    }
}

/// Form state.
#[derive(Debug)]
pub struct Form {
    pub id: u32,
    pub action: String,
    pub method: String,
    pub enctype: String,
    pub elements: Vec<u32>,
}

impl Form {
    /// A new form with a random id: no action, method GET, URL-encoded, no elements.
    pub fn new() -> (r: Self)
        ensures
            r.action@ == Seq::<char>::empty(),
            r.method@ == "GET"@,
            r.enctype@ == "application/x-www-form-urlencoded"@,
            r.elements@.len() == 0,
    {
        Form {
            id: random_u32(),
            action: String::new(),
            method: to_owned_string("GET"),
            enctype: to_owned_string("application/x-www-form-urlencoded"),
            elements: Vec::new(),
        }
    }
}

/// An element with another value.
pub open spec fn with_value(e: FormElement, value: String) -> FormElement {
    FormElement { value, ..e }
}

/// An element with another checked state.
pub open spec fn with_checked(e: FormElement, checked: bool) -> FormElement {
    FormElement { checked, ..e }
}

/// An element with another validation message.
pub open spec fn with_message(e: FormElement, message: Option<String>) -> FormElement {
    FormElement { validation_message: message, ..e }
}

/// Whether every element of a form that is registered validates, element `i` of the
/// form judged with `facts[i]`.
pub open spec fn form_valid(form: Form, elements: Map<u32, FormElement>, facts: Seq<NumericFacts>) -> bool {
    forall|i: int| 0 <= i < form.elements@.len() && #[trigger] elements.contains_key(form.elements@[i]) ==>
        spec_validation(elements[form.elements@[i]], facts[i]) is Ok
}

/// The forms and form elements a script created, by ID.
pub struct FormRegistry {
    forms: HashMap<u32, Form>,
    elements: HashMap<u32, FormElement>,
}

impl FormRegistry {
    /// The forms by ID.
    pub closed spec fn forms(&self) -> Map<u32, Form> {
        self.forms@
    }

    /// The elements by ID.
    pub closed spec fn elements(&self) -> Map<u32, FormElement> {
        self.elements@
    }

    /// An empty registry.
    pub fn new() -> (r: Self)
        ensures
            r.forms() == Map::<u32, Form>::empty(),
            r.elements() == Map::<u32, FormElement>::empty(),
    {
        FormRegistry { forms: HashMap::new(), elements: HashMap::new() }
    }

    /// Register a form under its ID, which is returned; a form with the same ID is replaced.
    pub fn add_form(&mut self, form: Form) -> (r: u32)
        ensures
            r == form.id,
            final(self).forms() == old(self).forms().insert(form.id, form),
            final(self).elements() == old(self).elements(),
    {
        let id = form.id;
        self.forms.insert(id, form);
        id
    }

    /// Register an element under its ID, which is returned; an element with the same ID
    /// is replaced.
    pub fn add_element(&mut self, element: FormElement) -> (r: u32)
        ensures
            r == element.id,
            final(self).elements() == old(self).elements().insert(element.id, element),
            final(self).forms() == old(self).forms(),
    {
        let id = element.id;
        self.elements.insert(id, element);
        id
    }

    /// The element with an ID.
    pub fn element(&self, id: u32) -> (r: Option<&FormElement>)
        ensures
            self.elements().contains_key(id) ==> r == Some(&self.elements()[id]),
            !self.elements().contains_key(id) ==> r is None,
    {
        self.elements.get(&id)
    }

    /// The form with an ID.
    pub fn form(&self, id: u32) -> (r: Option<&Form>)
        ensures
            self.forms().contains_key(id) ==> r == Some(&self.forms()[id]),
            !self.forms().contains_key(id) ==> r is None,
    {
        self.forms.get(&id)
    }

    /// Set an element's value; an unknown ID changes nothing.
    pub fn set_value(&mut self, id: u32, value: String)
        ensures
            final(self).forms() == old(self).forms(),
            final(self).elements() == (if old(self).elements().contains_key(id) {
                old(self).elements().insert(id, with_value(old(self).elements()[id], value))
            } else {
                old(self).elements()
            }),
    {
        match self.elements.remove(&id) {
            Some(mut e) => {
                e.value = value;
                self.elements.insert(id, e);
                assert(self.elements@ =~= old(self).elements@.insert(id, with_value(old(self).elements@[id], value)));
            },
            None => {
                assert(self.elements@ =~= old(self).elements@);
            },
        }
    }

    /// An element's value, or `None` for an unknown ID.
    pub fn get_value(&self, id: u32) -> (r: Option<String>)
        ensures
            self.elements().contains_key(id) ==> (r matches Some(v) && v@ == self.elements()[id].value@),
            !self.elements().contains_key(id) ==> r is None,
    {
        match self.elements.get(&id) {
            Some(e) => Some(to_owned_string(e.value.as_str())),
            None => None,
        }
    }

    /// Set an element's checked state; an unknown ID changes nothing.
    pub fn set_checked(&mut self, id: u32, checked: bool)
        ensures
            final(self).forms() == old(self).forms(),
            final(self).elements() == (if old(self).elements().contains_key(id) {
                old(self).elements().insert(id, with_checked(old(self).elements()[id], checked))
            } else {
                old(self).elements()
            }),
    {
        match self.elements.remove(&id) {
            Some(mut e) => {
                e.checked = checked;
                self.elements.insert(id, e);
                assert(self.elements@ =~= old(self).elements@.insert(id, with_checked(old(self).elements@[id], checked)));
            },
            None => {
                assert(self.elements@ =~= old(self).elements@);
            },
        }
    }

    /// Validate an element, judged with `numeric`: `true` where it is valid. Where it
    /// is not, the message is kept as its validation message and the result is
    /// `false`; an unknown ID is `false` and changes nothing.
    pub fn validate(&mut self, id: u32, numeric: NumericFacts) -> (r: bool)
        ensures
            final(self).forms() == old(self).forms(),
            !old(self).elements().contains_key(id) ==> !r && final(self).elements() == old(self).elements(),
            old(self).elements().contains_key(id) ==> match spec_validation(old(self).elements()[id], numeric) {
                Ok(_) => r && final(self).elements() == old(self).elements(),
                Err(m) => !r
                    && final(self).elements().dom() == old(self).elements().dom()
                    && (forall|k: u32| k != id && #[trigger] old(self).elements().contains_key(k) ==>
                        final(self).elements()[k] == old(self).elements()[k])
                    && (final(self).elements()[id].validation_message matches Some(s) && s@ == m)
                    && final(self).elements()[id] == with_message(old(self).elements()[id], final(self).elements()[id].validation_message),
            },
    {
        match self.elements.remove(&id) {
            Some(mut e) => {
                match e.validate(numeric) {
                    Ok(()) => {
                        self.elements.insert(id, e);
                        assert(self.elements@ =~= old(self).elements@);
                        true
                    },
                    Err(m) => {
                        e.validation_message = Some(m);
                        self.elements.insert(id, e);
                        assert(self.elements@.dom() =~= old(self).elements@.dom());
                        false
                    },
                }
            },
            None => {
                assert(self.elements@ =~= old(self).elements@);
                false
            },
        }
    }

    /// An element's validation message; empty where it has none or the ID is unknown.
    pub fn validation_message(&self, id: u32) -> (r: String)
        ensures
            r@ == (if self.elements().contains_key(id) && self.elements()[id].validation_message is Some {
                self.elements()[id].validation_message->0@
            } else {
                Seq::<char>::empty()
            }),
    {
        match self.elements.get(&id) {
            Some(e) => match &e.validation_message {
                Some(m) => to_owned_string(m.as_str()),
                None => String::new(),
            },
            None => String::new(),
        }
    }

    /// Submit a form: `true` where every registered element of it validates, element
    /// `i` of the form judged with `facts[i]`; `false` for an unknown form.
    pub fn submit(&self, form_id: u32, facts: &Vec<NumericFacts>) -> (r: bool)
        requires
            self.forms().contains_key(form_id) ==> facts@.len() >= self.forms()[form_id].elements@.len(),
        ensures
            r == (self.forms().contains_key(form_id) && form_valid(self.forms()[form_id], self.elements(), facts@)),
    {
        let form = match self.forms.get(&form_id) {
            Some(f) => f,
            None => return false,
        };
        let mut i: usize = 0;
        while i < form.elements.len()
            invariant
                i <= form.elements@.len(),
                form == self.forms()[form_id],
                facts@.len() >= form.elements@.len(),
                forall|j: int| 0 <= j < i && #[trigger] self.elements().contains_key(form.elements@[j]) ==>
                    spec_validation(self.elements()[form.elements@[j]], facts@[j]) is Ok,
            decreases form.elements@.len() - i,
        {
            let eid = form.elements[i];
            match self.elements.get(&eid) {
                Some(e) => {
                    if e.validate(facts[i]).is_err() {
                        return false;
                    }
                },
                None => {},
            }
            i = i + 1;
        }
        true
    }
}

/// What is written to an element's value is read back: after `set_value(id, value)` on
/// a registered element, `get_value(id)` gives `value`.
pub proof fn law_value_read_after_write(
    before: FormRegistry,
    after: FormRegistry,
    id: u32,
    value: String,
    read: Option<String>,
)
    requires
        before.elements().contains_key(id),
        after.elements() == before.elements().insert(id, with_value(before.elements()[id], value)),
        after.elements().contains_key(id) ==> (read matches Some(v) && v@ == after.elements()[id].value@),
    ensures
        read matches Some(v) && v@ == value@,
{
}

/// The URL check accepts exactly the values that begin with `http://` or with
/// `https://`: a secure URL passes as a plain one does.
pub proof fn law_url_check_accepts_both_schemes(s: Seq<char>)
    ensures
        (s.len() >= 7 && s.take(7) == seq!['h', 't', 't', 'p', ':', '/', '/']) ==> spec_is_valid_url(s),
        (s.len() >= 8 && s.take(8) == seq!['h', 't', 't', 'p', 's', ':', '/', '/']) ==> spec_is_valid_url(s),
        spec_is_valid_url(s) ==> (s.len() >= 7 && s.take(7) == seq!['h', 't', 't', 'p', ':', '/', '/'])
            || (s.len() >= 8 && s.take(8) == seq!['h', 't', 't', 'p', 's', ':', '/', '/']),
{
    reveal_strlit("http://");
    reveal_strlit("https://");
    assert("http://"@ =~= seq!['h', 't', 't', 'p', ':', '/', '/']);
    assert("https://"@ =~= seq!['h', 't', 't', 'p', 's', ':', '/', '/']);
}

/// A URL input whose value begins with `http://` or `https://`, with no pattern and no
/// length limits, validates.
pub proof fn law_url_input_with_scheme_validates(e: FormElement, n: NumericFacts)
    requires
        e.input_type == Some(InputType::Url),
        (e.value@.len() >= 7 && e.value@.take(7) == seq!['h', 't', 't', 'p', ':', '/', '/'])
            || (e.value@.len() >= 8 && e.value@.take(8) == seq!['h', 't', 't', 'p', 's', ':', '/', '/']),
        e.pattern is None,
        e.min_length is None,
        e.max_length is None,
    ensures
        spec_validation(e, n) == Ok::<(), Seq<char>>(()),
{
    law_url_check_accepts_both_schemes(e.value@);
}

/// Form API bindings.
pub struct FormApi;

} // verus!
