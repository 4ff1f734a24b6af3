//! SVG elements and SVG color parsing.
use vstd::prelude::*;
use vstd::string::StringSliceAdditionalSpecFns;
use crate::strs::{lowercase_of, str_eq, to_lowercase};
use crate::string_map::StringMap;
use crate::random::random_u32;
use std::collections::HashMap;

verus! {

broadcast use vstd::std_specs::hash::group_hash_axioms;

/// SVG element types.
#[derive(Debug, Clone, PartialEq, Eq, Structural)]
pub enum SvgElementType {
    Svg,
    Rect,
    Circle,
    Ellipse,
    Line,
    Polyline,
    Polygon,
    Path,
    Text,
    Group,
    Defs,
    Use,
    LinearGradient,
    RadialGradient,
    Pattern,
}

/// An SVG element: its type, attributes and children.
#[derive(Debug)]
pub struct SvgElement {
    pub id: u32,
    pub element_type: SvgElementType,
    pub attributes: StringMap<String>,
    pub children: Vec<u32>,
}

impl SvgElement {
    /// Creates an element with a random id and no attributes or children.
    pub fn new(element_type: SvgElementType) -> (r: Self)
        ensures
            r.element_type == element_type,
            r.attributes.wf(),
            r.attributes.map() == Map::<Seq<char>, String>::empty(),
            r.children@.len() == 0,
    {
        SvgElement { id: random_u32(), element_type, attributes: StringMap::new(), children: Vec::new() }
    }

    /// Sets an attribute.
    pub fn set_attribute(&mut self, name: String, value: String)
        requires
            old(self).attributes.wf(),
        ensures
            final(self).attributes.wf(),
            final(self).attributes.map() == old(self).attributes.map().insert(name@, value),
            final(self).id == old(self).id,
            final(self).element_type == old(self).element_type,
            final(self).children == old(self).children,
    {
        self.attributes.insert(name, value);
    }

    /// The value of an attribute.
    pub fn get_attribute(&self, name: &str) -> (r: Option<&String>)
        requires
            self.attributes.wf(),
        ensures
            self.attributes.map().contains_key(name@) ==> r == Some(&self.attributes.map()[name@]),
            !self.attributes.map().contains_key(name@) ==> r is None,
    {
        self.attributes.get(name)
    }
}

/// The value of a hexadecimal digit byte.
pub open spec fn hex_digit_value(b: u8) -> Option<u8> {
    if 48 <= b <= 57 {
        Some((b - 48) as u8)
    } else if 97 <= b <= 102 {
        Some((b - 87) as u8)
    } else if 65 <= b <= 70 {
        Some((b - 55) as u8)
    } else {
        None
    }
}

/// What `u8::from_str_radix(s, 16)` gives for a two-byte string `a b`: an optional
/// `+` sign followed by hexadecimal digits only.
pub open spec fn hex_pair_value(a: u8, b: u8) -> Option<u8> {
    if a == 43 {
        hex_digit_value(b)
    } else {
        match (hex_digit_value(a), hex_digit_value(b)) {
            (Some(x), Some(y)) => Some((16 * x + y) as u8),
            _ => None,
        }
    }
}

/// The colors that have a name.
pub open spec fn spec_named_svg_color(name: Seq<char>) -> Option<(u8, u8, u8, u8)> {
    if name == "black"@ {
        Some((0, 0, 0, 255))
    } else if name == "white"@ {
        Some((255, 255, 255, 255))
    } else if name == "red"@ {
        Some((255, 0, 0, 255))
    } else if name == "green"@ {
        Some((0, 128, 0, 255))
    } else if name == "blue"@ {
        Some((0, 0, 255, 255))
    } else if name == "yellow"@ {
        Some((255, 255, 0, 255))
    } else if name == "cyan"@ {
        Some((0, 255, 255, 255))
    } else if name == "magenta"@ {
        Some((255, 0, 255, 255))
    } else if name == "transparent"@ {
        Some((0, 0, 0, 0))
    } else {
        None
    }
}

/// Three color channels with full opacity, when all three are present.
pub open spec fn rgb_opaque(r: Option<u8>, g: Option<u8>, b: Option<u8>) -> Option<(u8, u8, u8, u8)> {
    match (r, g, b) {
        (Some(r), Some(g), Some(b)) => Some((r, g, b, 255)),
        _ => None,
    }
}

/// The color that `parse_svg_color` reads from a string with characters `s` and UTF-8
/// bytes `b`, given `lower`, the string's lowercase form: `#rgb` or `#rrggbb`, else a name.
pub open spec fn spec_svg_color(b: Seq<u8>, lower: Seq<char>) -> Option<(u8, u8, u8, u8)> {
    if b.len() > 0 && b[0] == 35 && b.len() == 4 {
        rgb_opaque(hex_pair_value(b[1], b[1]), hex_pair_value(b[2], b[2]), hex_pair_value(b[3], b[3]))
    } else if b.len() > 0 && b[0] == 35 && b.len() == 7 {
        rgb_opaque(hex_pair_value(b[1], b[2]), hex_pair_value(b[3], b[4]), hex_pair_value(b[5], b[6]))
    } else {
        spec_named_svg_color(lower)
    }
}

/// The value of a hexadecimal digit byte.
fn hex_digit(b: u8) -> (r: Option<u8>)
    ensures
        r == hex_digit_value(b),
{
    if 48 <= b && b <= 57 {
        Some(b - 48)
    } else if 97 <= b && b <= 102 {
        Some(b - 87)
    } else if 65 <= b && b <= 70 {
        Some(b - 55)
    } else {
        None
    }
}

/// Parses two bytes as `u8::from_str_radix` does in base 16.
pub fn hex_pair(a: u8, b: u8) -> (r: Option<u8>)
    ensures
        r == hex_pair_value(a, b),
{
    if a == 43 {
        hex_digit(b)
    } else {
        match (hex_digit(a), hex_digit(b)) {
            (Some(x), Some(y)) => Some(16 * x + y),
            _ => None,
        }
    }
}

/// The color with the given (lowercase) name.
pub fn named_svg_color(name: &str) -> (r: Option<(u8, u8, u8, u8)>)
    ensures
        r == spec_named_svg_color(name@),
{
    if str_eq(name, "black") {
        Some((0, 0, 0, 255))
    } else if str_eq(name, "white") {
        Some((255, 255, 255, 255))
    } else if str_eq(name, "red") {
        Some((255, 0, 0, 255))
    } else if str_eq(name, "green") {
        Some((0, 128, 0, 255))
    } else if str_eq(name, "blue") {
        Some((0, 0, 255, 255))
    } else if str_eq(name, "yellow") {
        Some((255, 255, 0, 255))
    } else if str_eq(name, "cyan") {
        Some((0, 255, 255, 255))
    } else if str_eq(name, "magenta") {
        Some((255, 0, 255, 255))
    } else if str_eq(name, "transparent") {
        Some((0, 0, 0, 0))
    } else {
        None
    }
}

/// Converts an SVG color string to RGBA: `#rgb`, `#rrggbb` or a color name in any case;
/// `None` for anything else, a `#` form with a byte that is not a hexadecimal digit
/// (such as one of a character outside ASCII) among them.
pub fn parse_svg_color(color: &str) -> (r: Option<(u8, u8, u8, u8)>)
    ensures
        r == spec_svg_color(color.spec_bytes(), lowercase_of(color@)),
{
    let b = color.as_bytes();
    if b.len() > 0 && b[0] == 35 {
        if b.len() == 4 {
            return rgb(hex_pair(b[1], b[1]), hex_pair(b[2], b[2]), hex_pair(b[3], b[3]));
        } else if b.len() == 7 {
            return rgb(hex_pair(b[1], b[2]), hex_pair(b[3], b[4]), hex_pair(b[5], b[6]));
        }
    }
    let lower = to_lowercase(color);
    named_svg_color(lower.as_str())
}

/// Three channels with full opacity, when all three are present.
fn rgb(r: Option<u8>, g: Option<u8>, b: Option<u8>) -> (c: Option<(u8, u8, u8, u8)>)
    ensures
        c == rgb_opaque(r, g, b),
{
    match (r, g, b) {
        (Some(r), Some(g), Some(b)) => Some((r, g, b, 255)),
        _ => None,
    }
}

/// The SVG elements a script created, by ID.
pub struct SvgRegistry {
    elements: HashMap<u32, SvgElement>,
}

impl SvgRegistry {
    /// The elements by ID.
    pub closed spec fn elements(&self) -> Map<u32, SvgElement> {
        self.elements@
    }

    /// The registry's invariant: every element's attribute map is sound.
    pub closed spec fn wf(&self) -> bool {
        forall|k: u32| #[trigger] self.elements@.contains_key(k) ==> self.elements@[k].attributes.wf()
    }

    /// An empty registry.
    pub fn new() -> (r: Self)
        ensures
            r.wf(),
            r.elements() == Map::<u32, SvgElement>::empty(),
    {
        SvgRegistry { elements: HashMap::new() }
    }

    /// Create an element of a type with a random ID and register it; the ID is
    /// returned. An element with the same ID is replaced.
    pub fn create(&mut self, element_type: SvgElementType) -> (r: u32)
        requires
            old(self).wf(),
        ensures
            final(self).wf(),
            final(self).elements().dom() == old(self).elements().dom().insert(r),
            forall|k: u32| k != r && #[trigger] old(self).elements().contains_key(k) ==> final(self).elements()[k] == old(self).elements()[k],
            final(self).elements()[r].id == r,
            final(self).elements()[r].element_type == element_type,
            final(self).elements()[r].attributes.map() == Map::<Seq<char>, String>::empty(),
            final(self).elements()[r].children@.len() == 0,
    {
        let e = SvgElement::new(element_type);
        let id = e.id;
        self.elements.insert(id, e);
        id
    }

    /// Set an attribute of an element; an unknown ID changes nothing.
    pub fn set_attribute(&mut self, id: u32, name: String, value: String)
        requires
            old(self).wf(),
        ensures
            final(self).wf(),
            final(self).elements().dom() == old(self).elements().dom(),
            forall|k: u32| k != id && #[trigger] old(self).elements().contains_key(k) ==> final(self).elements()[k] == old(self).elements()[k],
            old(self).elements().contains_key(id) ==> {
                &&& final(self).elements()[id].attributes.map() == old(self).elements()[id].attributes.map().insert(name@, value)
                &&& final(self).elements()[id].id == old(self).elements()[id].id
                &&& final(self).elements()[id].element_type == old(self).elements()[id].element_type
                &&& final(self).elements()[id].children == old(self).elements()[id].children
            },
    {
        match self.elements.remove(&id) {
            Some(mut e) => {
                e.set_attribute(name, value);
                self.elements.insert(id, e);
                assert(self.elements@.dom() =~= old(self).elements@.dom());
            },
            None => {
                assert(self.elements@ =~= old(self).elements@);
            },
        }
    }

    /// The value of an element's attribute; `None` where the element or the attribute
    /// is unknown.
    pub fn get_attribute(&self, id: u32, name: &str) -> (r: Option<String>)
        requires
            self.wf(),
        ensures
            (self.elements().contains_key(id) && self.elements()[id].attributes.map().contains_key(name@))
                ==> (r matches Some(v) && v@ == self.elements()[id].attributes.map()[name@]@),
            !(self.elements().contains_key(id) && self.elements()[id].attributes.map().contains_key(name@)) ==> r is None,
    {
        match self.elements.get(&id) {
            Some(e) => match e.get_attribute(name) {
                Some(v) => Some(crate::strs::to_owned_string(v.as_str())),
                None => None,
            },
            None => None,
        }
    }

    /// The type of an element, or `None` for an unknown ID.
    pub fn element_type(&self, id: u32) -> (r: Option<SvgElementType>)
        ensures
            self.elements().contains_key(id) ==> r == Some(self.elements()[id].element_type),
            !self.elements().contains_key(id) ==> r is None,
    {
        match self.elements.get(&id) {
            Some(e) => Some(copy_type(&e.element_type)),
            None => None,
        }
    }
}

/// A copy of an element type.
fn copy_type(t: &SvgElementType) -> (r: SvgElementType)
    ensures
        r == *t,
{
    match t {
        SvgElementType::Svg => SvgElementType::Svg,
        SvgElementType::Rect => SvgElementType::Rect,
        SvgElementType::Circle => SvgElementType::Circle,
        SvgElementType::Ellipse => SvgElementType::Ellipse,
        SvgElementType::Line => SvgElementType::Line,
        SvgElementType::Polyline => SvgElementType::Polyline,
        SvgElementType::Polygon => SvgElementType::Polygon,
        SvgElementType::Path => SvgElementType::Path,
        SvgElementType::Text => SvgElementType::Text,
        SvgElementType::Group => SvgElementType::Group,
        SvgElementType::Defs => SvgElementType::Defs,
        SvgElementType::Use => SvgElementType::Use,
        SvgElementType::LinearGradient => SvgElementType::LinearGradient,
        SvgElementType::RadialGradient => SvgElementType::RadialGradient,
        SvgElementType::Pattern => SvgElementType::Pattern,
    }
}

/// What is written to an element's attribute is read back: after
/// `set_attribute(id, name, value)` on a registered element,
/// `get_attribute(id, name)` gives `value`.
pub proof fn law_attribute_read_after_write(
    before: SvgRegistry,
    after: SvgRegistry,
    id: u32,
    name: String,
    value: String,
    read: Option<String>,
)
    requires
        before.elements().contains_key(id),
        after.elements().dom() == before.elements().dom(),
        after.elements()[id].attributes.map() == before.elements()[id].attributes.map().insert(name@, value),
        (after.elements().contains_key(id) && after.elements()[id].attributes.map().contains_key(name@))
            ==> (read matches Some(v) && v@ == after.elements()[id].attributes.map()[name@]@),
    ensures
        read matches Some(v) && v@ == value@,
{
}

/// The number a hexadecimal digit byte (`0-9`, `a-f` or `A-F`) stands for.
pub open spec fn digit_of(b: u8) -> int {
    if b <= 57 {
        b - 48
    } else if b <= 70 {
        b - 55
    } else {
        b - 87
    }
}

/// Whether a byte is a hexadecimal digit: `0-9`, `a-f` or `A-F`.
pub open spec fn is_hex_digit_byte(b: u8) -> bool {
    (48 <= b <= 57) || (97 <= b <= 102) || (65 <= b <= 70)
}

/// A `#rrggbb` color of hexadecimal digits reads each channel from its pair of digits,
/// the first digit the high one: the channel is sixteen times the first digit's value
/// plus the second's, and the color is opaque. So `#1a2b3c` is `(0x1a, 0x2b, 0x3c, 255)`.
pub proof fn law_long_hex_color_channels(b: Seq<u8>, lower: Seq<char>)
    requires
        b.len() == 7,
        b[0] == 35,
        forall|k: int| 1 <= k < 7 ==> is_hex_digit_byte(#[trigger] b[k]),
    ensures
        spec_svg_color(b, lower) == Some((
            (16 * digit_of(b[1]) + digit_of(b[2])) as u8,
            (16 * digit_of(b[3]) + digit_of(b[4])) as u8,
            (16 * digit_of(b[5]) + digit_of(b[6])) as u8,
            255u8,
        )),
        0 <= 16 * digit_of(b[1]) + digit_of(b[2]) <= 255,
        0 <= 16 * digit_of(b[3]) + digit_of(b[4]) <= 255,
        0 <= 16 * digit_of(b[5]) + digit_of(b[6]) <= 255,
{
    assert(is_hex_digit_byte(b[1]) && is_hex_digit_byte(b[2]) && is_hex_digit_byte(b[3]));
    assert(is_hex_digit_byte(b[4]) && is_hex_digit_byte(b[5]) && is_hex_digit_byte(b[6]));
}

/// A `#rgb` color of hexadecimal digits doubles each digit: each channel is seventeen
/// times its digit's value, and the color is opaque. So `#fa0` is `(0xff, 0xaa, 0x00, 255)`.
pub proof fn law_short_hex_color_channels(b: Seq<u8>, lower: Seq<char>)
    requires
        b.len() == 4,
        b[0] == 35,
        forall|k: int| 1 <= k < 4 ==> is_hex_digit_byte(#[trigger] b[k]),
    ensures
        spec_svg_color(b, lower) == Some((
            (17 * digit_of(b[1])) as u8,
            (17 * digit_of(b[2])) as u8,
            (17 * digit_of(b[3])) as u8,
            255u8,
        )),
        0 <= 17 * digit_of(b[1]) <= 255,
        0 <= 17 * digit_of(b[2]) <= 255,
        0 <= 17 * digit_of(b[3]) <= 255,
{
    assert(is_hex_digit_byte(b[1]) && is_hex_digit_byte(b[2]) && is_hex_digit_byte(b[3]));
}

/// SVG API bindings.
pub struct SvgApi;

} // verus!
