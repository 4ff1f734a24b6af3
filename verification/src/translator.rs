//! The translation layer: web API calls become state instructions, size requests
//! and fills, while the translator keeps each node's tag, attributes and styles.
use vstd::prelude::*;
use std::collections::HashMap;
use crate::bridge::NodeId;
use crate::state::StatePrimitive;
use crate::string_map::StringMap;
use crate::strs::{str_eq, to_owned_string, concat, chars_of, utf8_width, byte_len, string_views};
use crate::unicode::{trimmed, trim_string};
use crate::svg::{hex_pair, hex_pair_value};
use crate::text_split::{split_char, split_once, split_on, split_first};
use vstd::string::StrSliceExecFns;

verus! {

broadcast use vstd::std_specs::hash::group_hash_axioms;

/// A web API call, as the script side records it.
#[derive(Debug, Clone)]
pub enum WebCall {
    CreateElement { node: NodeId, tag: String },
    CreateTextNode { node: NodeId, text: String },
    AppendChild { parent: NodeId, child: NodeId, index: u32 },
    RemoveChild { parent: NodeId, child: NodeId },
    InsertBefore { parent: NodeId, new_child: NodeId, ref_child: NodeId },
    SetAttribute { node: NodeId, name: String, value: String },
    RemoveAttribute { node: NodeId, name: String },
    AddClass { node: NodeId, class: String },
    SetInlineStyle { node: NodeId, css: String },
}

/// A dimension of a node's size.
#[derive(Debug, Clone, Copy, PartialEq, Eq, Structural)]
pub enum Axis {
    Width,
    Height,
}

/// What a call translates to.
#[derive(Debug)]
pub enum Translation {
    /// A state instruction.
    State(StatePrimitive),
    /// Set one dimension of a node's size to a CSS length (a number, with or without
    /// `px`); a length that is no number gives no instruction.
    SizeFromLength { node: NodeId, axis: Axis, length: String },
    /// Fill a rectangle with a color.
    FillRect { color: (u8, u8, u8, u8) },
}

/// A translation as plain values.
pub enum TView {
    State(StatePrimitive),
    Size(NodeId, Axis, Seq<char>),
    Fill((u8, u8, u8, u8)),
}

/// A translation as plain values.
pub open spec fn tview(t: Translation) -> TView {
    match t {
        Translation::State(s) => TView::State(s),
        Translation::SizeFromLength { node, axis, length } => TView::Size(node, axis, length@),
        Translation::FillRect { color } => TView::Fill(color),
    }
}

/// Translations as plain values.
pub open spec fn tviews(v: Seq<Translation>) -> Seq<TView> {
    v.map_values(|t: Translation| tview(t))
}

/// A node's metadata as plain values: tag, attributes, styles.
pub type MetaView = (Seq<char>, Map<Seq<char>, Seq<char>>, Map<Seq<char>, Seq<char>>);

/// The colors that have a name here.
pub open spec fn named_css_color(t: Seq<char>) -> Option<(u8, u8, u8, u8)> {
    if t == "red"@ {
        Some((255u8, 0u8, 0u8, 255u8))
    } else if t == "green"@ {
        Some((0u8, 255u8, 0u8, 255u8))
    } else if t == "blue"@ {
        Some((0u8, 0u8, 255u8, 255u8))
    } else if t == "white"@ {
        Some((255u8, 255u8, 255u8, 255u8))
    } else if t == "black"@ {
        Some((0u8, 0u8, 0u8, 255u8))
    } else {
        None
    }
}

/// Whether every character is ASCII.
pub open spec fn all_ascii(s: Seq<char>) -> bool {
    forall|i: int| 0 <= i < s.len() ==> (#[trigger] s[i] as u32) < 128
}

/// Whether byte offset `b` of the UTF-8 encoding of `h` falls between characters.
pub open spec fn has_boundary(h: Seq<char>, b: nat) -> bool {
    exists|k: int| 0 <= k <= h.len() && byte_len(#[trigger] h.take(k)) == b
}

/// A CSS color: a name, or `#` and six hex digits (each pair read as
/// `u8::from_str_radix` reads it).
pub open spec fn css_color(t: Seq<char>) -> Option<(u8, u8, u8, u8)> {
    match named_css_color(t) {
        Some(c) => Some(c),
        None => if t.len() > 0 && t[0] == '#' && byte_len(t.drop_first()) == 6 && all_ascii(t.drop_first()) {
            let h = t.drop_first();
            match (
                hex_pair_value(h[0] as u8, h[1] as u8),
                hex_pair_value(h[2] as u8, h[3] as u8),
                hex_pair_value(h[4] as u8, h[5] as u8),
            ) {
                (Some(r), Some(g), Some(b)) => Some((r, g, b, 255u8)),
                _ => None,
            }
        } else {
            None
        },
    }
}

/// Where reading a six-byte `#` color two bytes at a time would cut a character in two.
pub open spec fn css_color_cuts_char(t: Seq<char>) -> bool {
    &&& named_css_color(t) is None
    &&& t.len() > 0
    &&& t[0] == '#'
    &&& byte_len(t.drop_first()) == 6
    &&& !(has_boundary(t.drop_first(), 2) && has_boundary(t.drop_first(), 4))
}

/// The instructions an attribute gives: a size request for `width` or `height`.
pub open spec fn attr_ops(node: NodeId, name: Seq<char>, value: Seq<char>) -> Seq<TView> {
    if name == "width"@ {
        seq![TView::Size(node, Axis::Width, value)]
    } else if name == "height"@ {
        seq![TView::Size(node, Axis::Height, value)]
    } else {
        seq![]
    }
}

/// The instructions a CSS property gives: a size request for `width` or `height`, a
/// fill for a `background-color` or `background` that is a color.
pub open spec fn css_ops(node: NodeId, name: Seq<char>, value: Seq<char>) -> Seq<TView> {
    if name == "width"@ || name == "height"@ {
        attr_ops(node, name, value)
    } else if name == "background-color"@ || name == "background"@ {
        match css_color(trimmed(value)) {
            Some(c) => seq![TView::Fill(c)],
            None => seq![],
        }
    } else {
        seq![]
    }
}

/// The metadata with an attribute set, where the node has metadata.
pub open spec fn with_attr(meta: Map<u32, MetaView>, node: NodeId, name: Seq<char>, value: Seq<char>) -> Map<u32, MetaView> {
    if meta.contains_key(node.0) {
        let m = meta[node.0];
        meta.insert(node.0, (m.0, m.1.insert(name, value), m.2))
    } else {
        meta
    }
}

/// The metadata with an attribute removed, where the node has metadata.
pub open spec fn without_attr(meta: Map<u32, MetaView>, node: NodeId, name: Seq<char>) -> Map<u32, MetaView> {
    if meta.contains_key(node.0) {
        let m = meta[node.0];
        meta.insert(node.0, (m.0, m.1.remove(name), m.2))
    } else {
        meta
    }
}

/// The metadata with a style set, where the node has metadata.
pub open spec fn with_style(meta: Map<u32, MetaView>, node: NodeId, name: Seq<char>, value: Seq<char>) -> Map<u32, MetaView> {
    if meta.contains_key(node.0) {
        let m = meta[node.0];
        meta.insert(node.0, (m.0, m.1, m.2.insert(name, value)))
    } else {
        meta
    }
}

/// The declaration a piece of inline CSS holds: its trimmed name and value, where
/// the trimmed piece is not empty and has a colon.
pub open spec fn declaration(piece: Seq<char>) -> Option<(Seq<char>, Seq<char>)> {
    let t = trimmed(piece);
    if t.len() == 0 {
        None
    } else {
        match split_once(t, ':') {
            Some((n, v)) => Some((trimmed(n), trimmed(v))),
            None => None,
        }
    }
}

/// The declarations of inline CSS applied in order: the styles recorded and the
/// instructions given.
pub open spec fn style_fold(meta: Map<u32, MetaView>, node: NodeId, pieces: Seq<Seq<char>>) -> (Map<u32, MetaView>, Seq<TView>)
    decreases pieces.len(),
{
    if pieces.len() == 0 {
        (meta, seq![])
    } else {
        let (m1, ops1) = style_fold(meta, node, pieces.drop_last());
        match declaration(pieces.last()) {
            Some((n, v)) => (with_style(m1, node, n, v), ops1 + css_ops(node, n, v)),
            None => (m1, ops1),
        }
    }
}

/// Whether no color in inline CSS would have a character cut in two.
pub open spec fn css_colors_readable(css: Seq<char>) -> bool {
    let pieces = split_char(css, ';');
    forall|i: int| 0 <= i < pieces.len() ==> match #[trigger] declaration(pieces[i]) {
        Some((n, v)) => (n == "background-color"@ || n == "background"@) ==> !css_color_cuts_char(trimmed(v)),
        None => true,
    }
}

/// Whether a call can be translated: no color it sets would have a character cut in two.
pub open spec fn call_translatable(call: WebCall) -> bool {
    match call {
        WebCall::SetInlineStyle { css, .. } => css_colors_readable(css@),
        _ => true,
    }
}

/// The class attribute after adding a class to the current one.
pub open spec fn class_after(meta: Map<u32, MetaView>, node: NodeId, class: Seq<char>) -> Seq<char> {
    let current = if meta.contains_key(node.0) && meta[node.0].1.contains_key("class"@) {
        meta[node.0].1["class"@]
    } else {
        Seq::<char>::empty()
    };
    if current.len() == 0 { class } else { current + " "@ + class }
}

/// What a call does to the metadata, and the instructions it gives.
pub open spec fn spec_translate(meta: Map<u32, MetaView>, call: WebCall) -> (Map<u32, MetaView>, Seq<TView>) {
    match call {
        WebCall::CreateElement { node, tag } => (
            meta.insert(node.0, (tag@, Map::empty(), Map::empty())),
            seq![TView::State(StatePrimitive::NodeCreate { node })],
        ),
        WebCall::CreateTextNode { node, .. } => (
            meta.insert(node.0, ("#text"@, Map::empty(), Map::empty())),
            seq![TView::State(StatePrimitive::NodeCreate { node })],
        ),
        WebCall::AppendChild { parent, child, .. } => (
            meta,
            seq![TView::State(StatePrimitive::NodeAttach { node: child, parent, index: 0 })],
        ),
        WebCall::RemoveChild { child, .. } => (meta, seq![TView::State(StatePrimitive::NodeDetach { node: child })]),
        WebCall::InsertBefore { parent, new_child, .. } => (
            meta,
            seq![TView::State(StatePrimitive::NodeAttach { node: new_child, parent, index: 0 })],
        ),
        WebCall::SetAttribute { node, name, value } => (
            with_attr(meta, node, name@, value@),
            attr_ops(node, name@, value@),
        ),
        WebCall::RemoveAttribute { node, name } => (without_attr(meta, node, name@), seq![]),
        WebCall::AddClass { node, class } => (
            with_attr(meta, node, "class"@, class_after(meta, node, class@)),
            seq![],
        ),
        WebCall::SetInlineStyle { node, css } => style_fold(meta, node, split_char(css@, ';')),
    }
}

/// Metadata about a node needed for translation.
pub struct NodeMetadata {
    pub tag: String,
    pub attributes: StringMap<String>,
    pub styles: StringMap<String>,
}

/// A node's metadata as plain values.
pub open spec fn meta_view(m: NodeMetadata) -> MetaView {
    (m.tag@, m.attributes.map().map_values(|v: String| v@), m.styles.map().map_values(|v: String| v@))
}

/// Web API translator: turns web API calls into instructions.
pub struct WebApiTranslator {
    pending_calls: Vec<WebCall>,
    node_metadata: HashMap<u32, NodeMetadata>,
}

impl WebApiTranslator {
    /// The metadata of each node, by node ID.
    pub closed spec fn metadata(&self) -> Map<u32, MetaView> {
        self.node_metadata@.map_values(|m: NodeMetadata| meta_view(m))
    }

    /// The calls queued for the next flush, oldest first.
    pub closed spec fn pending(&self) -> Seq<WebCall> {
        self.pending_calls@
    }

    /// The translator's invariant: every node's attribute and style maps are sound.
    pub closed spec fn wf(&self) -> bool {
        forall|k: u32| #[trigger] self.node_metadata@.contains_key(k) ==>
            self.node_metadata@[k].attributes.wf() && self.node_metadata@[k].styles.wf()
    }

    /// A translator with no metadata and no queued calls.
    pub fn new() -> (r: Self)
        ensures
            r.wf(),
            r.metadata() == Map::<u32, MetaView>::empty(),
            r.pending() == Seq::<WebCall>::empty(),
    {
        let r = WebApiTranslator { pending_calls: Vec::new(), node_metadata: HashMap::new() };
        assert(r.metadata() =~= Map::<u32, MetaView>::empty());
        r
    }

    /// Translate one call.
    pub fn translate(&mut self, call: WebCall) -> (r: Vec<Translation>)
        requires
            old(self).wf(),
            call_translatable(call),
        ensures
            final(self).wf(),
            final(self).pending() == old(self).pending(),
            (final(self).metadata(), tviews(r@)) == spec_translate(old(self).metadata(), call),
    {
        match call {
            WebCall::CreateElement { node, tag } => self.translate_create_element(node, tag),
            WebCall::CreateTextNode { node, .. } => self.translate_create_text_node(node),
            WebCall::AppendChild { parent, child, .. } => Self::translate_append_child(parent, child),
            WebCall::RemoveChild { child, .. } => Self::translate_remove_child(child),
            WebCall::InsertBefore { parent, new_child, .. } => Self::translate_insert_before(parent, new_child),
            WebCall::SetAttribute { node, name, value } => self.translate_set_attribute(node, name.as_str(), value.as_str()),
            WebCall::RemoveAttribute { node, name } => {
                self.translate_remove_attribute(node, name.as_str());
                let r: Vec<Translation> = Vec::new();
                assert(tviews(r@) =~= Seq::<TView>::empty());
                r
            },
            WebCall::AddClass { node, class } => self.translate_add_class(node, class.as_str()),
            WebCall::SetInlineStyle { node, css } => self.translate_set_inline_style(node, css.as_str()),
        }
    }

    fn translate_create_element(&mut self, node: NodeId, tag: String) -> (r: Vec<Translation>)
        requires
            old(self).wf(),
        ensures
            final(self).wf(),
            final(self).pending() == old(self).pending(),
            final(self).metadata() == old(self).metadata().insert(node.0, (tag@, Map::empty(), Map::empty())),
            tviews(r@) == seq![TView::State(StatePrimitive::NodeCreate { node })],
    {
        let ghost t = tag@;
        let m = NodeMetadata { tag, attributes: StringMap::new(), styles: StringMap::new() };
        assert(meta_view(m) =~= (t, Map::<Seq<char>, Seq<char>>::empty(), Map::<Seq<char>, Seq<char>>::empty()));
        self.node_metadata.insert(node.0, m);
        assert(self.metadata() =~= old(self).metadata().insert(node.0, (t, Map::empty(), Map::empty())));
        let r = vec![Translation::State(StatePrimitive::NodeCreate { node })];
        assert(tviews(r@) =~= seq![TView::State(StatePrimitive::NodeCreate { node })]);
        r
    }

    fn translate_create_text_node(&mut self, node: NodeId) -> (r: Vec<Translation>)
        requires
            old(self).wf(),
        ensures
            final(self).wf(),
            final(self).pending() == old(self).pending(),
            final(self).metadata() == old(self).metadata().insert(node.0, ("#text"@, Map::empty(), Map::empty())),
            tviews(r@) == seq![TView::State(StatePrimitive::NodeCreate { node })],
    {
        self.translate_create_element(node, to_owned_string("#text"))
    }

    /// The child is attached at index 0; the index in the call is not used.
    fn translate_append_child(parent: NodeId, child: NodeId) -> (r: Vec<Translation>)
        ensures
            tviews(r@) == seq![TView::State(StatePrimitive::NodeAttach { node: child, parent, index: 0 })],
    {
        let r = vec![Translation::State(StatePrimitive::NodeAttach { node: child, parent, index: 0 })];
        assert(tviews(r@) =~= seq![TView::State(StatePrimitive::NodeAttach { node: child, parent, index: 0 })]);
        r
    }

    fn translate_remove_child(child: NodeId) -> (r: Vec<Translation>)
        ensures
            tviews(r@) == seq![TView::State(StatePrimitive::NodeDetach { node: child })],
    {
        let r = vec![Translation::State(StatePrimitive::NodeDetach { node: child })];
        assert(tviews(r@) =~= seq![TView::State(StatePrimitive::NodeDetach { node: child })]);
        r
    }

    /// The new child is attached at index 0; the reference child is not used.
    fn translate_insert_before(parent: NodeId, new_child: NodeId) -> (r: Vec<Translation>)
        ensures
            tviews(r@) == seq![TView::State(StatePrimitive::NodeAttach { node: new_child, parent, index: 0 })],
    {
        let r = vec![Translation::State(StatePrimitive::NodeAttach { node: new_child, parent, index: 0 })];
        assert(tviews(r@) =~= seq![TView::State(StatePrimitive::NodeAttach { node: new_child, parent, index: 0 })]);
        r
    }

    fn translate_set_attribute(&mut self, node: NodeId, name: &str, value: &str) -> (r: Vec<Translation>)
        requires
            old(self).wf(),
        ensures
            final(self).wf(),
            final(self).pending() == old(self).pending(),
            final(self).metadata() == with_attr(old(self).metadata(), node, name@, value@),
            tviews(r@) == attr_ops(node, name@, value@),
    {
        match self.node_metadata.remove(&node.0) {
            Some(mut m) => {
                let ghost before = meta_view(m);
                m.attributes.insert(to_owned_string(name), to_owned_string(value));
                assert(meta_view(m) =~= (before.0, before.1.insert(name@, value@), before.2));
                self.node_metadata.insert(node.0, m);
                assert(self.metadata() =~= with_attr(old(self).metadata(), node, name@, value@));
            },
            None => {},
        }
        let mut r: Vec<Translation> = Vec::new();
        if str_eq(name, "width") {
            r.push(Translation::SizeFromLength { node, axis: Axis::Width, length: to_owned_string(value) });
        } else if str_eq(name, "height") {
            r.push(Translation::SizeFromLength { node, axis: Axis::Height, length: to_owned_string(value) });
        }
        assert(tviews(r@) =~= attr_ops(node, name@, value@));
        r
    }

    fn translate_remove_attribute(&mut self, node: NodeId, name: &str)
        requires
            old(self).wf(),
        ensures
            final(self).wf(),
            final(self).pending() == old(self).pending(),
            final(self).metadata() == without_attr(old(self).metadata(), node, name@),
    {
        match self.node_metadata.remove(&node.0) {
            Some(mut m) => {
                let ghost before = meta_view(m);
                m.attributes.remove(name);
                assert(meta_view(m) =~= (before.0, before.1.remove(name@), before.2));
                self.node_metadata.insert(node.0, m);
                assert(self.metadata() =~= without_attr(old(self).metadata(), node, name@));
            },
            None => {},
        }
    }

    fn translate_add_class(&mut self, node: NodeId, class: &str) -> (r: Vec<Translation>)
        requires
            old(self).wf(),
        ensures
            final(self).wf(),
            final(self).pending() == old(self).pending(),
            final(self).metadata() == with_attr(old(self).metadata(), node, "class"@, class_after(old(self).metadata(), node, class@)),
            tviews(r@) == Seq::<TView>::empty(),
    {
        let current: String = match self.node_metadata.get(&node.0) {
            Some(m) => match m.attributes.get("class") {
                Some(c) => to_owned_string(c.as_str()),
                None => String::new(),
            },
            None => String::new(),
        };
        let new_class = if current.as_str().unicode_len() == 0 {
            to_owned_string(class)
        } else {
            let with_space = concat(current.as_str(), " ");
            concat(with_space.as_str(), class)
        };
        proof {
            reveal_strlit("class");
            reveal_strlit("width");
            reveal_strlit("height");
        }
        assert(new_class@ == class_after(old(self).metadata(), node, class@));
        let r = self.translate_set_attribute(node, "class", new_class.as_str());
        assert("class"@[0] == 'c' && "width"@[0] == 'w' && "class"@.len() != "height"@.len());
        r
    }

    fn translate_set_inline_style(&mut self, node: NodeId, css: &str) -> (r: Vec<Translation>)
        requires
            old(self).wf(),
            css_colors_readable(css@),
        ensures
            final(self).wf(),
            final(self).pending() == old(self).pending(),
            (final(self).metadata(), tviews(r@)) == style_fold(old(self).metadata(), node, split_char(css@, ';')),
    {
        let pieces = split_on(css, ';');
        let ghost ps = string_views(pieces@);
        let ghost meta0 = self.metadata();
        let mut out: Vec<Translation> = Vec::new();
        let mut i: usize = 0;
        assert(ps.take(0) =~= Seq::<Seq<char>>::empty());
        while i < pieces.len()
            invariant
                self.wf(),
                self.pending() == old(self).pending(),
                ps == string_views(pieces@),
                ps == split_char(css@, ';'),
                css_colors_readable(css@),
                meta0 == old(self).metadata(),
                i <= pieces.len(),
                (self.metadata(), tviews(out@)) == style_fold(meta0, node, ps.take(i as int)),
            decreases pieces.len() - i,
        {
            assert(ps.take(i + 1).drop_last() =~= ps.take(i as int));
            assert(ps.take(i + 1).last() == ps[i as int]);
            assert(ps[i as int] == pieces@[i as int]@);
            let t = trim_string(pieces[i].as_str());
            if t.as_str().unicode_len() > 0 {
                match split_first(t.as_str(), ':') {
                    Some((n, v)) => {
                        let name = trim_string(n.as_str());
                        let value = trim_string(v.as_str());
                        assert(declaration(ps[i as int]) == Some((name@, value@)));
                        self.record_style(node, name.as_str(), value.as_str());
                        let ghost before = tviews(out@);
                        let mut ops = self.translate_css_property(node, name.as_str(), value.as_str());
                        out.append(&mut ops);
                        assert(tviews(out@) =~= before + css_ops(node, name@, value@));
                    },
                    None => {},
                }
            }
            i = i + 1;
        }
        assert(ps.take(i as int) =~= ps);
        out
    }

    fn record_style(&mut self, node: NodeId, name: &str, value: &str)
        requires
            old(self).wf(),
        ensures
            final(self).wf(),
            final(self).pending() == old(self).pending(),
            final(self).metadata() == with_style(old(self).metadata(), node, name@, value@),
    {
        match self.node_metadata.remove(&node.0) {
            Some(mut m) => {
                let ghost before = meta_view(m);
                m.styles.insert(to_owned_string(name), to_owned_string(value));
                assert(meta_view(m) =~= (before.0, before.1, before.2.insert(name@, value@)));
                self.node_metadata.insert(node.0, m);
                assert(self.metadata() =~= with_style(old(self).metadata(), node, name@, value@));
            },
            None => {},
        }
    }

    /// The instructions one CSS property gives.
    fn translate_css_property(&self, node: NodeId, name: &str, value: &str) -> (r: Vec<Translation>)
        requires
            (name@ == "background-color"@ || name@ == "background"@) ==> !css_color_cuts_char(trimmed(value@)),
        ensures
            tviews(r@) == css_ops(node, name@, value@),
    {
        let mut r: Vec<Translation> = Vec::new();
        if str_eq(name, "width") {
            r.push(Translation::SizeFromLength { node, axis: Axis::Width, length: to_owned_string(value) });
        } else if str_eq(name, "height") {
            r.push(Translation::SizeFromLength { node, axis: Axis::Height, length: to_owned_string(value) });
        } else if str_eq(name, "background-color") || str_eq(name, "background") {
            match self.parse_color(value) {
                Some(color) => r.push(Translation::FillRect { color }),
                None => {},
            }
        }
        proof {
            reveal_strlit("width");
            reveal_strlit("height");
            reveal_strlit("background-color");
            reveal_strlit("background");
        }
        assert(tviews(r@) =~= css_ops(node, name@, value@));
        r
    }

    /// Read a CSS color: one of five names, or `#` and six hex digits.
    pub fn parse_color(&self, value: &str) -> (r: Option<(u8, u8, u8, u8)>)
        requires
            !css_color_cuts_char(trimmed(value@)),
        ensures
            r == css_color(trimmed(value@)),
    {
        let t = trim_string(value);
        let ts = t.as_str();
        proof {
            reveal_strlit("red");
            reveal_strlit("green");
            reveal_strlit("blue");
            reveal_strlit("white");
            reveal_strlit("black");
        }
        if str_eq(ts, "red") {
            return Some((255, 0, 0, 255));
        } else if str_eq(ts, "green") {
            return Some((0, 255, 0, 255));
        } else if str_eq(ts, "blue") {
            return Some((0, 0, 255, 255));
        } else if str_eq(ts, "white") {
            return Some((255, 255, 255, 255));
        } else if str_eq(ts, "black") {
            return Some((0, 0, 0, 255));
        }
        let cs = chars_of(ts);
        if cs.len() == 0 || cs[0] != '#' {
            return None;
        }
        let ghost h = cs@.drop_first();
        // The byte length of the digits, stopping once it passes six.
        let mut bytes: usize = 0;
        let mut ascii = true;
        let mut k: usize = 1;
        while k < cs.len() && bytes <= 6
            invariant
                cs@ == t@,
                h == cs@.drop_first(),
                1 <= k <= cs.len(),
                bytes == byte_len(h.take(k - 1)),
                ascii == all_ascii(h.take(k - 1)),
            decreases cs.len() - k,
        {
            proof {
                crate::strs::lemma_byte_len_take(h, k - 1);
            }
            assert(h.take(k as int).drop_last() =~= h.take(k - 1));
            bytes = bytes + utf8_width(cs[k]);
            if (cs[k] as u32) >= 128 {
                ascii = false;
            }
            k = k + 1;
        }
        if bytes != 6 || k != cs.len() {
            proof {
                if k == cs.len() {
                    assert(h.take(k - 1) =~= h);
                } else {
                    crate::strs::lemma_byte_len_take(h, k - 1);
                    crate::strs::lemma_byte_len_concat(h.take(k - 1), h.skip(k - 1));
                    assert(h.take(k - 1) + h.skip(k - 1) =~= h);
                }
            }
            return None;
        }
        assert(h.take(k - 1) =~= h);
        if !ascii {
            return None;
        }
        proof {
            lemma_ascii_byte_len(h);
        }
        let r = hex_pair(cs[1] as u8, cs[2] as u8);
        let g = hex_pair(cs[3] as u8, cs[4] as u8);
        let b = hex_pair(cs[5] as u8, cs[6] as u8);
        match (r, g, b) {
            (Some(r), Some(g), Some(b)) => Some((r, g, b, 255)),
            _ => None,
        }
    }

    /// Queue a call for the next flush.
    pub fn queue(&mut self, call: WebCall)
        ensures
            final(self).pending() == old(self).pending().push(call),
            final(self).metadata() == old(self).metadata(),
            final(self).wf() == old(self).wf(),
    {
        self.pending_calls.push(call);
    }

    /// Translate every queued call, oldest first, and empty the queue.
    pub fn flush(&mut self) -> (r: Vec<Translation>)
        requires
            old(self).wf(),
            forall|i: int| 0 <= i < old(self).pending().len() ==> call_translatable(#[trigger] old(self).pending()[i]),
        ensures
            final(self).wf(),
            final(self).pending() == Seq::<WebCall>::empty(),
            (final(self).metadata(), tviews(r@)) == translate_all(old(self).metadata(), old(self).pending()),
    {
        let mut calls: Vec<WebCall> = Vec::new();
        std::mem::swap(&mut calls, &mut self.pending_calls);
        let ghost cs = calls@;
        let ghost meta0 = self.metadata();
        let mut out: Vec<Translation> = Vec::new();
        let mut done: usize = 0;
        assert(cs.take(0) =~= Seq::<WebCall>::empty());
        assert(cs.skip(0) =~= cs);
        assert(cs.len() == calls.len());
        assert forall|j: int| 0 <= j < cs.len() implies call_translatable(#[trigger] cs[j]) by {
            assert(cs[j] == old(self).pending()[j]);
        }
        while calls.len() > 0
            invariant
                self.wf(),
                self.pending() == Seq::<WebCall>::empty(),
                meta0 == old(self).metadata(),
                cs == old(self).pending(),
                forall|j: int| 0 <= j < cs.len() ==> call_translatable(#[trigger] cs[j]),
                done <= cs.len(),
                calls@ == cs.skip(done as int),
                calls@.len() == cs.len() - done,
                cs.len() <= usize::MAX,
                (self.metadata(), tviews(out@)) == translate_all(meta0, cs.take(done as int)),
            decreases calls.len(),
        {
            assert(cs.take(done + 1).drop_last() =~= cs.take(done as int));
            assert(cs.take(done + 1).last() == cs[done as int]);
            let ghost before = tviews(out@);
            let call = calls.remove(0);
            assert(calls@ =~= cs.skip(done + 1));
            let mut ops = self.translate(call);
            let ghost opsv = tviews(ops@);
            out.append(&mut ops);
            assert(tviews(out@) =~= before + opsv);
            done = done + 1;
        }
        assert(cs.take(done as int) =~= cs);
        out
    }
}

/// Calls translated one after the other: the final metadata and every instruction.
pub open spec fn translate_all(meta: Map<u32, MetaView>, calls: Seq<WebCall>) -> (Map<u32, MetaView>, Seq<TView>)
    decreases calls.len(),
{
    if calls.len() == 0 {
        (meta, seq![])
    } else {
        let (m1, ops1) = translate_all(meta, calls.drop_last());
        let (m2, ops2) = spec_translate(m1, calls.last());
        (m2, ops1 + ops2)
    }
}

/// Translation is deterministic and replayable: translating two batches of calls one
/// after the other gives the same metadata and the same instructions as translating
/// them as one batch.
pub proof fn law_translation_composes(meta: Map<u32, MetaView>, a: Seq<WebCall>, b: Seq<WebCall>)
    ensures
        ({
            let (m1, o1) = translate_all(meta, a);
            let (m2, o2) = translate_all(m1, b);
            translate_all(meta, a + b) == (m2, o1 + o2)
        }),
    decreases b.len(),
{
    if b.len() == 0 {
        assert(a + b =~= a);
        let (m1, o1) = translate_all(meta, a);
        assert(o1 + seq![] =~= o1);
    } else {
        law_translation_composes(meta, a, b.drop_last());
        assert((a + b).drop_last() =~= a + b.drop_last());
        assert((a + b).last() == b.last());
        let (m1, o1) = translate_all(meta, a);
        let (mb, ob) = translate_all(m1, b.drop_last());
        let (m3, o3) = spec_translate(mb, b.last());
        assert(o1 + (ob + o3) =~= (o1 + ob) + o3);
    }
}

/// Whether a character is an ASCII hexadecimal digit: `0-9`, `a-f` or `A-F`.
pub open spec fn is_hex_digit_char(c: char) -> bool {
    ('0' <= c <= '9') || ('a' <= c <= 'f') || ('A' <= c <= 'F')
}

/// The number an ASCII hexadecimal digit stands for.
pub open spec fn hex_char_digit(c: char) -> int {
    if c <= '9' {
        c as int - '0' as int
    } else if c <= 'F' {
        c as int - 'A' as int + 10
    } else {
        c as int - 'a' as int + 10
    }
}

/// `#` and six hexadecimal digits is a color whose channels are read from the digit
/// pairs in order, the first digit of each pair the high one: red is sixteen times the
/// first digit plus the second, green the same of the third and fourth, blue of the
/// fifth and sixth; the color is opaque. So `#1e90ff` is `(0x1e, 0x90, 0xff, 255)`.
/// Such a text never cuts a character, so `parse_color` takes it.
pub proof fn law_hex_color_channels(t: Seq<char>)
    requires
        t.len() == 7,
        t[0] == '#',
        forall|k: int| 1 <= k < 7 ==> is_hex_digit_char(#[trigger] t[k]),
    ensures
        css_color(t) == Some((
            (16 * hex_char_digit(t[1]) + hex_char_digit(t[2])) as u8,
            (16 * hex_char_digit(t[3]) + hex_char_digit(t[4])) as u8,
            (16 * hex_char_digit(t[5]) + hex_char_digit(t[6])) as u8,
            255u8,
        )),
        0 <= 16 * hex_char_digit(t[1]) + hex_char_digit(t[2]) <= 255,
        0 <= 16 * hex_char_digit(t[3]) + hex_char_digit(t[4]) <= 255,
        0 <= 16 * hex_char_digit(t[5]) + hex_char_digit(t[6]) <= 255,
        !css_color_cuts_char(t),
{
    reveal_strlit("red");
    reveal_strlit("green");
    reveal_strlit("blue");
    reveal_strlit("white");
    reveal_strlit("black");
    assert(named_css_color(t) is None);
    let h = t.drop_first();
    assert forall|i: int| 0 <= i < h.len() implies (#[trigger] h[i] as u32) < 128 by {
        assert(h[i] == t[i + 1]);
        assert(is_hex_digit_char(t[i + 1]));
    }
    assert(all_ascii(h));
    lemma_ascii_byte_len(h);
    assert(is_hex_digit_char(t[1]) && is_hex_digit_char(t[2]) && is_hex_digit_char(t[3]));
    assert(is_hex_digit_char(t[4]) && is_hex_digit_char(t[5]) && is_hex_digit_char(t[6]));
    assert(h[0] == t[1] && h[1] == t[2] && h[2] == t[3] && h[3] == t[4] && h[4] == t[5] && h[5] == t[6]);
    assert(all_ascii(h.take(2)));
    assert(all_ascii(h.take(4)));
    lemma_ascii_byte_len(h.take(2));
    lemma_ascii_byte_len(h.take(4));
    assert(has_boundary(h, 2));
    assert(has_boundary(h, 4));
}

proof fn lemma_ascii_byte_len(s: Seq<char>)
    requires
        all_ascii(s),
    ensures
        byte_len(s) == s.len(),
    decreases s.len(),
{
    if s.len() > 0 {
        let t = s.drop_last();
        assert forall|i: int| 0 <= i < t.len() implies (#[trigger] t[i] as u32) < 128 by {
            assert(t[i] == s[i]);
        }
        lemma_ascii_byte_len(t);
        assert((s.last() as u32) < 128);
    }
}

} // verus!
