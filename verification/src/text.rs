//! Font descriptors, shaping and rasterization handles, and the text error types.
use vstd::prelude::*;
use crate::text_types::TextDirection;
use crate::strs::{byte_len, byte_length};

verus! {

/// Font weight (100-900).
#[derive(Debug, Clone, Copy, PartialEq, Eq, Hash, Structural)]
pub struct FontWeight(pub u16);

impl FontWeight {
    /// Weight 100.
    pub fn thin() -> (r: FontWeight)
        ensures
            r == FontWeight(100),
    {
        FontWeight(100)
    }

    /// Weight 200.
    pub fn extra_light() -> (r: FontWeight)
        ensures
            r == FontWeight(200),
    {
        FontWeight(200)
    }

    /// Weight 300.
    pub fn light() -> (r: FontWeight)
        ensures
            r == FontWeight(300),
    {
        FontWeight(300)
    }

    /// Weight 400.
    pub fn normal() -> (r: FontWeight)
        ensures
            r == FontWeight(400),
    {
        FontWeight(400)
    }

    /// Weight 500.
    pub fn medium() -> (r: FontWeight)
        ensures
            r == FontWeight(500),
    {
        FontWeight(500)
    }

    /// Weight 600.
    pub fn semi_bold() -> (r: FontWeight)
        ensures
            r == FontWeight(600),
    {
        FontWeight(600)
    }

    /// Weight 700.
    pub fn bold() -> (r: FontWeight)
        ensures
            r == FontWeight(700),
    {
        FontWeight(700)
    }

    /// Weight 800.
    pub fn extra_bold() -> (r: FontWeight)
        ensures
            r == FontWeight(800),
    {
        FontWeight(800)
    }

    /// Weight 900.
    pub fn black() -> (r: FontWeight)
        ensures
            r == FontWeight(900),
    {
        FontWeight(900)
    }
}

/// Font style.
#[derive(Debug, Clone, Copy, PartialEq, Eq, Hash, Structural)]
pub enum FontStyle {
    Normal,
    Italic,
    Oblique,
}

/// The style a face has: italic before oblique, else normal.
pub fn font_style(is_italic: bool, is_oblique: bool) -> (r: FontStyle)
    ensures
        r == (if is_italic { FontStyle::Italic } else if is_oblique { FontStyle::Oblique } else { FontStyle::Normal }),
{
    if is_italic {
        FontStyle::Italic
    } else if is_oblique {
        FontStyle::Oblique
    } else {
        FontStyle::Normal
    }
}

/// Font family descriptor.
#[derive(Debug, Clone, PartialEq, Eq, Hash)]
pub struct FontFamily {
    pub name: String,
}

/// The family a face's full name gives: that name, or "Unknown" where it has none.
pub fn family_from_name(full_name: Option<String>) -> (r: FontFamily)
    ensures
        match full_name {
            Some(n) => r.name@ == n@,
            None => r.name@ == "Unknown"@,
        },
{
    match full_name {
        Some(n) => FontFamily { name: n },
        None => FontFamily { name: crate::strs::to_owned_string("Unknown") },
    }
}

/// What a font is looked up by: family, weight and style.
#[derive(Debug, Clone)]
pub struct FontKey {
    pub family: FontFamily,
    pub weight: FontWeight,
    pub style: FontStyle,
}

/// A font key as plain values.
pub type KeyView = (Seq<char>, u16, FontStyle);

/// A font key as plain values.
pub open spec fn key_view(k: FontKey) -> KeyView {
    (k.family.name@, k.weight.0, k.style)
}

/// Equality of two font keys by family name, weight and style.
pub fn key_eq(a: &FontKey, b: &FontKey) -> (r: bool)
    ensures
        r == (key_view(*a) == key_view(*b)),
{
    a.weight.0 == b.weight.0 && a.style == b.style && crate::strs::str_eq(a.family.name.as_str(), b.family.name.as_str())
}

/// A copy of a font key.
pub fn copy_key(k: &FontKey) -> (r: FontKey)
    ensures
        key_view(r) == key_view(*k),
{
    FontKey { family: FontFamily { name: crate::strs::to_owned_string(k.family.name.as_str()) }, weight: k.weight, style: k.style }
}

/// The position of the first font in `fonts` with key `k`, if any.
pub open spec fn first_match(fonts: Seq<KeyView>, k: KeyView) -> Option<int> {
    if exists|i: int| 0 <= i < fonts.len() && fonts[i] == k {
        Some(choose|i: int| 0 <= i < fonts.len() && fonts[i] == k && forall|j: int| 0 <= j < i ==> fonts[j] != k)
    } else {
        None
    }
}

/// The font registry. Fonts are named by their position in the list of known fonts
/// (the system fonts found, then the fonts added, in order); the caller keeps the
/// fonts themselves in a list of its own with the same positions. The cache maps a
/// key that was looked up or added to the position it resolved to.
pub struct FontCache {
    cache: Vec<(FontKey, usize)>,
    system_fonts: Vec<FontKey>,
}

impl FontCache {
    /// The keys of the known fonts, by position.
    pub closed spec fn fonts(&self) -> Seq<KeyView> {
        self.system_fonts@.map_values(|k: FontKey| key_view(k))
    }

    /// The cache, from key to position.
    pub closed spec fn cached(&self) -> Map<KeyView, int> {
        Map::new(
            |k: KeyView| exists|i: int| 0 <= i < self.cache@.len() && key_view(self.cache@[i].0) == k,
            |k: KeyView| {
                let i = choose|i: int| 0 <= i < self.cache@.len() && key_view(self.cache@[i].0) == k;
                self.cache@[i].1 as int
            },
        )
    }

    /// The registry's invariant: no key is cached twice, and every cached position
    /// names a known font.
    pub closed spec fn wf(&self) -> bool {
        &&& forall|i: int, j: int| 0 <= i < j < self.cache@.len() ==> key_view(#[trigger] self.cache@[i].0) != key_view(#[trigger] self.cache@[j].0)
        &&& forall|i: int| 0 <= i < self.cache@.len() ==> (#[trigger] self.cache@[i]).1 < self.system_fonts@.len()
    }

    /// An empty registry.
    pub fn new() -> (r: Self)
        ensures
            r.wf(),
            r.fonts() == Seq::<KeyView>::empty(),
            r.cached() == Map::<KeyView, int>::empty(),
    {
        let r = FontCache { cache: Vec::new(), system_fonts: Vec::new() };
        assert(r.fonts() =~= Seq::<KeyView>::empty());
        assert(r.cached() =~= Map::<KeyView, int>::empty());
        r
    }

    /// The number of known fonts.
    pub fn len(&self) -> (r: usize)
        ensures
            r == self.fonts().len(),
    {
        self.system_fonts.len()
    }

    fn cache_position(&self, key: &FontKey) -> (r: Option<usize>)
        requires
            self.wf(),
        ensures
            match r {
                Some(i) => i < self.cache@.len() && key_view(self.cache@[i as int].0) == key_view(*key),
                None => forall|i: int| 0 <= i < self.cache@.len() ==> key_view(#[trigger] self.cache@[i].0) != key_view(*key),
            },
    {
        let mut i: usize = 0;
        while i < self.cache.len()
            invariant
                i <= self.cache@.len(),
                forall|j: int| 0 <= j < i ==> key_view(#[trigger] self.cache@[j].0) != key_view(*key),
            decreases self.cache@.len() - i,
        {
            if key_eq(&self.cache[i].0, key) {
                return Some(i);
            }
            i = i + 1;
        }
        None
    }

    proof fn lemma_cached_at(&self, i: int)
        requires
            self.wf(),
            0 <= i < self.cache@.len(),
        ensures
            self.cached().contains_key(key_view(self.cache@[i].0)),
            self.cached()[key_view(self.cache@[i].0)] == self.cache@[i].1 as int,
    {
        let k = key_view(self.cache@[i].0);
        let c = choose|c: int| 0 <= c < self.cache@.len() && key_view(self.cache@[c].0) == k;
        assert(c == i) by {
            if c < i {
                assert(key_view(self.cache@[c].0) != key_view(self.cache@[i].0));
            } else if c > i {
                assert(key_view(self.cache@[i].0) != key_view(self.cache@[c].0));
            }
        }
    }

    /// Cache `key` at position `pos`, replacing an earlier position for it.
    fn cache_insert(&mut self, key: FontKey, pos: usize)
        requires
            old(self).wf(),
            pos < old(self).system_fonts@.len(),
        ensures
            final(self).wf(),
            final(self).system_fonts@ == old(self).system_fonts@,
            final(self).cached() == old(self).cached().insert(key_view(key), pos as int),
    {
        let ghost k = key_view(key);
        match self.cache_position(&key) {
            Some(i) => {
                self.cache.set(i, (key, pos));
                assert forall|c: int| 0 <= c < self.cache@.len() && c != i implies key_view(#[trigger] self.cache@[c].0) != k by {
                    if c < i as int {
                        assert(key_view(old(self).cache@[c].0) != key_view(old(self).cache@[i as int].0));
                    } else {
                        assert(key_view(old(self).cache@[i as int].0) != key_view(old(self).cache@[c].0));
                    }
                }
                assert forall|x: KeyView| #[trigger] self.cached().contains_key(x) == old(self).cached().insert(k, pos as int).contains_key(x) by {
                    if x != k {
                        if old(self).cached().contains_key(x) {
                            let c = choose|c: int| 0 <= c < old(self).cache@.len() && key_view(old(self).cache@[c].0) == x;
                            assert(self.cache@[c] == old(self).cache@[c]);
                        }
                        if self.cached().contains_key(x) {
                            let c = choose|c: int| 0 <= c < self.cache@.len() && key_view(self.cache@[c].0) == x;
                            assert(c != i);
                            assert(self.cache@[c] == old(self).cache@[c]);
                        }
                    } else {
                        assert(key_view(self.cache@[i as int].0) == k);
                    }
                }
                assert forall|x: KeyView| #[trigger] self.cached().contains_key(x) implies self.cached()[x] == old(self).cached().insert(k, pos as int)[x] by {
                    let c = choose|c: int| 0 <= c < self.cache@.len() && key_view(self.cache@[c].0) == x;
                    self.lemma_cached_at(c);
                    if x != k {
                        assert(c != i);
                        old(self).lemma_cached_at(c);
                    }
                }
                assert(self.cached() =~= old(self).cached().insert(k, pos as int));
            },
            None => {
                self.cache.push((key, pos));
                let ghost n = self.cache@.len() - 1;
                assert(key_view(self.cache@[n].0) == k);
                assert forall|x: KeyView| #[trigger] self.cached().contains_key(x) == old(self).cached().insert(k, pos as int).contains_key(x) by {
                    if x != k {
                        if old(self).cached().contains_key(x) {
                            let c = choose|c: int| 0 <= c < old(self).cache@.len() && key_view(old(self).cache@[c].0) == x;
                            assert(self.cache@[c] == old(self).cache@[c]);
                        }
                        if self.cached().contains_key(x) {
                            let c = choose|c: int| 0 <= c < self.cache@.len() && key_view(self.cache@[c].0) == x;
                            assert(c != n);
                            assert(self.cache@[c] == old(self).cache@[c]);
                        }
                    }
                }
                assert forall|x: KeyView| #[trigger] self.cached().contains_key(x) implies self.cached()[x] == old(self).cached().insert(k, pos as int)[x] by {
                    let c = choose|c: int| 0 <= c < self.cache@.len() && key_view(self.cache@[c].0) == x;
                    self.lemma_cached_at(c);
                    if x != k {
                        assert(c != n);
                        old(self).lemma_cached_at(c);
                    }
                }
                assert(self.cached() =~= old(self).cached().insert(k, pos as int));
            },
        }
    }

    /// Record a font found on the system, at the next position; the cache is unchanged.
    pub fn add_system_font(&mut self, key: FontKey) -> (r: usize)
        requires
            old(self).wf(),
        ensures
            final(self).wf(),
            r == old(self).fonts().len(),
            final(self).fonts() == old(self).fonts().push(key_view(key)),
            final(self).cached() == old(self).cached(),
    {
        let ghost k = key_view(key);
        let r = self.system_fonts.len();
        self.system_fonts.push(key);
        assert(self.fonts() =~= old(self).fonts().push(k));
        r
    }

    /// Add a font: it takes the next position, and its key is cached there.
    pub fn add_font(&mut self, key: FontKey) -> (r: usize)
        requires
            old(self).wf(),
        ensures
            final(self).wf(),
            r == old(self).fonts().len(),
            final(self).fonts() == old(self).fonts().push(key_view(key)),
            final(self).cached() == old(self).cached().insert(key_view(key), r as int),
    {
        let r = self.add_system_font(copy_key(&key));
        assert(self.fonts().len() == self.system_fonts@.len());
        self.cache_insert(key, r);
        r
    }

    /// Look a font up: the cached position for the key if there is one; else the
    /// first known font with that key, which is then cached; else `None`.
    pub fn get_font(&mut self, key: &FontKey) -> (r: Option<usize>)
        requires
            old(self).wf(),
        ensures
            final(self).wf(),
            final(self).fonts() == old(self).fonts(),
            old(self).cached().contains_key(key_view(*key)) ==> {
                &&& r == Some(old(self).cached()[key_view(*key)] as usize)
                &&& final(self).cached() == old(self).cached()
            },
            !old(self).cached().contains_key(key_view(*key)) ==> match first_match(old(self).fonts(), key_view(*key)) {
                Some(i) => r == Some(i as usize) && final(self).cached() == old(self).cached().insert(key_view(*key), i),
                None => r is None && final(self).cached() == old(self).cached(),
            },
    {
        if let Some(c) = self.cache_position(key) {
            proof { self.lemma_cached_at(c as int); }
            return Some(self.cache[c].1);
        }
        assert(!self.cached().contains_key(key_view(*key)));
        let mut i: usize = 0;
        while i < self.system_fonts.len()
            invariant
                i <= self.system_fonts@.len(),
                self.wf(),
                self.system_fonts@ == old(self).system_fonts@,
                self.cache@ == old(self).cache@,
                !old(self).cached().contains_key(key_view(*key)),
                forall|j: int| 0 <= j < i ==> key_view(#[trigger] self.system_fonts@[j]) != key_view(*key),
            decreases self.system_fonts@.len() - i,
        {
            if key_eq(&self.system_fonts[i], key) {
                let ghost fs = self.fonts();
                assert(fs[i as int] == key_view(*key));
                assert(first_match(fs, key_view(*key)) == Some(i as int)) by {
                    let c = choose|c: int| 0 <= c < fs.len() && fs[c] == key_view(*key) && forall|j: int| 0 <= j < c ==> fs[j] != key_view(*key);
                    assert(fs[i as int] == key_view(self.system_fonts@[i as int]));
                    if c < i as int {
                        assert(fs[c] == key_view(self.system_fonts@[c]));
                    }
                    if c > i as int {
                        assert(fs[i as int] != key_view(*key));
                    }
                }
                self.cache_insert(copy_key(key), i);
                return Some(i);
            }
            i = i + 1;
        }
        assert(first_match(self.fonts(), key_view(*key)) is None) by {
            if exists|j: int| 0 <= j < self.fonts().len() && self.fonts()[j] == key_view(*key) {
                let j = choose|j: int| 0 <= j < self.fonts().len() && self.fonts()[j] == key_view(*key);
                assert(self.fonts()[j] == key_view(self.system_fonts@[j]));
            }
        }
        None
    }
}

/// A font that was added is found again under its key: looking the key up right
/// after `add_font` gave position `pos` returns `pos`.
pub proof fn law_added_font_is_found(
    before: FontCache,
    after: FontCache,
    key: FontKey,
    pos: usize,
    found: Option<usize>,
)
    requires
        after.cached() == before.cached().insert(key_view(key), pos as int),
        after.cached().contains_key(key_view(key)) ==> found == Some(after.cached()[key_view(key)] as usize),
    ensures
        found == Some(pos),
{
}

/// Whether a line may break after a glyph: a space, a hyphen-minus, a hyphen, an en
/// dash or an em dash (glyph IDs standing for the code points).
pub fn is_break_opportunity(glyph_id: u32) -> (r: bool)
    ensures
        r == (glyph_id == 0x20 || glyph_id == 0x2D || glyph_id == 0x2010 || glyph_id == 0x2013 || glyph_id == 0x2014),
{
    glyph_id == 0x20 || glyph_id == 0x2D || glyph_id == 0x2010 || glyph_id == 0x2013 || glyph_id == 0x2014
}

/// A name record of a font as plain values: its name ID, whether it is a Unicode
/// record, and its text where it decodes.
pub type NameRecord = (u16, bool, Option<Seq<char>>);

/// What a font file's face holds as plain values: its name records, weight class,
/// italic and oblique flags, ascender, descender, line gap and units per em.
pub type FaceView = (Seq<NameRecord>, u16, bool, bool, i16, i16, i16, u16);

/// The face that `ttf_parser` reads from a font file's bytes (`Face::parse`, face 0),
/// or `None` where it reads none.
pub uninterp spec fn ttf_face_of(data: Seq<u8>) -> Option<FaceView>;

/// A face's values as `ttf_parser` gives them.
pub struct FaceInfo {
    pub names: Vec<(u16, bool, Option<String>)>,
    pub weight: u16,
    pub italic: bool,
    pub oblique: bool,
    pub ascender: i16,
    pub descender: i16,
    pub line_gap: i16,
    pub units_per_em: u16,
}

/// The name records as plain values.
pub open spec fn name_views(names: Seq<(u16, bool, Option<String>)>) -> Seq<NameRecord> {
    names.map_values(|n: (u16, bool, Option<String>)| (n.0, n.1, match n.2 { Some(t) => Some(t@), None => None }))
}

/// A face's values as plain values.
pub open spec fn face_view(f: FaceInfo) -> FaceView {
    (name_views(f.names@), f.weight, f.italic, f.oblique, f.ascender, f.descender, f.line_gap, f.units_per_em)
}

/// Parse a font file's bytes with `ttf_parser` (`Face::parse`, face 0) and read the
/// face's name records (`Face::names`, each decoded with `Name::to_string`), weight
/// class, italic and oblique flags, ascender, descender, line gap and units per em.
/// The claim is that the outcome is `ttf_face_of` of the bytes: the parser reads the
/// bytes alone.
#[verifier::external_body]
fn ttf_face_info(data: &[u8]) -> (r: Option<FaceInfo>)
    ensures
        match r {
            None => ttf_face_of(data@) is None,
            Some(f) => ttf_face_of(data@) == Some(face_view(f)),
        },
{
    let face = ttf_parser::Face::parse(data, 0).ok()?;
    let names = face.names().into_iter().map(|n| (n.name_id, n.is_unicode(), n.to_string())).collect();
    Some(FaceInfo {
        names,
        weight: face.weight().to_number(),
        italic: face.is_italic(),
        oblique: face.is_oblique(),
        ascender: face.ascender(),
        descender: face.descender(),
        line_gap: face.line_gap(),
        units_per_em: face.units_per_em(),
    })
}

/// The name ID of a font's full name.
pub const FULL_NAME_ID: u16 = 4;

/// The full name among the name records from `i` on: the text of the first Unicode
/// record with the full name's ID, if it decodes.
pub open spec fn full_name_from(names: Seq<NameRecord>, i: int) -> Option<Seq<char>>
    decreases names.len() - i,
{
    if i < 0 || i >= names.len() {
        None
    } else if names[i].0 == FULL_NAME_ID && names[i].1 {
        names[i].2
    } else {
        full_name_from(names, i + 1)
    }
}

/// What the library reads from a font file: its family, weight, style and metrics in
/// font units.
pub struct FontInfo {
    pub family: FontFamily,
    pub weight: FontWeight,
    pub style: FontStyle,
    pub ascender: i16,
    pub descender: i16,
    pub line_gap: i16,
    pub units_per_em: u16,
}

/// Whether a font's values are those of a face: the family its full name gives
/// ("Unknown" where it has none), its weight class, the style its flags give, and its
/// metrics.
pub open spec fn font_info_is(r: FontInfo, v: FaceView) -> bool {
    &&& r.family.name@ == (match full_name_from(v.0, 0) { Some(n) => n, None => "Unknown"@ })
    &&& r.weight == FontWeight(v.1)
    &&& r.style == (if v.2 { FontStyle::Italic } else if v.3 { FontStyle::Oblique } else { FontStyle::Normal })
    &&& r.ascender == v.4 && r.descender == v.5 && r.line_gap == v.6 && r.units_per_em == v.7
}

/// The font a face's values describe.
pub fn font_info_from_face(face: FaceInfo) -> (r: FontInfo)
    ensures
        font_info_is(r, face_view(face)),
{
    let ghost v = face_view(face);
    let mut name: Option<String> = None;
    let mut found = false;
    let mut i: usize = 0;
    let n = face.names.len();
    while i < n && !found
        invariant
            n == face.names@.len(),
            v == face_view(face),
            i <= n,
            !found ==> full_name_from(v.0, 0) == full_name_from(v.0, i as int) && name is None,
            found ==> match full_name_from(v.0, 0) {
                Some(t) => name matches Some(s) && s@ == t,
                None => name is None,
            },
        decreases n - i, if found { 0int } else { 1int },
    {
        let (id, unicode, text) = &face.names[i];
        if *id == FULL_NAME_ID && *unicode {
            name = match text {
                Some(t) => Some(crate::strs::to_owned_string(t.as_str())),
                None => None,
            };
            found = true;
        } else {
            i = i + 1;
        }
    }
    FontInfo {
        family: family_from_name(name),
        weight: FontWeight(face.weight),
        style: font_style(face.italic, face.oblique),
        ascender: face.ascender,
        descender: face.descender,
        line_gap: face.line_gap,
        units_per_em: face.units_per_em,
    }
}

/// Read a font from a font file's bytes; `InvalidData` where `ttf_parser` reads no face.
pub fn font_info_from_bytes(data: &[u8]) -> (r: Result<FontInfo, FontError>)
    ensures
        match ttf_face_of(data@) {
            None => r matches Err(FontError::InvalidData),
            Some(v) => r matches Ok(f) && font_info_is(f, v),
        },
{
    match ttf_face_info(data) {
        None => Err(FontError::InvalidData),
        Some(face) => Ok(font_info_from_face(face)),
    }
}

/// What `unicode_bidi` gives for a text's first paragraph (`BidiInfo::new` with no
/// default level, then `BidiInfo::visual_runs` over the paragraph's range): the levels
/// it lists, each as whether it is left-to-right, and the runs in visual order as byte
/// ranges; `None` where it finds no paragraph.
pub uninterp spec fn bidi_visual_of(text: Seq<char>) -> Option<(Seq<bool>, Seq<(usize, usize)>)>;

/// The visual runs of a text's first paragraph by `unicode_bidi`; the claim is that
/// they are `bidi_visual_of` the text, which the algorithm computes from the text alone.
#[verifier::external_body]
fn bidi_visual(text: &str) -> (r: Option<(Vec<bool>, Vec<(usize, usize)>)>)
    ensures
        match r {
            None => bidi_visual_of(text@) is None,
            Some((levels, runs)) => bidi_visual_of(text@) == Some((levels@, runs@)),
        },
{
    let info = unicode_bidi::BidiInfo::new(text, None);
    let para = info.paragraphs.first()?;
    let (levels, runs) = info.visual_runs(para, para.range.clone());
    Some((levels.iter().map(|l| l.is_ltr()).collect(), runs.iter().map(|r| (r.start, r.end)).collect()))
}

/// The direction of a run that starts at byte `start`: that of the level the BiDi
/// algorithm gave that byte (levels are listed one per byte of the text), left to right
/// where the list does not reach it.
pub open spec fn run_direction(levels: Seq<bool>, start: usize) -> TextDirection {
    if (start as int) < levels.len() && !levels[start as int] {
        TextDirection::RightToLeft
    } else {
        TextDirection::LeftToRight
    }
}

/// The runs to shape, in visual order, from what the BiDi algorithm gave: each run with
/// the direction of its first byte's level; the whole text left to right where there is
/// no paragraph or no run.
pub open spec fn visual_runs_of(raw: Option<(Seq<bool>, Seq<(usize, usize)>)>, len: usize) -> Seq<(TextDirection, usize, usize)> {
    match raw {
        None => seq![(TextDirection::LeftToRight, 0usize, len)],
        Some((levels, runs)) => {
            if runs.len() == 0 {
                seq![(TextDirection::LeftToRight, 0usize, len)]
            } else {
                Seq::new(runs.len(), |i: int| (run_direction(levels, runs[i].0), runs[i].0, runs[i].1))
            }
        },
    }
}

/// What the BiDi algorithm gave, as plain values.
pub open spec fn raw_view(raw: Option<(Vec<bool>, Vec<(usize, usize)>)>) -> Option<(Seq<bool>, Seq<(usize, usize)>)> {
    match raw {
        Some((l, rs)) => Some((l@, rs@)),
        None => None,
    }
}

/// The runs to shape from what the BiDi algorithm gave, as `visual_runs_of` says.
pub fn visual_runs_from(raw: Option<(Vec<bool>, Vec<(usize, usize)>)>, len: usize) -> (r: Vec<(TextDirection, usize, usize)>)
    ensures
        r@ == visual_runs_of(raw_view(raw), len),
{
    let ghost spec_raw = raw_view(raw);
    let mut r: Vec<(TextDirection, usize, usize)> = Vec::new();
    match raw {
        None => {
            r.push((TextDirection::LeftToRight, 0, len));
            assert(r@ =~= visual_runs_of(spec_raw, len));
        },
        Some((levels, runs)) => {
            let n = runs.len();
            let mut i: usize = 0;
            while i < n
                invariant
                    n == runs@.len(),
                    i <= n,
                    r@.len() == i,
                    forall|k: int| 0 <= k < i ==> #[trigger] r@[k] == (
                        run_direction(levels@, runs@[k].0),
                        runs@[k].0,
                        runs@[k].1,
                    ),
                decreases n - i,
            {
                let start = runs[i].0;
                let dir = if start < levels.len() && !levels[start] {
                    TextDirection::RightToLeft
                } else {
                    TextDirection::LeftToRight
                };
                r.push((dir, start, runs[i].1));
                i = i + 1;
            }
            if n == 0 {
                r.push((TextDirection::LeftToRight, 0, len));
            }
            assert(r@ =~= visual_runs_of(spec_raw, len));
        },
    }
    r
}

/// The runs of a text to shape, in visual order, each with its direction and byte range.
pub fn bidi_visual_runs(text: &str) -> (r: Vec<(TextDirection, usize, usize)>)
    ensures
        r@ == visual_runs_of(bidi_visual_of(text@), byte_len(text@) as usize),
{
    let raw = bidi_visual(text);
    let len = byte_length(text);
    visual_runs_from(raw, len)
}

/// A glyph as rustybuzz shapes it, in font units: glyph id, cluster (the byte offset of
/// its first character), x advance, y advance, x offset, y offset.
pub type UnitGlyph = (u32, u32, i32, i32, i32, i32);

/// The glyphs rustybuzz shapes a text into with a font's bytes (`Face::from_slice`,
/// face 0, then `rustybuzz::shape` with no features and the given direction), or
/// `None` where the bytes hold no face.
pub uninterp spec fn hb_glyphs_of(font_data: Seq<u8>, text: Seq<char>, rtl: bool) -> Option<Seq<UnitGlyph>>;

/// Shape a text with rustybuzz: parse the face (`Face::from_slice`), fill a buffer
/// (`UnicodeBuffer::push_str`, `set_direction`), shape it (`rustybuzz::shape`) and read
/// each glyph's info and position. The claim is that the outcome is `hb_glyphs_of` of
/// the font bytes, the text and the direction, which are all the shaper reads.
#[verifier::external_body]
fn hb_shape(font_data: &[u8], text: &str, rtl: bool) -> (r: Option<Vec<UnitGlyph>>)
    ensures
        match r {
            Some(v) => hb_glyphs_of(font_data@, text@, rtl) == Some(v@),
            None => hb_glyphs_of(font_data@, text@, rtl) is None,
        },
{
    let face = rustybuzz::Face::from_slice(font_data, 0)?;
    let mut buffer = rustybuzz::UnicodeBuffer::new();
    buffer.push_str(text);
    buffer.set_direction(if rtl { rustybuzz::Direction::RightToLeft } else { rustybuzz::Direction::LeftToRight });
    let out = rustybuzz::shape(&face, &[], buffer);
    let infos = out.glyph_infos().iter();
    Some(infos.zip(out.glyph_positions().iter()).map(|(i, p)| (i.glyph_id, i.cluster, p.x_advance, p.y_advance, p.x_offset, p.y_offset)).collect())
}

/// What shaping a text gives: the font's glyphs in font units, or, where the font's
/// bytes hold no face, one glyph per character, the glyph id being the code point.
#[derive(Debug, Clone)]
pub enum ShapedUnits {
    Font(Vec<UnitGlyph>),
    Fallback(Vec<u32>),
}

/// One glyph per character, the glyph id being the code point.
pub open spec fn fallback_ids(text: Seq<char>) -> Seq<u32> {
    text.map_values(|c: char| c as u32)
}

/// Shape a text with a font in a direction, as rustybuzz does; the one-glyph-per-
/// character fallback where the font does not parse.
pub fn shape_units(font_data: &[u8], text: &str, direction: TextDirection) -> (r: ShapedUnits)
    ensures
        match hb_glyphs_of(font_data@, text@, direction == TextDirection::RightToLeft) {
            Some(v) => r matches ShapedUnits::Font(g) && g@ == v,
            None => r matches ShapedUnits::Fallback(ids) && ids@ == fallback_ids(text@),
        },
{
    let rtl = match direction {
        TextDirection::RightToLeft => true,
        TextDirection::LeftToRight => false,
    };
    match hb_shape(font_data, text, rtl) {
        Some(v) => ShapedUnits::Font(v),
        None => {
            let cs = crate::strs::chars_of(text);
            let mut ids: Vec<u32> = Vec::new();
            let mut i: usize = 0;
            while i < cs.len()
                invariant
                    cs@ == text@,
                    i <= cs@.len(),
                    ids@.len() == i,
                    forall|k: int| 0 <= k < i ==> #[trigger] ids@[k] == cs@[k] as u32,
                decreases cs.len() - i,
            {
                ids.push(cs[i] as u32);
                i = i + 1;
            }
            assert(ids@ =~= fallback_ids(text@));
            ShapedUnits::Fallback(ids)
        },
    }
}

/// Font-related errors.
#[derive(Debug)]
pub enum FontError {
    Io(std::io::Error),
    InvalidData,
    NotFound(String),
}

/// Harfbuzz errors.
#[derive(Debug, Clone, Copy, PartialEq, Eq, Structural)]
pub enum HarfbuzzError {
    ShapingFailed,
    InvalidText,
    FontNotLoaded,
}

/// Rasterized glyph bitmap: grayscale coverage, row by row.
#[derive(Debug, Clone)]
pub struct RasterizedGlyph {
    pub width: u32,
    pub height: u32,
    pub left: i32,
    pub top: i32,
    pub pixels: Vec<u8>,
}

/// Glyph rasterizer. It keeps no state.
pub struct GlyphRasterizer {}

impl GlyphRasterizer {
    /// Create a new glyph rasterizer.
    pub fn new() -> (r: Self) {
        GlyphRasterizer {}
    }
}

/// Text shaper. It keeps no state.
pub struct TextShaper {}

impl TextShaper {
    /// Create a new text shaper.
    pub fn new() -> (r: Self) {
        TextShaper {}
    }
}

/// Shaping cache statistics.
#[derive(Debug, Clone, Copy, PartialEq, Eq, Structural)]
pub struct CacheStats {
    pub entries: usize,
    pub total_accesses: usize,
    pub max_size: usize,
}

/// Text metrics calculation. Its computations are in floating point.
pub struct TextMetricsCalculator;

/// Text decoration geometry. Its computations are in floating point.
pub struct TextDecorationRenderer;

} // verus!
