//! Unicode character properties and the grapheme, word and sentence breaking rules.
use vstd::prelude::*;
use std::collections::HashMap;
use std::sync::Arc;
use vstd::string::StrSliceExecFns;
use crate::strs::{byte_len, chars_of, utf8_width, lemma_byte_len_take, byte_length, string_views};

verus! {

broadcast use vstd::std_specs::hash::group_hash_axioms;

/// Unicode scripts, as the property database knows them.
#[derive(Debug, Clone, Copy, PartialEq, Eq, Hash, Structural)]
pub enum UnicodeScriptExtended {
    Latin, Greek, Cyrillic, Armenian, Georgian,
    Arabic, Hebrew, Syriac, Thaana, Samaritan, Mandaic,
    Devanagari, Bengali, Gurmukhi, Gujarati, Oriya, Tamil, Telugu, Kannada, Malayalam, Sinhala,
    Thai, Lao, Myanmar, Khmer, Tibetan,
    Han, Hiragana, Katakana, Hangul, Bopomofo, Yi,
    Ethiopic, Tifinagh, Nko, Vai, Bamum, Osmanya,
    Cherokee, CanadianAboriginal, Deseret,
    Cuneiform, Egyptian, Hieroglyphs, AnatolianHieroglyphs, LinearA, LinearB, Phoenician, Lydian,
    Carian, Lycian, OldItalic, Gothic, OldPermic, Ogham, Runic, OldHungarian,
    Kharoshthi, Brahmi, Kaithi, Sharada, Takri, Siddham, Modi, Mahajani, Khojki, Khudawadi, Grantha, Tirhuta,
    TaiTham, TaiLe, TaiViet, NewTaiLue, Buginese, Balinese, Sundanese, Javanese, Cham, Rejang, Batak,
    Mongolian, PhagsPa, Limbu, Lepcha, Meetei, Syloti,
    Avestan, Pahlavi, Parthian, Manichaean, Psalter, OldTurkic, OldSogdian, Sogdian, Elymaic,
    Meroitic, Coptic, OldNubian,
    Braille, SignWriting, MathematicalNotation, MusicalNotation,
    Common, Inherited, Unknown,
}

/// Unicode general category.
#[derive(Debug, Clone, Copy, PartialEq, Eq, Structural)]
pub enum GeneralCategory {
    UppercaseLetter, LowercaseLetter, TitlecaseLetter, ModifierLetter, OtherLetter,
    NonspacingMark, SpacingMark, EnclosingMark,
    DecimalNumber, LetterNumber, OtherNumber,
    ConnectorPunctuation, DashPunctuation, OpenPunctuation, ClosePunctuation,
    InitialPunctuation, FinalPunctuation, OtherPunctuation,
    MathSymbol, CurrencySymbol, ModifierSymbol, OtherSymbol,
    SpaceSeparator, LineSeparator, ParagraphSeparator,
    Control, Format, Surrogate, PrivateUse, Unassigned,
}

/// Bidirectional character class.
#[derive(Debug, Clone, Copy, PartialEq, Eq, Structural)]
pub enum BidiClass {
    LeftToRight, RightToLeft, ArabicLetter,
    EuropeanNumber, EuropeanSeparator, EuropeanTerminator, ArabicNumber, CommonSeparator,
    NonspacingMark, BoundaryNeutral,
    ParagraphSeparator, SegmentSeparator, Whitespace, OtherNeutral,
    LeftToRightEmbedding, LeftToRightOverride, RightToLeftEmbedding, RightToLeftOverride,
    PopDirectionalFormat, LeftToRightIsolate, RightToLeftIsolate, FirstStrongIsolate, PopDirectionalIsolate,
}

/// Line breaking class (UAX #14).
#[derive(Debug, Clone, Copy, PartialEq, Eq, Structural)]
pub enum LineBreakClass {
    MandatoryBreak, CarriageReturn, LineFeed, NextLine,
    BreakAfter, BreakBefore, BreakBoth, ZeroWidthSpace,
    WordJoiner, NonBreaking, Glue, Space, BreakOpportunity,
    OpenPunctuation, ClosePunctuation, CloseParenthesis, Quotation, Exclamation,
    InfixNumeric, Hyphen, Numeric, Alphabetic, Ideographic, Ambiguous, Unknown,
    ComplexContext, Contingent,
}

/// Word breaking class (UAX #29).
#[derive(Debug, Clone, Copy, PartialEq, Eq, Structural)]
pub enum WordBreakClass {
    CarriageReturn, LineFeed, Newline, Extend, RegionalIndicator, Format, Katakana,
    HebrewLetter, ALetter, SingleQuote, DoubleQuote, MidNumLet, MidLetter, MidNum,
    Numeric, ExtendNumLet, ZWJ, WSegSpace, Other,
}

/// Sentence breaking class (UAX #29).
#[derive(Debug, Clone, Copy, PartialEq, Eq, Structural)]
pub enum SentenceBreakClass {
    CarriageReturn, LineFeed, Extend, Sep, Format, Sp, Lower, Upper, OLetter,
    Numeric, ATerm, SContinue, STerm, Close, Other,
}

/// Grapheme cluster breaking class (UAX #29).
#[derive(Debug, Clone, Copy, PartialEq, Eq, Structural)]
pub enum GraphemeBreakClass {
    CarriageReturn, LineFeed, Control, Extend, RegionalIndicator, Prepend, SpacingMark,
    L, V, T, LV, LVT, ZWJ, Other,
}

/// The map that an optional-valued function stands for.
pub open spec fn table_of<V>(f: spec_fn(u32) -> Option<V>) -> Map<u32, V> {
    Map::new(|k: u32| f(k) is Some, |k: u32| f(k).unwrap())
}

/// The map from every code point of `lo..=hi` to `v`.
pub open spec fn range_map<V>(lo: u32, hi: u32, v: V) -> Map<u32, V> {
    Map::new(|k: u32| lo <= k <= hi, |k: u32| v)
}

/// The scripts the database starts with.
pub open spec fn initial_script(cp: u32) -> Option<UnicodeScriptExtended> {
    if cp <= 0x007F || (0x0100 <= cp <= 0x017F) {
        Some(UnicodeScriptExtended::Latin)
    } else if 0x0370 <= cp <= 0x03FF {
        Some(UnicodeScriptExtended::Greek)
    } else if 0x0400 <= cp <= 0x04FF {
        Some(UnicodeScriptExtended::Cyrillic)
    } else if 0x0600 <= cp <= 0x06FF {
        Some(UnicodeScriptExtended::Arabic)
    } else if 0x0590 <= cp <= 0x05FF {
        Some(UnicodeScriptExtended::Hebrew)
    } else if 0x0900 <= cp <= 0x097F {
        Some(UnicodeScriptExtended::Devanagari)
    } else if 0x4E00 <= cp <= 0x9FFF {
        Some(UnicodeScriptExtended::Han)
    } else if 0x3040 <= cp <= 0x309F {
        Some(UnicodeScriptExtended::Hiragana)
    } else if 0x30A0 <= cp <= 0x30FF {
        Some(UnicodeScriptExtended::Katakana)
    } else if 0xAC00 <= cp <= 0xD7AF {
        Some(UnicodeScriptExtended::Hangul)
    } else {
        None
    }
}

/// The bidirectional classes the database starts with.
pub open spec fn initial_bidi(cp: u32) -> Option<BidiClass> {
    if 0x0600 <= cp <= 0x06FF {
        Some(BidiClass::ArabicLetter)
    } else if 0x0590 <= cp <= 0x05FF {
        Some(BidiClass::RightToLeft)
    } else if initial_script(cp) is Some {
        Some(BidiClass::LeftToRight)
    } else {
        None
    }
}

/// The general categories the database starts with.
pub open spec fn initial_category(cp: u32) -> Option<GeneralCategory> {
    if 0x0041 <= cp <= 0x005A {
        Some(GeneralCategory::UppercaseLetter)
    } else if 0x0061 <= cp <= 0x007A {
        Some(GeneralCategory::LowercaseLetter)
    } else if 0x0030 <= cp <= 0x0039 {
        Some(GeneralCategory::DecimalNumber)
    } else if cp == 0x0020 {
        Some(GeneralCategory::SpaceSeparator)
    } else if 0x4E00 <= cp <= 0x9FFF {
        Some(GeneralCategory::OtherLetter)
    } else {
        None
    }
}

/// The lowercase mappings the database starts with: A-Z to a-z.
pub open spec fn initial_lowercase(cp: u32) -> Option<u32> {
    if 0x0041 <= cp <= 0x005A { Some((cp + 32) as u32) } else { None }
}

/// The uppercase mappings the database starts with: a-z to A-Z.
pub open spec fn initial_uppercase(cp: u32) -> Option<u32> {
    if 0x0061 <= cp <= 0x007A { Some((cp - 32) as u32) } else { None }
}

/// The digit values the database starts with: 0-9.
pub open spec fn initial_digit(cp: u32) -> Option<u8> {
    if 0x0030 <= cp <= 0x0039 { Some((cp - 0x0030) as u8) } else { None }
}

/// The line breaking classes the database starts with.
pub open spec fn initial_line_break(cp: u32) -> Option<LineBreakClass> {
    if cp == 0x0020 {
        Some(LineBreakClass::Space)
    } else if 0x4E00 <= cp <= 0x9FFF {
        Some(LineBreakClass::Ideographic)
    } else {
        None
    }
}

/// Whether a general category is a letter category.
pub open spec fn is_letter_category(c: GeneralCategory) -> bool {
    c == GeneralCategory::UppercaseLetter || c == GeneralCategory::LowercaseLetter
        || c == GeneralCategory::TitlecaseLetter || c == GeneralCategory::ModifierLetter
        || c == GeneralCategory::OtherLetter
}

/// Whether a general category is a mark category.
pub open spec fn is_mark_category(c: GeneralCategory) -> bool {
    c == GeneralCategory::NonspacingMark || c == GeneralCategory::SpacingMark
        || c == GeneralCategory::EnclosingMark
}

/// Whether a general category is a number category.
pub open spec fn is_number_category(c: GeneralCategory) -> bool {
    c == GeneralCategory::DecimalNumber || c == GeneralCategory::LetterNumber
        || c == GeneralCategory::OtherNumber
}

/// The general category of a code point outside the database's own table: exact for
/// the ASCII and Latin-1 letters, digits, punctuation and symbols, the Greek and Cyrillic
/// base letters, Hebrew and Arabic letters and points, Devanagari letters, signs and
/// digits, kana, Hangul and the CJK ideographs; `Unassigned` elsewhere.
pub open spec fn default_category(cp: u32) -> GeneralCategory {
    if cp <= 0x1F || (0x7F <= cp && cp <= 0x9F) {
        GeneralCategory::Control
    } else if cp == 0x20 || cp == 0xA0 || cp == 0x1680 || (0x2000 <= cp && cp <= 0x200A) || cp == 0x202F || cp == 0x205F || cp == 0x3000 {
        GeneralCategory::SpaceSeparator
    } else if cp == 0x2028 {
        GeneralCategory::LineSeparator
    } else if cp == 0x2029 {
        GeneralCategory::ParagraphSeparator
    } else if (0x30 <= cp && cp <= 0x39) || (0x660 <= cp && cp <= 0x669) || (0x6F0 <= cp && cp <= 0x6F9) || (0x966 <= cp && cp <= 0x96F) {
        GeneralCategory::DecimalNumber
    } else if (0x41 <= cp && cp <= 0x5A) || (0xC0 <= cp && cp <= 0xD6) || (0xD8 <= cp && cp <= 0xDE) || (0x391 <= cp && cp <= 0x3A1) || (0x3A3 <= cp && cp <= 0x3A9) || (0x400 <= cp && cp <= 0x42F) {
        GeneralCategory::UppercaseLetter
    } else if (0x61 <= cp && cp <= 0x7A) || cp == 0xB5 || (0xDF <= cp && cp <= 0xF6) || (0xF8 <= cp && cp <= 0xFF) || (0x3AC <= cp && cp <= 0x3CE) || (0x430 <= cp && cp <= 0x45F) {
        GeneralCategory::LowercaseLetter
    } else if (0x2B0 <= cp && cp <= 0x2C1) || cp == 0x640 || (0x30FC <= cp && cp <= 0x30FE) {
        GeneralCategory::ModifierLetter
    } else if cp == 0xAA || cp == 0xBA || (0x5D0 <= cp && cp <= 0x5EA) || (0x620 <= cp && cp <= 0x63F) || (0x641 <= cp && cp <= 0x64A) || (0x671 <= cp && cp <= 0x6D3) || (0x905 <= cp && cp <= 0x939) || (0x1100 <= cp && cp <= 0x11FF) || (0x3041 <= cp && cp <= 0x3096) || (0x30A1 <= cp && cp <= 0x30FA) || (0x4E00 <= cp && cp <= 0x9FFF) || (0xAC00 <= cp && cp <= 0xD7A3) {
        GeneralCategory::OtherLetter
    } else if (0x300 <= cp && cp <= 0x36F) || (0x591 <= cp && cp <= 0x5BD) || (0x64B <= cp && cp <= 0x65F) || cp == 0x670 || (0x900 <= cp && cp <= 0x902) || cp == 0x93C || (0x941 <= cp && cp <= 0x948) || cp == 0x94D || (0x3099 <= cp && cp <= 0x309A) {
        GeneralCategory::NonspacingMark
    } else if cp == 0x903 || (0x93E <= cp && cp <= 0x940) || (0x949 <= cp && cp <= 0x94C) {
        GeneralCategory::SpacingMark
    } else if cp == 0xAD || (0x600 <= cp && cp <= 0x605) || (0x200B <= cp && cp <= 0x200F) || (0x2060 <= cp && cp <= 0x2064) || cp == 0xFEFF {
        GeneralCategory::Format
    } else if (0x21 <= cp && cp <= 0x23) || (0x25 <= cp && cp <= 0x27) || cp == 0x2A || cp == 0x2C || (0x2E <= cp && cp <= 0x2F) || (0x3A <= cp && cp <= 0x3B) || (0x3F <= cp && cp <= 0x40) || cp == 0x5C || cp == 0xA1 || cp == 0xA7 || (0xB6 <= cp && cp <= 0xB7) || cp == 0xBF || (0x60C <= cp && cp <= 0x60D) || cp == 0x61F || (0x964 <= cp && cp <= 0x965) {
        GeneralCategory::OtherPunctuation
    } else if cp == 0x28 || cp == 0x5B || cp == 0x7B {
        GeneralCategory::OpenPunctuation
    } else if cp == 0x29 || cp == 0x5D || cp == 0x7D {
        GeneralCategory::ClosePunctuation
    } else if cp == 0x2D {
        GeneralCategory::DashPunctuation
    } else if cp == 0x5F {
        GeneralCategory::ConnectorPunctuation
    } else if cp == 0x2B || (0x3C <= cp && cp <= 0x3E) || cp == 0x7C || cp == 0x7E || cp == 0xAC || cp == 0xB1 || cp == 0xD7 || cp == 0xF7 {
        GeneralCategory::MathSymbol
    } else if cp == 0x24 || (0xA2 <= cp && cp <= 0xA5) {
        GeneralCategory::CurrencySymbol
    } else if cp == 0xA6 || cp == 0xA9 || cp == 0xAE || cp == 0xB0 {
        GeneralCategory::OtherSymbol
    } else if cp == 0xAB {
        GeneralCategory::InitialPunctuation
    } else if cp == 0xBB {
        GeneralCategory::FinalPunctuation
    } else if (0xB2 <= cp && cp <= 0xB3) || cp == 0xB9 || (0xBC <= cp && cp <= 0xBE) {
        GeneralCategory::OtherNumber
    } else if cp == 0x5E || cp == 0x60 || cp == 0xA8 || cp == 0xAF || cp == 0xB4 || cp == 0xB8 {
        GeneralCategory::ModifierSymbol
    } else {
        GeneralCategory::Unassigned
    }
}

/// The general category of a code point outside the database's own table.
pub fn default_category_of(cp: u32) -> (r: GeneralCategory)
    ensures
        r == default_category(cp),
{
    if cp <= 0x1F || (0x7F <= cp && cp <= 0x9F) {
        GeneralCategory::Control
    } else if cp == 0x20 || cp == 0xA0 || cp == 0x1680 || (0x2000 <= cp && cp <= 0x200A) || cp == 0x202F || cp == 0x205F || cp == 0x3000 {
        GeneralCategory::SpaceSeparator
    } else if cp == 0x2028 {
        GeneralCategory::LineSeparator
    } else if cp == 0x2029 {
        GeneralCategory::ParagraphSeparator
    } else if (0x30 <= cp && cp <= 0x39) || (0x660 <= cp && cp <= 0x669) || (0x6F0 <= cp && cp <= 0x6F9) || (0x966 <= cp && cp <= 0x96F) {
        GeneralCategory::DecimalNumber
    } else if (0x41 <= cp && cp <= 0x5A) || (0xC0 <= cp && cp <= 0xD6) || (0xD8 <= cp && cp <= 0xDE) || (0x391 <= cp && cp <= 0x3A1) || (0x3A3 <= cp && cp <= 0x3A9) || (0x400 <= cp && cp <= 0x42F) {
        GeneralCategory::UppercaseLetter
    } else if (0x61 <= cp && cp <= 0x7A) || cp == 0xB5 || (0xDF <= cp && cp <= 0xF6) || (0xF8 <= cp && cp <= 0xFF) || (0x3AC <= cp && cp <= 0x3CE) || (0x430 <= cp && cp <= 0x45F) {
        GeneralCategory::LowercaseLetter
    } else if (0x2B0 <= cp && cp <= 0x2C1) || cp == 0x640 || (0x30FC <= cp && cp <= 0x30FE) {
        GeneralCategory::ModifierLetter
    } else if cp == 0xAA || cp == 0xBA || (0x5D0 <= cp && cp <= 0x5EA) || (0x620 <= cp && cp <= 0x63F) || (0x641 <= cp && cp <= 0x64A) || (0x671 <= cp && cp <= 0x6D3) || (0x905 <= cp && cp <= 0x939) || (0x1100 <= cp && cp <= 0x11FF) || (0x3041 <= cp && cp <= 0x3096) || (0x30A1 <= cp && cp <= 0x30FA) || (0x4E00 <= cp && cp <= 0x9FFF) || (0xAC00 <= cp && cp <= 0xD7A3) {
        GeneralCategory::OtherLetter
    } else if (0x300 <= cp && cp <= 0x36F) || (0x591 <= cp && cp <= 0x5BD) || (0x64B <= cp && cp <= 0x65F) || cp == 0x670 || (0x900 <= cp && cp <= 0x902) || cp == 0x93C || (0x941 <= cp && cp <= 0x948) || cp == 0x94D || (0x3099 <= cp && cp <= 0x309A) {
        GeneralCategory::NonspacingMark
    } else if cp == 0x903 || (0x93E <= cp && cp <= 0x940) || (0x949 <= cp && cp <= 0x94C) {
        GeneralCategory::SpacingMark
    } else if cp == 0xAD || (0x600 <= cp && cp <= 0x605) || (0x200B <= cp && cp <= 0x200F) || (0x2060 <= cp && cp <= 0x2064) || cp == 0xFEFF {
        GeneralCategory::Format
    } else if (0x21 <= cp && cp <= 0x23) || (0x25 <= cp && cp <= 0x27) || cp == 0x2A || cp == 0x2C || (0x2E <= cp && cp <= 0x2F) || (0x3A <= cp && cp <= 0x3B) || (0x3F <= cp && cp <= 0x40) || cp == 0x5C || cp == 0xA1 || cp == 0xA7 || (0xB6 <= cp && cp <= 0xB7) || cp == 0xBF || (0x60C <= cp && cp <= 0x60D) || cp == 0x61F || (0x964 <= cp && cp <= 0x965) {
        GeneralCategory::OtherPunctuation
    } else if cp == 0x28 || cp == 0x5B || cp == 0x7B {
        GeneralCategory::OpenPunctuation
    } else if cp == 0x29 || cp == 0x5D || cp == 0x7D {
        GeneralCategory::ClosePunctuation
    } else if cp == 0x2D {
        GeneralCategory::DashPunctuation
    } else if cp == 0x5F {
        GeneralCategory::ConnectorPunctuation
    } else if cp == 0x2B || (0x3C <= cp && cp <= 0x3E) || cp == 0x7C || cp == 0x7E || cp == 0xAC || cp == 0xB1 || cp == 0xD7 || cp == 0xF7 {
        GeneralCategory::MathSymbol
    } else if cp == 0x24 || (0xA2 <= cp && cp <= 0xA5) {
        GeneralCategory::CurrencySymbol
    } else if cp == 0xA6 || cp == 0xA9 || cp == 0xAE || cp == 0xB0 {
        GeneralCategory::OtherSymbol
    } else if cp == 0xAB {
        GeneralCategory::InitialPunctuation
    } else if cp == 0xBB {
        GeneralCategory::FinalPunctuation
    } else if (0xB2 <= cp && cp <= 0xB3) || cp == 0xB9 || (0xBC <= cp && cp <= 0xBE) {
        GeneralCategory::OtherNumber
    } else if cp == 0x5E || cp == 0x60 || cp == 0xA8 || cp == 0xAF || cp == 0xB4 || cp == 0xB8 {
        GeneralCategory::ModifierSymbol
    } else {
        GeneralCategory::Unassigned
    }
}


/// The grapheme breaking class of a code point outside the database's own table (UAX #29):
/// CR, LF, the other controls and separators, ZWJ, regional indicators, the Hangul jamo
/// and syllables, the prepended Arabic number signs, and the marks that `default_category`
/// knows, nonspacing ones extending and spacing ones as spacing marks.
pub open spec fn default_grapheme_class(cp: u32) -> GraphemeBreakClass {
    if cp == 0x0D {
        GraphemeBreakClass::CarriageReturn
    } else if cp == 0x0A {
        GraphemeBreakClass::LineFeed
    } else if cp == 0x200D {
        GraphemeBreakClass::ZWJ
    } else if cp == 0x200C {
        GraphemeBreakClass::Extend
    } else if cp <= 0x1F || (0x7F <= cp && cp <= 0x9F) || cp == 0xAD || cp == 0x200B || cp == 0x200E
        || cp == 0x200F || cp == 0x2028 || cp == 0x2029 || (0x2060 <= cp && cp <= 0x2064) || cp == 0xFEFF {
        GraphemeBreakClass::Control
    } else if 0x1F1E6 <= cp && cp <= 0x1F1FF {
        GraphemeBreakClass::RegionalIndicator
    } else if (0x600 <= cp && cp <= 0x605) || cp == 0x6DD {
        GraphemeBreakClass::Prepend
    } else if (0x1100 <= cp && cp <= 0x115F) || (0xA960 <= cp && cp <= 0xA97C) {
        GraphemeBreakClass::L
    } else if (0x1160 <= cp && cp <= 0x11A7) || (0xD7B0 <= cp && cp <= 0xD7C6) {
        GraphemeBreakClass::V
    } else if (0x11A8 <= cp && cp <= 0x11FF) || (0xD7CB <= cp && cp <= 0xD7FB) {
        GraphemeBreakClass::T
    } else if 0xAC00 <= cp && cp <= 0xD7A3 {
        if (cp - 0xAC00) % 28 == 0 { GraphemeBreakClass::LV } else { GraphemeBreakClass::LVT }
    } else if default_category(cp) == GeneralCategory::NonspacingMark
        || default_category(cp) == GeneralCategory::EnclosingMark {
        GraphemeBreakClass::Extend
    } else if default_category(cp) == GeneralCategory::SpacingMark {
        GraphemeBreakClass::SpacingMark
    } else {
        GraphemeBreakClass::Other
    }
}

/// The grapheme breaking class of a code point outside the database's own table.
pub fn default_grapheme_class_of(cp: u32) -> (r: GraphemeBreakClass)
    ensures
        r == default_grapheme_class(cp),
{
    let cat = default_category_of(cp);
    if cp == 0x0D {
        GraphemeBreakClass::CarriageReturn
    } else if cp == 0x0A {
        GraphemeBreakClass::LineFeed
    } else if cp == 0x200D {
        GraphemeBreakClass::ZWJ
    } else if cp == 0x200C {
        GraphemeBreakClass::Extend
    } else if cp <= 0x1F || (0x7F <= cp && cp <= 0x9F) || cp == 0xAD || cp == 0x200B || cp == 0x200E
        || cp == 0x200F || cp == 0x2028 || cp == 0x2029 || (0x2060 <= cp && cp <= 0x2064) || cp == 0xFEFF {
        GraphemeBreakClass::Control
    } else if 0x1F1E6 <= cp && cp <= 0x1F1FF {
        GraphemeBreakClass::RegionalIndicator
    } else if (0x600 <= cp && cp <= 0x605) || cp == 0x6DD {
        GraphemeBreakClass::Prepend
    } else if (0x1100 <= cp && cp <= 0x115F) || (0xA960 <= cp && cp <= 0xA97C) {
        GraphemeBreakClass::L
    } else if (0x1160 <= cp && cp <= 0x11A7) || (0xD7B0 <= cp && cp <= 0xD7C6) {
        GraphemeBreakClass::V
    } else if (0x11A8 <= cp && cp <= 0x11FF) || (0xD7CB <= cp && cp <= 0xD7FB) {
        GraphemeBreakClass::T
    } else if 0xAC00 <= cp && cp <= 0xD7A3 {
        if (cp - 0xAC00) % 28 == 0 { GraphemeBreakClass::LV } else { GraphemeBreakClass::LVT }
    } else if cat == GeneralCategory::NonspacingMark || cat == GeneralCategory::EnclosingMark {
        GraphemeBreakClass::Extend
    } else if cat == GeneralCategory::SpacingMark {
        GraphemeBreakClass::SpacingMark
    } else {
        GraphemeBreakClass::Other
    }
}

/// Whether a general category is a letter's, for word breaking: the ideographs and
/// hiragana, which UAX #29 leaves out of ALetter, aside.
pub open spec fn is_word_letter(cp: u32) -> bool {
    is_letter_category(default_category(cp)) && !(0x4E00 <= cp && cp <= 0x9FFF) && !(0x3041 <= cp && cp <= 0x309F)
        && !(0x1100 <= cp && cp <= 0x11FF) && !(0xAC00 <= cp && cp <= 0xD7A3)
}

/// The word breaking class of a code point outside the database's own table (UAX #29).
pub open spec fn default_word_class(cp: u32) -> WordBreakClass {
    if cp == 0x0D {
        WordBreakClass::CarriageReturn
    } else if cp == 0x0A {
        WordBreakClass::LineFeed
    } else if cp == 0x0B || cp == 0x0C || cp == 0x85 || cp == 0x2028 || cp == 0x2029 {
        WordBreakClass::Newline
    } else if cp == 0x200D {
        WordBreakClass::ZWJ
    } else if 0x1F1E6 <= cp && cp <= 0x1F1FF {
        WordBreakClass::RegionalIndicator
    } else if cp == 0x20 || cp == 0x1680 || (0x2000 <= cp && cp <= 0x2006) || (0x2008 <= cp && cp <= 0x200A)
        || cp == 0x205F || cp == 0x3000 {
        WordBreakClass::WSegSpace
    } else if cp == 0x200C || is_mark_category(default_category(cp)) {
        WordBreakClass::Extend
    } else if cp == 0xAD || (0x600 <= cp && cp <= 0x605) || cp == 0x200E || cp == 0x200F
        || (0x2060 <= cp && cp <= 0x2064) || cp == 0xFEFF {
        WordBreakClass::Format
    } else if (0x30A1 <= cp && cp <= 0x30FA) || (0x30FC <= cp && cp <= 0x30FF) {
        WordBreakClass::Katakana
    } else if 0x5D0 <= cp && cp <= 0x5EA {
        WordBreakClass::HebrewLetter
    } else if is_word_letter(cp) {
        WordBreakClass::ALetter
    } else if cp == 0x27 {
        WordBreakClass::SingleQuote
    } else if cp == 0x22 {
        WordBreakClass::DoubleQuote
    } else if cp == 0x2E || cp == 0x2018 || cp == 0x2019 || cp == 0x2024 || cp == 0xFE52 || cp == 0xFF07
        || cp == 0xFF0E {
        WordBreakClass::MidNumLet
    } else if cp == 0x3A || cp == 0xB7 || cp == 0x387 || cp == 0x5F4 || cp == 0x2027 {
        WordBreakClass::MidLetter
    } else if cp == 0x2C || cp == 0x3B || cp == 0x37E || cp == 0x589 || cp == 0x60C || cp == 0x60D
        || cp == 0x66C || cp == 0x2044 {
        WordBreakClass::MidNum
    } else if default_category(cp) == GeneralCategory::DecimalNumber || cp == 0x66B {
        WordBreakClass::Numeric
    } else if cp == 0x5F || cp == 0x202F || cp == 0x203F || cp == 0x2040 || cp == 0x2054 {
        WordBreakClass::ExtendNumLet
    } else {
        WordBreakClass::Other
    }
}

/// The word breaking class of a code point outside the database's own table.
pub fn default_word_class_of(cp: u32) -> (r: WordBreakClass)
    ensures
        r == default_word_class(cp),
{
    let cat = default_category_of(cp);
    let mark = cat == GeneralCategory::NonspacingMark || cat == GeneralCategory::SpacingMark
        || cat == GeneralCategory::EnclosingMark;
    let letter = (cat == GeneralCategory::UppercaseLetter || cat == GeneralCategory::LowercaseLetter
        || cat == GeneralCategory::TitlecaseLetter || cat == GeneralCategory::ModifierLetter
        || cat == GeneralCategory::OtherLetter) && !(0x4E00 <= cp && cp <= 0x9FFF) && !(0x3041 <= cp && cp <= 0x309F)
        && !(0x1100 <= cp && cp <= 0x11FF) && !(0xAC00 <= cp && cp <= 0xD7A3);
    if cp == 0x0D {
        WordBreakClass::CarriageReturn
    } else if cp == 0x0A {
        WordBreakClass::LineFeed
    } else if cp == 0x0B || cp == 0x0C || cp == 0x85 || cp == 0x2028 || cp == 0x2029 {
        WordBreakClass::Newline
    } else if cp == 0x200D {
        WordBreakClass::ZWJ
    } else if 0x1F1E6 <= cp && cp <= 0x1F1FF {
        WordBreakClass::RegionalIndicator
    } else if cp == 0x20 || cp == 0x1680 || (0x2000 <= cp && cp <= 0x2006) || (0x2008 <= cp && cp <= 0x200A)
        || cp == 0x205F || cp == 0x3000 {
        WordBreakClass::WSegSpace
    } else if cp == 0x200C || mark {
        WordBreakClass::Extend
    } else if cp == 0xAD || (0x600 <= cp && cp <= 0x605) || cp == 0x200E || cp == 0x200F
        || (0x2060 <= cp && cp <= 0x2064) || cp == 0xFEFF {
        WordBreakClass::Format
    } else if (0x30A1 <= cp && cp <= 0x30FA) || (0x30FC <= cp && cp <= 0x30FF) {
        WordBreakClass::Katakana
    } else if 0x5D0 <= cp && cp <= 0x5EA {
        WordBreakClass::HebrewLetter
    } else if letter {
        WordBreakClass::ALetter
    } else if cp == 0x27 {
        WordBreakClass::SingleQuote
    } else if cp == 0x22 {
        WordBreakClass::DoubleQuote
    } else if cp == 0x2E || cp == 0x2018 || cp == 0x2019 || cp == 0x2024 || cp == 0xFE52 || cp == 0xFF07
        || cp == 0xFF0E {
        WordBreakClass::MidNumLet
    } else if cp == 0x3A || cp == 0xB7 || cp == 0x387 || cp == 0x5F4 || cp == 0x2027 {
        WordBreakClass::MidLetter
    } else if cp == 0x2C || cp == 0x3B || cp == 0x37E || cp == 0x589 || cp == 0x60C || cp == 0x60D
        || cp == 0x66C || cp == 0x2044 {
        WordBreakClass::MidNum
    } else if cat == GeneralCategory::DecimalNumber || cp == 0x66B {
        WordBreakClass::Numeric
    } else if cp == 0x5F || cp == 0x202F || cp == 0x203F || cp == 0x2040 || cp == 0x2054 {
        WordBreakClass::ExtendNumLet
    } else {
        WordBreakClass::Other
    }
}

/// Whether a general category is a separator category.
pub open spec fn is_separator_category(c: GeneralCategory) -> bool {
    c == GeneralCategory::SpaceSeparator || c == GeneralCategory::LineSeparator
        || c == GeneralCategory::ParagraphSeparator
}

/// The value a map holds for a key, or a default.
pub open spec fn lookup_or<V>(m: Map<u32, V>, k: u32, d: V) -> V {
    if m.contains_key(k) { m[k] } else { d }
}

fn fill_range<V: Copy>(m: &mut HashMap<u32, V>, lo: u32, hi: u32, v: V)
    requires
        lo <= hi < u32::MAX,
    ensures
        final(m)@ == old(m)@.union_prefer_right(range_map(lo, hi, v)),
{
    let ghost m0 = m@;
    let mut cp: u32 = lo;
    while cp <= hi
        invariant
            lo <= cp <= hi + 1,
            hi < u32::MAX,
            m@ == m0.union_prefer_right(Map::new(|k: u32| lo <= k < cp, |k: u32| v)),
        decreases hi + 1 - cp,
    {
        m.insert(cp, v);
        cp = cp + 1;
        assert(m@ =~= m0.union_prefer_right(Map::new(|k: u32| lo <= k < cp, |k: u32| v)));
    }
    assert(m@ =~= m0.union_prefer_right(range_map(lo, hi, v)));
}

/// Unicode character property database.
pub struct UnicodePropertyDatabase {
    general_categories: HashMap<u32, GeneralCategory>,
    script_assignments: HashMap<u32, UnicodeScriptExtended>,
    bidi_classes: HashMap<u32, BidiClass>,
    combining_classes: HashMap<u32, u8>,
    decompositions: HashMap<u32, Vec<u32>>,
    uppercase_mappings: HashMap<u32, u32>,
    lowercase_mappings: HashMap<u32, u32>,
    titlecase_mappings: HashMap<u32, u32>,
    digit_values: HashMap<u32, u8>,
    line_break_classes: HashMap<u32, LineBreakClass>,
    word_break_classes: HashMap<u32, WordBreakClass>,
    sentence_break_classes: HashMap<u32, SentenceBreakClass>,
    grapheme_break_classes: HashMap<u32, GraphemeBreakClass>,
}

impl UnicodePropertyDatabase {
    /// Scripts by code point.
    pub closed spec fn scripts(&self) -> Map<u32, UnicodeScriptExtended> {
        self.script_assignments@
    }

    /// General categories by code point.
    pub closed spec fn categories(&self) -> Map<u32, GeneralCategory> {
        self.general_categories@
    }

    /// Bidirectional classes by code point.
    pub closed spec fn bidi(&self) -> Map<u32, BidiClass> {
        self.bidi_classes@
    }

    /// Canonical combining classes by code point.
    pub closed spec fn combining(&self) -> Map<u32, u8> {
        self.combining_classes@
    }

    /// Decompositions by code point.
    pub closed spec fn decomposition_map(&self) -> Map<u32, Seq<u32>> {
        self.decompositions@.map_values(|v: Vec<u32>| v@)
    }

    /// Uppercase mappings.
    pub closed spec fn uppercase(&self) -> Map<u32, u32> {
        self.uppercase_mappings@
    }

    /// Lowercase mappings.
    pub closed spec fn lowercase(&self) -> Map<u32, u32> {
        self.lowercase_mappings@
    }

    /// Titlecase mappings.
    pub closed spec fn titlecase(&self) -> Map<u32, u32> {
        self.titlecase_mappings@
    }

    /// Decimal digit values.
    pub closed spec fn digits(&self) -> Map<u32, u8> {
        self.digit_values@
    }

    /// Line breaking classes.
    pub closed spec fn line_breaks(&self) -> Map<u32, LineBreakClass> {
        self.line_break_classes@
    }

    /// Word breaking classes.
    pub closed spec fn word_breaks(&self) -> Map<u32, WordBreakClass> {
        self.word_break_classes@
    }

    /// Sentence breaking classes.
    pub closed spec fn sentence_breaks(&self) -> Map<u32, SentenceBreakClass> {
        self.sentence_break_classes@
    }

    /// Grapheme breaking classes.
    pub closed spec fn grapheme_breaks(&self) -> Map<u32, GraphemeBreakClass> {
        self.grapheme_break_classes@
    }

    /// Create the database, filled with the properties of Basic Latin and of the
    /// Latin Extended-A, Greek, Cyrillic, Arabic, Hebrew, Devanagari, CJK, Hiragana,
    /// Katakana and Hangul blocks.
    pub fn new() -> (r: Self)
        ensures
            r.scripts() == table_of(|cp: u32| initial_script(cp)),
            r.categories() == table_of(|cp: u32| initial_category(cp)),
            r.bidi() == table_of(|cp: u32| initial_bidi(cp)),
            r.lowercase() == table_of(|cp: u32| initial_lowercase(cp)),
            r.uppercase() == table_of(|cp: u32| initial_uppercase(cp)),
            r.digits() == table_of(|cp: u32| initial_digit(cp)),
            r.line_breaks() == table_of(|cp: u32| initial_line_break(cp)),
            r.combining() == Map::<u32, u8>::empty(),
            r.decomposition_map() == Map::<u32, Seq<u32>>::empty(),
            r.titlecase() == Map::<u32, u32>::empty(),
            r.word_breaks() == Map::<u32, WordBreakClass>::empty(),
            r.sentence_breaks() == Map::<u32, SentenceBreakClass>::empty(),
            r.grapheme_breaks() == Map::<u32, GraphemeBreakClass>::empty(),
    {
        let mut db = UnicodePropertyDatabase {
            general_categories: HashMap::new(),
            script_assignments: HashMap::new(),
            bidi_classes: HashMap::new(),
            combining_classes: HashMap::new(),
            decompositions: HashMap::new(),
            uppercase_mappings: HashMap::new(),
            lowercase_mappings: HashMap::new(),
            titlecase_mappings: HashMap::new(),
            digit_values: HashMap::new(),
            line_break_classes: HashMap::new(),
            word_break_classes: HashMap::new(),
            sentence_break_classes: HashMap::new(),
            grapheme_break_classes: HashMap::new(),
        };
        db.initialize_database();
        assert(db.decomposition_map() =~= Map::<u32, Seq<u32>>::empty());
        db
    }

    fn initialize_database(&mut self)
        requires
            old(self).scripts() == Map::<u32, UnicodeScriptExtended>::empty(),
            old(self).categories() == Map::<u32, GeneralCategory>::empty(),
            old(self).bidi() == Map::<u32, BidiClass>::empty(),
            old(self).lowercase() == Map::<u32, u32>::empty(),
            old(self).uppercase() == Map::<u32, u32>::empty(),
            old(self).digits() == Map::<u32, u8>::empty(),
            old(self).line_breaks() == Map::<u32, LineBreakClass>::empty(),
        ensures
            final(self).scripts() == table_of(|cp: u32| initial_script(cp)),
            final(self).categories() == table_of(|cp: u32| initial_category(cp)),
            final(self).bidi() == table_of(|cp: u32| initial_bidi(cp)),
            final(self).lowercase() == table_of(|cp: u32| initial_lowercase(cp)),
            final(self).uppercase() == table_of(|cp: u32| initial_uppercase(cp)),
            final(self).digits() == table_of(|cp: u32| initial_digit(cp)),
            final(self).line_breaks() == table_of(|cp: u32| initial_line_break(cp)),
            final(self).combining() == old(self).combining(),
            final(self).decompositions@ == old(self).decompositions@,
            final(self).titlecase() == old(self).titlecase(),
            final(self).word_breaks() == old(self).word_breaks(),
            final(self).sentence_breaks() == old(self).sentence_breaks(),
            final(self).grapheme_breaks() == old(self).grapheme_breaks(),
    {
        let mut lower: HashMap<u32, u32> = HashMap::new();
        let mut upper: HashMap<u32, u32> = HashMap::new();
        let mut digits: HashMap<u32, u8> = HashMap::new();
        let mut cp: u32 = 0x0041;
        while cp <= 0x005A
            invariant
                0x0041 <= cp <= 0x005B,
                lower@ == Map::new(|k: u32| 0x0041 <= k < cp, |k: u32| (k + 32) as u32),
            decreases 0x005B - cp,
        {
            lower.insert(cp, cp + 32);
            cp = cp + 1;
            assert(lower@ =~= Map::new(|k: u32| 0x0041 <= k < cp, |k: u32| (k + 32) as u32));
        }
        assert(lower@ =~= table_of(|cp: u32| initial_lowercase(cp)));
        let mut cp: u32 = 0x0061;
        while cp <= 0x007A
            invariant
                0x0061 <= cp <= 0x007B,
                upper@ == Map::new(|k: u32| 0x0061 <= k < cp, |k: u32| (k - 32) as u32),
            decreases 0x007B - cp,
        {
            upper.insert(cp, cp - 32);
            cp = cp + 1;
            assert(upper@ =~= Map::new(|k: u32| 0x0061 <= k < cp, |k: u32| (k - 32) as u32));
        }
        assert(upper@ =~= table_of(|cp: u32| initial_uppercase(cp)));
        let mut cp: u32 = 0x0030;
        while cp <= 0x0039
            invariant
                0x0030 <= cp <= 0x003A,
                digits@ == Map::new(|k: u32| 0x0030 <= k < cp, |k: u32| (k - 0x0030) as u8),
            decreases 0x003A - cp,
        {
            digits.insert(cp, (cp - 0x0030) as u8);
            cp = cp + 1;
            assert(digits@ =~= Map::new(|k: u32| 0x0030 <= k < cp, |k: u32| (k - 0x0030) as u8));
        }
        assert(digits@ =~= table_of(|cp: u32| initial_digit(cp)));
        self.lowercase_mappings = lower;
        self.uppercase_mappings = upper;
        self.digit_values = digits;
        // Basic Latin
        fill_range(&mut self.script_assignments, 0x0000, 0x007F, UnicodeScriptExtended::Latin);
        fill_range(&mut self.bidi_classes, 0x0000, 0x007F, BidiClass::LeftToRight);
        fill_range(&mut self.general_categories, 0x0041, 0x005A, GeneralCategory::UppercaseLetter);
        fill_range(&mut self.general_categories, 0x0061, 0x007A, GeneralCategory::LowercaseLetter);
        fill_range(&mut self.general_categories, 0x0030, 0x0039, GeneralCategory::DecimalNumber);
        self.general_categories.insert(0x0020, GeneralCategory::SpaceSeparator);
        self.line_break_classes.insert(0x0020, LineBreakClass::Space);
        // Latin Extended-A, Greek, Cyrillic
        fill_range(&mut self.script_assignments, 0x0100, 0x017F, UnicodeScriptExtended::Latin);
        fill_range(&mut self.bidi_classes, 0x0100, 0x017F, BidiClass::LeftToRight);
        fill_range(&mut self.script_assignments, 0x0370, 0x03FF, UnicodeScriptExtended::Greek);
        fill_range(&mut self.bidi_classes, 0x0370, 0x03FF, BidiClass::LeftToRight);
        fill_range(&mut self.script_assignments, 0x0400, 0x04FF, UnicodeScriptExtended::Cyrillic);
        fill_range(&mut self.bidi_classes, 0x0400, 0x04FF, BidiClass::LeftToRight);
        // Arabic, Hebrew, Devanagari
        fill_range(&mut self.script_assignments, 0x0600, 0x06FF, UnicodeScriptExtended::Arabic);
        fill_range(&mut self.bidi_classes, 0x0600, 0x06FF, BidiClass::ArabicLetter);
        fill_range(&mut self.script_assignments, 0x0590, 0x05FF, UnicodeScriptExtended::Hebrew);
        fill_range(&mut self.bidi_classes, 0x0590, 0x05FF, BidiClass::RightToLeft);
        fill_range(&mut self.script_assignments, 0x0900, 0x097F, UnicodeScriptExtended::Devanagari);
        fill_range(&mut self.bidi_classes, 0x0900, 0x097F, BidiClass::LeftToRight);
        // CJK Unified Ideographs
        fill_range(&mut self.script_assignments, 0x4E00, 0x9FFF, UnicodeScriptExtended::Han);
        fill_range(&mut self.bidi_classes, 0x4E00, 0x9FFF, BidiClass::LeftToRight);
        fill_range(&mut self.general_categories, 0x4E00, 0x9FFF, GeneralCategory::OtherLetter);
        fill_range(&mut self.line_break_classes, 0x4E00, 0x9FFF, LineBreakClass::Ideographic);
        // Hiragana, Katakana, Hangul syllables
        fill_range(&mut self.script_assignments, 0x3040, 0x309F, UnicodeScriptExtended::Hiragana);
        fill_range(&mut self.bidi_classes, 0x3040, 0x309F, BidiClass::LeftToRight);
        fill_range(&mut self.script_assignments, 0x30A0, 0x30FF, UnicodeScriptExtended::Katakana);
        fill_range(&mut self.bidi_classes, 0x30A0, 0x30FF, BidiClass::LeftToRight);
        fill_range(&mut self.script_assignments, 0xAC00, 0xD7AF, UnicodeScriptExtended::Hangul);
        fill_range(&mut self.bidi_classes, 0xAC00, 0xD7AF, BidiClass::LeftToRight);
        assert(self.scripts() =~= table_of(|cp: u32| initial_script(cp)));
        assert(self.bidi() =~= table_of(|cp: u32| initial_bidi(cp)));
        assert(self.categories() =~= table_of(|cp: u32| initial_category(cp)));
        assert(self.line_breaks() =~= table_of(|cp: u32| initial_line_break(cp)));
    }

    /// The script of a code point; `Unknown` where the database has none.
    pub fn get_script(&self, codepoint: u32) -> (r: UnicodeScriptExtended)
        ensures
            r == lookup_or(self.scripts(), codepoint, UnicodeScriptExtended::Unknown),
    {
        match self.script_assignments.get(&codepoint) {
            Some(s) => *s,
            None => UnicodeScriptExtended::Unknown,
        }
    }

    /// The general category of a code point: the database's own, else `default_category`.
    pub open spec fn category(&self, cp: u32) -> GeneralCategory {
        if self.categories().contains_key(cp) { self.categories()[cp] } else { default_category(cp) }
    }

    /// The grapheme breaking class of a code point: the database's own, else the default.
    pub open spec fn grapheme_class_at(&self, cp: u32) -> GraphemeBreakClass {
        if self.grapheme_breaks().contains_key(cp) { self.grapheme_breaks()[cp] } else { default_grapheme_class(cp) }
    }

    /// The word breaking class of a code point: the database's own, else the default.
    pub open spec fn word_class_at(&self, cp: u32) -> WordBreakClass {
        if self.word_breaks().contains_key(cp) { self.word_breaks()[cp] } else { default_word_class(cp) }
    }

    /// The general category of a code point: the database's own, else `default_category`.
    pub fn get_general_category(&self, codepoint: u32) -> (r: GeneralCategory)
        ensures
            r == self.category(codepoint),
    {
        match self.general_categories.get(&codepoint) {
            Some(c) => *c,
            None => default_category_of(codepoint),
        }
    }

    /// The bidirectional class of a code point; left-to-right where the database has none.
    pub fn get_bidi_class(&self, codepoint: u32) -> (r: BidiClass)
        ensures
            r == lookup_or(self.bidi(), codepoint, BidiClass::LeftToRight),
    {
        match self.bidi_classes.get(&codepoint) {
            Some(c) => *c,
            None => BidiClass::LeftToRight,
        }
    }

    /// The canonical combining class of a code point; 0 where the database has none.
    pub fn get_combining_class(&self, codepoint: u32) -> (r: u8)
        ensures
            r == lookup_or(self.combining(), codepoint, 0u8),
    {
        match self.combining_classes.get(&codepoint) {
            Some(c) => *c,
            None => 0,
        }
    }

    /// The decomposition of a code point, if the database has one.
    pub fn get_decomposition(&self, codepoint: u32) -> (r: Option<&[u32]>)
        ensures
            match r {
                Some(d) => self.decomposition_map().contains_key(codepoint) && d@ == self.decomposition_map()[codepoint],
                None => !self.decomposition_map().contains_key(codepoint),
            },
    {
        match self.decompositions.get(&codepoint) {
            Some(v) => Some(v.as_slice()),
            None => None,
        }
    }

    /// The uppercase mapping of a code point; the code point itself where there is none.
    pub fn to_uppercase(&self, codepoint: u32) -> (r: u32)
        ensures
            r == lookup_or(self.uppercase(), codepoint, codepoint),
    {
        match self.uppercase_mappings.get(&codepoint) {
            Some(c) => *c,
            None => codepoint,
        }
    }

    /// The lowercase mapping of a code point; the code point itself where there is none.
    pub fn to_lowercase(&self, codepoint: u32) -> (r: u32)
        ensures
            r == lookup_or(self.lowercase(), codepoint, codepoint),
    {
        match self.lowercase_mappings.get(&codepoint) {
            Some(c) => *c,
            None => codepoint,
        }
    }

    /// The titlecase mapping of a code point; the code point itself where there is none.
    pub fn to_titlecase(&self, codepoint: u32) -> (r: u32)
        ensures
            r == lookup_or(self.titlecase(), codepoint, codepoint),
    {
        match self.titlecase_mappings.get(&codepoint) {
            Some(c) => *c,
            None => codepoint,
        }
    }

    /// The decimal digit value of a code point, if it is a digit.
    pub fn get_digit_value(&self, codepoint: u32) -> (r: Option<u8>)
        ensures
            r == (if self.digits().contains_key(codepoint) { Some(self.digits()[codepoint]) } else { None::<u8> }),
    {
        match self.digit_values.get(&codepoint) {
            Some(d) => Some(*d),
            None => None,
        }
    }

    /// Whether a code point is a letter.
    pub fn is_letter(&self, codepoint: u32) -> (r: bool)
        ensures
            r == is_letter_category(self.category(codepoint)),
    {
        let c = self.get_general_category(codepoint);
        c == GeneralCategory::UppercaseLetter || c == GeneralCategory::LowercaseLetter
            || c == GeneralCategory::TitlecaseLetter || c == GeneralCategory::ModifierLetter
            || c == GeneralCategory::OtherLetter
    }

    /// Whether a code point is a mark.
    pub fn is_mark(&self, codepoint: u32) -> (r: bool)
        ensures
            r == is_mark_category(self.category(codepoint)),
    {
        let c = self.get_general_category(codepoint);
        c == GeneralCategory::NonspacingMark || c == GeneralCategory::SpacingMark
            || c == GeneralCategory::EnclosingMark
    }

    /// Whether a code point is a number.
    pub fn is_number(&self, codepoint: u32) -> (r: bool)
        ensures
            r == is_number_category(self.category(codepoint)),
    {
        let c = self.get_general_category(codepoint);
        c == GeneralCategory::DecimalNumber || c == GeneralCategory::LetterNumber
            || c == GeneralCategory::OtherNumber
    }

    /// Whether a code point is whitespace: a separator, or a control from tab to carriage return.
    pub fn is_whitespace(&self, codepoint: u32) -> (r: bool)
        ensures
            r == (is_separator_category(self.category(codepoint))
                || (0x0009 <= codepoint <= 0x000D)),
    {
        let c = self.get_general_category(codepoint);
        c == GeneralCategory::SpaceSeparator || c == GeneralCategory::LineSeparator
            || c == GeneralCategory::ParagraphSeparator || (0x0009 <= codepoint && codepoint <= 0x000D)
    }

    /// The grapheme breaking class of a character: the database's own, else the default.
    pub fn grapheme_class(&self, c: char) -> (r: GraphemeBreakClass)
        ensures
            r == self.grapheme_class_at(c as u32),
    {
        match self.grapheme_break_classes.get(&(c as u32)) {
            Some(k) => *k,
            None => default_grapheme_class_of(c as u32),
        }
    }

    /// The word breaking class of a character: the database's own, else the default.
    pub fn word_class(&self, c: char) -> (r: WordBreakClass)
        ensures
            r == self.word_class_at(c as u32),
    {
        match self.word_break_classes.get(&(c as u32)) {
            Some(k) => *k,
            None => default_word_class_of(c as u32),
        }
    }

    /// The sentence breaking class of a character; `Other` where the database has none.
    pub fn sentence_class(&self, c: char) -> (r: SentenceBreakClass)
        ensures
            r == lookup_or(self.sentence_breaks(), c as u32, SentenceBreakClass::Other),
    {
        match self.sentence_break_classes.get(&(c as u32)) {
            Some(k) => *k,
            None => SentenceBreakClass::Other,
        }
    }
}

/// Grapheme cluster boundary rules (UAX #29) that two neighbouring classes decide:
/// GB3 to GB9b. The rules that look further back (GB11 to GB13) are not applied.
pub open spec fn spec_grapheme_rule(cur: GraphemeBreakClass, next: GraphemeBreakClass) -> bool {
    if cur == GraphemeBreakClass::CarriageReturn && next == GraphemeBreakClass::LineFeed {
        false
    } else if cur == GraphemeBreakClass::Control || cur == GraphemeBreakClass::CarriageReturn
        || cur == GraphemeBreakClass::LineFeed {
        true
    } else if next == GraphemeBreakClass::Control || next == GraphemeBreakClass::CarriageReturn
        || next == GraphemeBreakClass::LineFeed {
        true
    } else if cur == GraphemeBreakClass::L && (next == GraphemeBreakClass::L || next == GraphemeBreakClass::V
        || next == GraphemeBreakClass::LV || next == GraphemeBreakClass::LVT) {
        false
    } else if (cur == GraphemeBreakClass::LV || cur == GraphemeBreakClass::V) && (next == GraphemeBreakClass::V
        || next == GraphemeBreakClass::T) {
        false
    } else if (cur == GraphemeBreakClass::LVT || cur == GraphemeBreakClass::T) && next == GraphemeBreakClass::T {
        false
    } else if next == GraphemeBreakClass::Extend || next == GraphemeBreakClass::ZWJ
        || next == GraphemeBreakClass::SpacingMark {
        false
    } else if cur == GraphemeBreakClass::Prepend {
        false
    } else {
        true
    }
}

/// Word boundary rules (UAX #29) that two neighbouring classes decide: WB3 to WB4,
/// WB5, WB7a, WB8 to WB10 and WB13 to WB13b. The rules that look past a neighbour
/// (WB4's skipping of marks, WB6, WB7, WB7b, WB7c, WB11, WB12, WB15, WB16) are not
/// applied.
pub open spec fn spec_word_rule(cur: WordBreakClass, next: WordBreakClass) -> bool {
    if cur == WordBreakClass::CarriageReturn && next == WordBreakClass::LineFeed {
        false
    } else if cur == WordBreakClass::Newline || cur == WordBreakClass::CarriageReturn
        || cur == WordBreakClass::LineFeed {
        true
    } else if next == WordBreakClass::Newline || next == WordBreakClass::CarriageReturn
        || next == WordBreakClass::LineFeed {
        true
    } else if cur == WordBreakClass::ZWJ {
        false
    } else if cur == WordBreakClass::WSegSpace && next == WordBreakClass::WSegSpace {
        false
    } else if next == WordBreakClass::Format || next == WordBreakClass::Extend
        || next == WordBreakClass::ZWJ {
        false
    } else if (cur == WordBreakClass::ALetter || cur == WordBreakClass::HebrewLetter || cur == WordBreakClass::Numeric)
        && (next == WordBreakClass::ALetter || next == WordBreakClass::HebrewLetter || next == WordBreakClass::Numeric) {
        false
    } else if cur == WordBreakClass::Katakana && next == WordBreakClass::Katakana {
        false
    } else if cur == WordBreakClass::HebrewLetter && next == WordBreakClass::SingleQuote {
        false
    } else if (cur == WordBreakClass::ALetter || cur == WordBreakClass::HebrewLetter || cur == WordBreakClass::Numeric
        || cur == WordBreakClass::Katakana || cur == WordBreakClass::ExtendNumLet) && next == WordBreakClass::ExtendNumLet {
        false
    } else if cur == WordBreakClass::ExtendNumLet && (next == WordBreakClass::ALetter || next == WordBreakClass::HebrewLetter
        || next == WordBreakClass::Numeric || next == WordBreakClass::Katakana) {
        false
    } else {
        true
    }
}

/// Sentence boundary rules (UAX #29): whether a boundary falls between characters
/// of the two classes.
pub open spec fn spec_sentence_rule(cur: SentenceBreakClass, next: SentenceBreakClass) -> bool {
    if cur == SentenceBreakClass::CarriageReturn && next == SentenceBreakClass::LineFeed {
        false
    } else if cur == SentenceBreakClass::Sep || cur == SentenceBreakClass::CarriageReturn
        || cur == SentenceBreakClass::LineFeed {
        true
    } else if next == SentenceBreakClass::Format || next == SentenceBreakClass::Extend {
        false
    } else {
        false
    }
}

/// Grapheme cluster boundary rule.
pub fn grapheme_rule(cur: GraphemeBreakClass, next: GraphemeBreakClass) -> (r: bool)
    ensures
        r == spec_grapheme_rule(cur, next),
{
    if cur == GraphemeBreakClass::CarriageReturn && next == GraphemeBreakClass::LineFeed {
        false
    } else if cur == GraphemeBreakClass::Control || cur == GraphemeBreakClass::CarriageReturn
        || cur == GraphemeBreakClass::LineFeed {
        true
    } else if next == GraphemeBreakClass::Control || next == GraphemeBreakClass::CarriageReturn
        || next == GraphemeBreakClass::LineFeed {
        true
    } else if cur == GraphemeBreakClass::L && (next == GraphemeBreakClass::L || next == GraphemeBreakClass::V
        || next == GraphemeBreakClass::LV || next == GraphemeBreakClass::LVT) {
        false
    } else if (cur == GraphemeBreakClass::LV || cur == GraphemeBreakClass::V) && (next == GraphemeBreakClass::V
        || next == GraphemeBreakClass::T) {
        false
    } else if (cur == GraphemeBreakClass::LVT || cur == GraphemeBreakClass::T) && next == GraphemeBreakClass::T {
        false
    } else if next == GraphemeBreakClass::Extend || next == GraphemeBreakClass::ZWJ
        || next == GraphemeBreakClass::SpacingMark {
        false
    } else if cur == GraphemeBreakClass::Prepend {
        false
    } else {
        true
    }
}

/// Word boundary rule.
pub fn word_rule(cur: WordBreakClass, next: WordBreakClass) -> (r: bool)
    ensures
        r == spec_word_rule(cur, next),
{
    if cur == WordBreakClass::CarriageReturn && next == WordBreakClass::LineFeed {
        false
    } else if cur == WordBreakClass::Newline || cur == WordBreakClass::CarriageReturn
        || cur == WordBreakClass::LineFeed {
        true
    } else if next == WordBreakClass::Newline || next == WordBreakClass::CarriageReturn
        || next == WordBreakClass::LineFeed {
        true
    } else if cur == WordBreakClass::ZWJ {
        false
    } else if cur == WordBreakClass::WSegSpace && next == WordBreakClass::WSegSpace {
        false
    } else if next == WordBreakClass::Format || next == WordBreakClass::Extend
        || next == WordBreakClass::ZWJ {
        false
    } else if (cur == WordBreakClass::ALetter || cur == WordBreakClass::HebrewLetter || cur == WordBreakClass::Numeric)
        && (next == WordBreakClass::ALetter || next == WordBreakClass::HebrewLetter || next == WordBreakClass::Numeric) {
        false
    } else if cur == WordBreakClass::Katakana && next == WordBreakClass::Katakana {
        false
    } else if cur == WordBreakClass::HebrewLetter && next == WordBreakClass::SingleQuote {
        false
    } else if (cur == WordBreakClass::ALetter || cur == WordBreakClass::HebrewLetter || cur == WordBreakClass::Numeric
        || cur == WordBreakClass::Katakana || cur == WordBreakClass::ExtendNumLet) && next == WordBreakClass::ExtendNumLet {
        false
    } else if cur == WordBreakClass::ExtendNumLet && (next == WordBreakClass::ALetter || next == WordBreakClass::HebrewLetter
        || next == WordBreakClass::Numeric || next == WordBreakClass::Katakana) {
        false
    } else {
        true
    }
}

/// Sentence boundary rule.
pub fn sentence_rule(cur: SentenceBreakClass, next: SentenceBreakClass) -> (r: bool)
    ensures
        r == spec_sentence_rule(cur, next),
{
    if cur == SentenceBreakClass::CarriageReturn && next == SentenceBreakClass::LineFeed {
        false
    } else if cur == SentenceBreakClass::Sep || cur == SentenceBreakClass::CarriageReturn
        || cur == SentenceBreakClass::LineFeed {
        true
    } else {
        false
    }
}

/// The three kinds of text segmentation.
#[derive(Debug, Clone, Copy, PartialEq, Eq, Structural)]
pub enum BreakKind {
    Grapheme,
    Word,
    Sentence,
}

/// Whether a boundary of the given kind falls between two adjacent characters.
pub open spec fn breaks_between(db: UnicodePropertyDatabase, kind: BreakKind, a: char, b: char) -> bool {
    match kind {
        BreakKind::Grapheme => spec_grapheme_rule(db.grapheme_class_at(a as u32), db.grapheme_class_at(b as u32)),
        BreakKind::Word => spec_word_rule(db.word_class_at(a as u32), db.word_class_at(b as u32)),
        BreakKind::Sentence => spec_sentence_rule(
            lookup_or(db.sentence_breaks(), a as u32, SentenceBreakClass::Other),
            lookup_or(db.sentence_breaks(), b as u32, SentenceBreakClass::Other),
        ),
    }
}

/// The character positions, strictly inside the text, where a boundary falls.
pub open spec fn break_positions(db: UnicodePropertyDatabase, kind: BreakKind, cs: Seq<char>) -> Seq<int>
    decreases cs.len(),
{
    if cs.len() < 2 {
        seq![]
    } else if breaks_between(db, kind, cs[cs.len() - 2], cs[cs.len() - 1]) {
        break_positions(db, kind, cs.drop_last()).push(cs.len() - 1)
    } else {
        break_positions(db, kind, cs.drop_last())
    }
}

/// Every boundary as a character position: the start, the inner boundaries, the end;
/// an empty text has the one boundary at 0.
pub open spec fn boundary_positions(db: UnicodePropertyDatabase, kind: BreakKind, cs: Seq<char>) -> Seq<int> {
    if cs.len() == 0 {
        seq![0int]
    } else {
        seq![0int] + break_positions(db, kind, cs) + seq![cs.len() as int]
    }
}

/// Character positions as byte offsets into the UTF-8 text.
pub open spec fn byte_offsets(cs: Seq<char>, ps: Seq<int>) -> Seq<int> {
    ps.map_values(|q: int| byte_len(cs.take(q)) as int)
}

/// The pieces of a text between consecutive positions.
pub open spec fn pieces(cs: Seq<char>, ps: Seq<int>) -> Seq<Seq<char>> {
    Seq::new((ps.len() - 1) as nat, |k: int| cs.subrange(ps[k], ps[k + 1]))
}

/// Whether a character has the Unicode White_Space property, which is what
/// `char::is_whitespace` and `str::trim` go by.
pub open spec fn white_space(c: char) -> bool {
    let u = c as u32;
    (0x09 <= u <= 0x0D) || u == 0x20 || u == 0x85 || u == 0xA0 || u == 0x1680 || (0x2000 <= u <= 0x200A)
        || u == 0x2028 || u == 0x2029 || u == 0x202F || u == 0x205F || u == 0x3000
}

/// Whether a character has the White_Space property.
pub fn is_white_space(c: char) -> (r: bool)
    ensures
        r == white_space(c),
{
    let u = c as u32;
    (0x09 <= u && u <= 0x0D) || u == 0x20 || u == 0x85 || u == 0xA0 || u == 0x1680 || (0x2000 <= u && u <= 0x200A)
        || u == 0x2028 || u == 0x2029 || u == 0x202F || u == 0x205F || u == 0x3000
}

/// Whether a character sequence holds anything but whitespace.
pub open spec fn has_content(s: Seq<char>) -> bool {
    exists|i: int| 0 <= i < s.len() && !white_space(#[trigger] s[i])
}

/// A character sequence without its leading and trailing whitespace.
pub open spec fn trimmed(s: Seq<char>) -> Seq<char>
    decreases s.len(),
{
    if s.len() == 0 {
        s
    } else if white_space(s[0]) {
        trimmed(s.drop_first())
    } else if white_space(s.last()) {
        trimmed(s.drop_last())
    } else {
        s
    }
}

/// The pieces that hold something but whitespace, in order.
pub open spec fn content_pieces(ps: Seq<Seq<char>>) -> Seq<Seq<char>>
    decreases ps.len(),
{
    if ps.len() == 0 {
        seq![]
    } else if has_content(ps.last()) {
        content_pieces(ps.drop_last()).push(ps.last())
    } else {
        content_pieces(ps.drop_last())
    }
}

/// The trimmed pieces that are not empty, in order.
pub open spec fn trimmed_pieces(ps: Seq<Seq<char>>) -> Seq<Seq<char>>
    decreases ps.len(),
{
    if ps.len() == 0 {
        seq![]
    } else if trimmed(ps.last()).len() > 0 {
        trimmed_pieces(ps.drop_last()).push(trimmed(ps.last()))
    } else {
        trimmed_pieces(ps.drop_last())
    }
}

/// Positions as integers.
pub open spec fn usize_ints(v: Seq<usize>) -> Seq<int> {
    v.map_values(|x: usize| x as int)
}

fn is_break(db: &UnicodePropertyDatabase, kind: BreakKind, a: char, b: char) -> (r: bool)
    ensures
        r == breaks_between(*db, kind, a, b),
{
    match kind {
        BreakKind::Grapheme => grapheme_rule(db.grapheme_class(a), db.grapheme_class(b)),
        BreakKind::Word => word_rule(db.word_class(a), db.word_class(b)),
        BreakKind::Sentence => sentence_rule(db.sentence_class(a), db.sentence_class(b)),
    }
}

/// The boundary positions of a character sequence.
fn char_boundaries(db: &UnicodePropertyDatabase, kind: BreakKind, cs: &Vec<char>) -> (r: Vec<usize>)
    ensures
        usize_ints(r@) == boundary_positions(*db, kind, cs@),
{
    let mut r: Vec<usize> = vec![0];
    let n = cs.len();
    if n == 0 {
        assert(usize_ints(r@) =~= boundary_positions(*db, kind, cs@));
        return r;
    }
    let mut p: usize = 1;
    assert(cs@.take(1).len() == 1);
    assert(usize_ints(r@) =~= seq![0int] + break_positions(*db, kind, cs@.take(1)));
    while p < n
        invariant
            n == cs.len(),
            1 <= p <= n,
            usize_ints(r@) == seq![0int] + break_positions(*db, kind, cs@.take(p as int)),
        decreases n - p,
    {
        let ghost before = r@;
        let ghost t1 = cs@.take(p + 1);
        assert(t1.drop_last() =~= cs@.take(p as int));
        assert(t1[t1.len() - 2] == cs@[p - 1] && t1[t1.len() - 1] == cs@[p as int]);
        if is_break(db, kind, cs[p - 1], cs[p]) {
            r.push(p);
            assert(usize_ints(r@) =~= usize_ints(before).push(p as int));
        }
        p = p + 1;
    }
    let ghost before = r@;
    assert(cs@.take(p as int) =~= cs@);
    r.push(n);
    assert(usize_ints(r@) =~= usize_ints(before).push(n as int));
    r
}

/// The byte offset of every character position of a sequence, up to its end.
fn prefix_offsets(cs: &Vec<char>, total: usize) -> (r: Vec<usize>)
    requires
        total == byte_len(cs@),
    ensures
        r@.len() == cs@.len() + 1,
        forall|q: int| 0 <= q <= cs@.len() ==> #[trigger] r@[q] == byte_len(cs@.take(q)),
{
    let mut r: Vec<usize> = vec![0];
    let mut off: usize = 0;
    let mut k: usize = 0;
    assert(cs@.take(0) =~= Seq::<char>::empty());
    while k < cs.len()
        invariant
            total == byte_len(cs@),
            k <= cs.len(),
            r@.len() == k + 1,
            off == byte_len(cs@.take(k as int)),
            forall|q: int| 0 <= q <= k ==> #[trigger] r@[q] == byte_len(cs@.take(q)),
        decreases cs.len() - k,
    {
        proof {
            lemma_byte_len_take(cs@, k as int);
            if k + 1 < cs.len() {
                lemma_byte_len_take(cs@, k + 1);
            } else {
                assert(cs@.take(k + 1) =~= cs@);
            }
        }
        off = off + utf8_width(cs[k]);
        r.push(off);
        k = k + 1;
    }
    r
}

/// The boundaries of a text as byte offsets.
fn byte_boundaries(db: &UnicodePropertyDatabase, kind: BreakKind, text: &str) -> (r: Vec<usize>)
    ensures
        usize_ints(r@) == byte_offsets(text@, boundary_positions(*db, kind, text@)),
{
    let cs = chars_of(text);
    let total = byte_length(text);
    let ps = char_boundaries(db, kind, &cs);
    let offs = prefix_offsets(&cs, total);
    let ghost bp = boundary_positions(*db, kind, text@);
    proof {
        lemma_positions_in_range(*db, kind, text@);
    }
    let mut r: Vec<usize> = Vec::new();
    let mut k: usize = 0;
    while k < ps.len()
        invariant
            cs@ == text@,
            usize_ints(ps@) == bp,
            bp == boundary_positions(*db, kind, text@),
            offs@.len() == cs@.len() + 1,
            forall|q: int| 0 <= q <= cs@.len() ==> #[trigger] offs@[q] == byte_len(cs@.take(q)),
            forall|j: int| 0 <= j < bp.len() ==> 0 <= #[trigger] bp[j] <= text@.len(),
            k <= ps.len(),
            usize_ints(r@) == byte_offsets(text@, bp).take(k as int),
        decreases ps.len() - k,
    {
        let ghost before = r@;
        assert(bp[k as int] == ps@[k as int]);
        assert(offs@[ps@[k as int] as int] == byte_len(cs@.take(ps@[k as int] as int)));
        assert(byte_offsets(text@, bp)[k as int] == byte_len(text@.take(bp[k as int])) as int);
        let x = offs[ps[k]];
        r.push(x);
        assert(usize_ints(r@) =~= usize_ints(before).push(x as int));
        assert(byte_offsets(text@, bp).take(k + 1) =~= byte_offsets(text@, bp).take(k as int).push(byte_offsets(text@, bp)[k as int]));
        assert(usize_ints(r@) =~= byte_offsets(text@, bp).take(k + 1));
        k = k + 1;
    }
    assert(byte_offsets(text@, bp).take(k as int) =~= byte_offsets(text@, bp));
    r
}

proof fn lemma_break_positions_range(db: UnicodePropertyDatabase, kind: BreakKind, cs: Seq<char>)
    ensures
        forall|j: int| 0 <= j < break_positions(db, kind, cs).len() ==>
            0 < #[trigger] break_positions(db, kind, cs)[j] < cs.len(),
        forall|i: int, j: int| 0 <= i < j < break_positions(db, kind, cs).len() ==>
            #[trigger] break_positions(db, kind, cs)[i] < #[trigger] break_positions(db, kind, cs)[j],
    decreases cs.len(),
{
    if cs.len() >= 2 {
        let t = cs.drop_last();
        lemma_break_positions_range(db, kind, t);
        let r = break_positions(db, kind, t);
        let b = break_positions(db, kind, cs);
        if breaks_between(db, kind, cs[cs.len() - 2], cs[cs.len() - 1]) {
            assert(b == r.push(cs.len() - 1));
            assert forall|j: int| 0 <= j < b.len() implies 0 < #[trigger] b[j] < cs.len() by {
                if j < r.len() {
                    assert(b[j] == r[j]);
                }
            }
            assert forall|i: int, j: int| 0 <= i < j < b.len() implies #[trigger] b[i] < #[trigger] b[j] by {
                assert(b[i] == r[i]);
                if j < r.len() {
                    assert(b[j] == r[j]);
                }
            }
        } else {
            assert(b == r);
        }
    }
}

proof fn lemma_positions_in_range(db: UnicodePropertyDatabase, kind: BreakKind, cs: Seq<char>)
    ensures
        forall|j: int| 0 <= j < boundary_positions(db, kind, cs).len() ==>
            0 <= #[trigger] boundary_positions(db, kind, cs)[j] <= cs.len(),
        forall|i: int, j: int| 0 <= i < j < boundary_positions(db, kind, cs).len() ==>
            #[trigger] boundary_positions(db, kind, cs)[i] <= #[trigger] boundary_positions(db, kind, cs)[j],
{
    lemma_break_positions_range(db, kind, cs);
    let bp = break_positions(db, kind, cs);
    let all = boundary_positions(db, kind, cs);
    assert forall|j: int| 0 <= j < all.len() implies 0 <= #[trigger] all[j] <= cs.len() by {
        if 0 < j < all.len() - 1 {
            assert(all[j] == bp[j - 1]);
        }
    }
    assert forall|i: int, j: int| 0 <= i < j < all.len() implies #[trigger] all[i] <= #[trigger] all[j] by {
        if 0 < i && j < all.len() - 1 {
            assert(all[i] == bp[i - 1] && all[j] == bp[j - 1]);
        } else if 0 < j < all.len() - 1 {
            assert(all[j] == bp[j - 1]);
        } else if 0 < i < all.len() - 1 {
            assert(all[i] == bp[i - 1]);
        }
    }
}

/// A `String` of the characters of `cs` from `lo` to `hi`.
fn string_of_range(cs: &Vec<char>, lo: usize, hi: usize) -> (r: String)
    requires
        lo <= hi <= cs.len(),
    ensures
        r@ == cs@.subrange(lo as int, hi as int),
{
    let mut r = String::new();
    let mut k: usize = lo;
    while k < hi
        invariant
            lo <= k <= hi <= cs.len(),
            r@ == cs@.subrange(lo as int, k as int),
        decreases hi - k,
    {
        crate::strs::push_char(&mut r, cs[k]);
        k = k + 1;
        assert(r@ =~= cs@.subrange(lo as int, k as int));
    }
    r
}

/// The pieces of a text between its boundaries of the given kind.
fn split_pieces(db: &UnicodePropertyDatabase, kind: BreakKind, text: &str) -> (r: Vec<String>)
    ensures
        string_views(r@) == pieces(text@, boundary_positions(*db, kind, text@)),
{
    let cs = chars_of(text);
    let ps = char_boundaries(db, kind, &cs);
    let ghost bp = boundary_positions(*db, kind, text@);
    proof {
        lemma_positions_in_range(*db, kind, text@);
    }
    let mut r: Vec<String> = Vec::new();
    let mut k: usize = 0;
    while k + 1 < ps.len()
        invariant
            cs@ == text@,
            usize_ints(ps@) == bp,
            bp == boundary_positions(*db, kind, text@),
            bp.len() >= 1,
            forall|j: int| 0 <= j < bp.len() ==> 0 <= #[trigger] bp[j] <= text@.len(),
            forall|i: int, j: int| 0 <= i < j < bp.len() ==> #[trigger] bp[i] <= #[trigger] bp[j],
            k + 1 <= ps.len(),
            string_views(r@) == pieces(text@, bp).take(k as int),
        decreases ps.len() - k,
    {
        let ghost before = r@;
        assert(bp[k as int] == ps@[k as int] && bp[k + 1] == ps@[k + 1]);
        let piece = string_of_range(&cs, ps[k], ps[k + 1]);
        assert(pieces(text@, bp)[k as int] == text@.subrange(bp[k as int], bp[k + 1]));
        let ghost pv = piece@;
        r.push(piece);
        assert(string_views(r@) =~= string_views(before).push(pv));
        assert(pieces(text@, bp).take(k + 1) =~= pieces(text@, bp).take(k as int).push(pieces(text@, bp)[k as int]));
        assert(string_views(r@) =~= pieces(text@, bp).take(k + 1));
        k = k + 1;
    }
    assert(pieces(text@, bp).take(k as int) =~= pieces(text@, bp));
    r
}

/// Whether a string holds anything but whitespace.
fn string_has_content(s: &str) -> (r: bool)
    ensures
        r == has_content(s@),
{
    let cs = chars_of(s);
    let mut i: usize = 0;
    while i < cs.len()
        invariant
            cs@ == s@,
            i <= cs.len(),
            forall|j: int| 0 <= j < i ==> white_space(#[trigger] cs@[j]),
        decreases cs.len() - i,
    {
        if !is_white_space(cs[i]) {
            return true;
        }
        i = i + 1;
    }
    false
}

proof fn lemma_trimmed_is(s: Seq<char>, lo: int, hi: int)
    requires
        0 <= lo <= hi <= s.len(),
        forall|j: int| 0 <= j < lo ==> white_space(#[trigger] s[j]),
        forall|j: int| hi <= j < s.len() ==> white_space(#[trigger] s[j]),
        lo < hi ==> !white_space(s[lo]) && !white_space(s[hi - 1]),
    ensures
        trimmed(s) == s.subrange(lo, hi),
    decreases s.len(),
{
    if s.len() == 0 {
        assert(s.subrange(lo, hi) =~= s);
    } else if white_space(s[0]) {
        let t = s.drop_first();
        if lo == 0 {
            assert(hi == 0);
            assert forall|j: int| 0 <= j < t.len() implies white_space(#[trigger] t[j]) by {
                assert(t[j] == s[j + 1]);
            }
            lemma_trimmed_is(t, 0, 0);
            assert(s.subrange(lo, hi) =~= t.subrange(0, 0));
        } else {
            assert forall|j: int| 0 <= j < lo - 1 implies white_space(#[trigger] t[j]) by {
                assert(t[j] == s[j + 1]);
            }
            assert forall|j: int| hi - 1 <= j < t.len() implies white_space(#[trigger] t[j]) by {
                assert(t[j] == s[j + 1]);
            }
            lemma_trimmed_is(t, lo - 1, hi - 1);
            assert(t.subrange(lo - 1, hi - 1) =~= s.subrange(lo, hi));
        }
    } else if white_space(s.last()) {
        let t = s.drop_last();
        assert(lo == 0);
        assert(hi < s.len());
        assert forall|j: int| 0 <= j < lo implies white_space(#[trigger] t[j]) by {}
        assert forall|j: int| hi <= j < t.len() implies white_space(#[trigger] t[j]) by {
            assert(t[j] == s[j]);
        }
        lemma_trimmed_is(t, lo, hi);
        assert(t.subrange(lo, hi) =~= s.subrange(lo, hi));
    } else {
        assert(lo == 0 && hi == s.len());
        assert(s.subrange(lo, hi) =~= s);
    }
}

/// A string without its leading and trailing whitespace.
pub fn trim_string(s: &str) -> (r: String)
    ensures
        r@ == trimmed(s@),
{
    let cs = chars_of(s);
    let n = cs.len();
    let mut lo: usize = 0;
    while lo < n && is_white_space(cs[lo])
        invariant
            cs@ == s@,
            n == cs.len(),
            lo <= n,
            forall|j: int| 0 <= j < lo ==> white_space(#[trigger] cs@[j]),
        decreases n - lo,
    {
        lo = lo + 1;
    }
    let mut hi: usize = n;
    while hi > lo && is_white_space(cs[hi - 1])
        invariant
            cs@ == s@,
            n == cs.len(),
            lo <= hi <= n,
            forall|j: int| hi <= j < n ==> white_space(#[trigger] cs@[j]),
        decreases hi,
    {
        hi = hi - 1;
    }
    proof {
        if lo < hi {
            assert(lo < n);
        }
        lemma_trimmed_is(s@, lo as int, hi as int);
    }
    string_of_range(&cs, lo, hi)
}

/// Grapheme cluster breaker (UAX #29).
pub struct GraphemeClusterBreaker {
    property_db: Arc<UnicodePropertyDatabase>,
}

impl GraphemeClusterBreaker {
    /// The database the breaker reads classes from.
    pub closed spec fn db(&self) -> UnicodePropertyDatabase {
        *self.property_db
    }

    /// Create a breaker over a property database.
    pub fn new(property_db: Arc<UnicodePropertyDatabase>) -> (r: Self)
        ensures
            r.db() == *property_db,
    {
        GraphemeClusterBreaker { property_db }
    }

    /// Whether a grapheme boundary falls after position `pos`: always at or past the
    /// last character.
    pub fn is_boundary(&self, chars: &[char], pos: usize) -> (r: bool)
        ensures
            r == (pos + 1 >= chars.len() || breaks_between(self.db(), BreakKind::Grapheme, chars@[pos as int], chars@[pos + 1])),
    {
        if chars.len() == 0 || pos >= chars.len() - 1 {
            return true;
        }
        is_break(&self.property_db, BreakKind::Grapheme, chars[pos], chars[pos + 1])
    }

    /// The grapheme boundaries of a text as byte offsets: its start, every inner
    /// boundary, its end.
    pub fn find_boundaries(&self, text: &str) -> (r: Vec<usize>)
        ensures
            usize_ints(r@) == byte_offsets(text@, boundary_positions(self.db(), BreakKind::Grapheme, text@)),
    {
        byte_boundaries(&self.property_db, BreakKind::Grapheme, text)
    }

    /// The grapheme clusters of a text.
    pub fn split_graphemes(&self, text: &str) -> (r: Vec<String>)
        ensures
            string_views(r@) == pieces(text@, boundary_positions(self.db(), BreakKind::Grapheme, text@)),
    {
        split_pieces(&self.property_db, BreakKind::Grapheme, text)
    }
}

/// Word breaker (UAX #29).
pub struct WordBreaker {
    property_db: Arc<UnicodePropertyDatabase>,
}

impl WordBreaker {
    /// The database the breaker reads classes from.
    pub closed spec fn db(&self) -> UnicodePropertyDatabase {
        *self.property_db
    }

    /// Create a breaker over a property database.
    pub fn new(property_db: Arc<UnicodePropertyDatabase>) -> (r: Self)
        ensures
            r.db() == *property_db,
    {
        WordBreaker { property_db }
    }

    /// Whether a word boundary falls after position `pos`: always at or past the last character.
    pub fn is_boundary(&self, chars: &[char], pos: usize) -> (r: bool)
        ensures
            r == (pos + 1 >= chars.len() || breaks_between(self.db(), BreakKind::Word, chars@[pos as int], chars@[pos + 1])),
    {
        if chars.len() == 0 || pos >= chars.len() - 1 {
            return true;
        }
        is_break(&self.property_db, BreakKind::Word, chars[pos], chars[pos + 1])
    }

    /// The word boundaries of a text as byte offsets.
    pub fn find_boundaries(&self, text: &str) -> (r: Vec<usize>)
        ensures
            usize_ints(r@) == byte_offsets(text@, boundary_positions(self.db(), BreakKind::Word, text@)),
    {
        byte_boundaries(&self.property_db, BreakKind::Word, text)
    }

    /// The words of a text: the pieces between word boundaries that hold
    /// something but whitespace.
    pub fn split_words(&self, text: &str) -> (r: Vec<String>)
        ensures
            string_views(r@) == content_pieces(pieces(text@, boundary_positions(self.db(), BreakKind::Word, text@))),
    {
        let all = split_pieces(&self.property_db, BreakKind::Word, text);
        let ghost ps = string_views(all@);
        let mut r: Vec<String> = Vec::new();
        let mut k: usize = 0;
        while k < all.len()
            invariant
                ps == string_views(all@),
                k <= all.len(),
                string_views(r@) == content_pieces(ps.take(k as int)),
            decreases all.len() - k,
        {
            let ghost before = r@;
            assert(ps.take(k + 1).drop_last() =~= ps.take(k as int));
            assert(ps.take(k + 1).last() == all@[k as int]@);
            if string_has_content(all[k].as_str()) {
                r.push(crate::strs::to_owned_string(all[k].as_str()));
                assert(string_views(r@) =~= string_views(before).push(all@[k as int]@));
            }
            k = k + 1;
        }
        assert(ps.take(k as int) =~= ps);
        r
    }
}

/// Sentence breaker (UAX #29).
pub struct SentenceBreaker {
    property_db: Arc<UnicodePropertyDatabase>,
}

impl SentenceBreaker {
    /// The database the breaker reads classes from.
    pub closed spec fn db(&self) -> UnicodePropertyDatabase {
        *self.property_db
    }

    /// Create a breaker over a property database.
    pub fn new(property_db: Arc<UnicodePropertyDatabase>) -> (r: Self)
        ensures
            r.db() == *property_db,
    {
        SentenceBreaker { property_db }
    }

    /// Whether a sentence boundary falls after position `pos`: always at or past the
    /// last character.
    pub fn is_boundary(&self, chars: &[char], pos: usize) -> (r: bool)
        ensures
            r == (pos + 1 >= chars.len() || breaks_between(self.db(), BreakKind::Sentence, chars@[pos as int], chars@[pos + 1])),
    {
        if chars.len() == 0 || pos >= chars.len() - 1 {
            return true;
        }
        is_break(&self.property_db, BreakKind::Sentence, chars[pos], chars[pos + 1])
    }

    /// The sentence boundaries of a text as byte offsets.
    pub fn find_boundaries(&self, text: &str) -> (r: Vec<usize>)
        ensures
            usize_ints(r@) == byte_offsets(text@, boundary_positions(self.db(), BreakKind::Sentence, text@)),
    {
        byte_boundaries(&self.property_db, BreakKind::Sentence, text)
    }

    /// The sentences of a text: the pieces between sentence boundaries, trimmed,
    /// where anything is left.
    pub fn split_sentences(&self, text: &str) -> (r: Vec<String>)
        ensures
            string_views(r@) == trimmed_pieces(pieces(text@, boundary_positions(self.db(), BreakKind::Sentence, text@))),
    {
        let all = split_pieces(&self.property_db, BreakKind::Sentence, text);
        let ghost ps = string_views(all@);
        let mut r: Vec<String> = Vec::new();
        let mut k: usize = 0;
        while k < all.len()
            invariant
                ps == string_views(all@),
                k <= all.len(),
                string_views(r@) == trimmed_pieces(ps.take(k as int)),
            decreases all.len() - k,
        {
            let ghost before = r@;
            assert(ps.take(k + 1).drop_last() =~= ps.take(k as int));
            assert(ps.take(k + 1).last() == all@[k as int]@);
            let t = trim_string(all[k].as_str());
            if t.as_str().unicode_len() > 0 {
                r.push(t);
                assert(string_views(r@) =~= string_views(before).push(trimmed(all@[k as int]@)));
            }
            k = k + 1;
        }
        assert(ps.take(k as int) =~= ps);
        r
    }
}

/// The pieces of a split, joined back together.
pub open spec fn joined(ps: Seq<Seq<char>>) -> Seq<char>
    decreases ps.len(),
{
    if ps.len() == 0 {
        seq![]
    } else {
        joined(ps.drop_last()) + ps.last()
    }
}

proof fn lemma_pieces_join(cs: Seq<char>, ps: Seq<int>)
    requires
        ps.len() >= 1,
        forall|j: int| 0 <= j < ps.len() ==> 0 <= #[trigger] ps[j] <= cs.len(),
        forall|i: int, j: int| 0 <= i < j < ps.len() ==> #[trigger] ps[i] <= #[trigger] ps[j],
    ensures
        joined(pieces(cs, ps)) == cs.subrange(ps[0], ps.last()),
    decreases ps.len(),
{
    if ps.len() == 1 {
        assert(pieces(cs, ps) =~= Seq::<Seq<char>>::empty());
        assert(cs.subrange(ps[0], ps.last()) =~= Seq::<char>::empty());
    } else {
        let qs = ps.drop_last();
        lemma_pieces_join(cs, qs);
        assert(pieces(cs, ps).drop_last() =~= pieces(cs, qs));
        assert(pieces(cs, ps).last() == cs.subrange(qs.last(), ps.last()));
        assert(qs[0] <= qs.last() <= ps.last());
        assert(cs.subrange(qs[0], qs.last()) + cs.subrange(qs.last(), ps.last()) =~= cs.subrange(ps[0], ps.last()));
    }
}

/// Segmenting never loses or adds text: the pieces between the boundaries of any
/// kind join back into the text, and the boundaries run from its start to its end
/// in order.
pub proof fn law_segments_join_to_text(db: UnicodePropertyDatabase, kind: BreakKind, cs: Seq<char>)
    ensures
        joined(pieces(cs, boundary_positions(db, kind, cs))) == cs,
        boundary_positions(db, kind, cs)[0] == 0,
        boundary_positions(db, kind, cs).last() == cs.len(),
        forall|i: int, j: int| 0 <= i < j < boundary_positions(db, kind, cs).len() ==>
            #[trigger] boundary_positions(db, kind, cs)[i] <= #[trigger] boundary_positions(db, kind, cs)[j],
{
    lemma_positions_in_range(db, kind, cs);
    let ps = boundary_positions(db, kind, cs);
    lemma_pieces_join(cs, ps);
    assert(cs.subrange(0, cs.len() as int) =~= cs);
}

/// For the ASCII letters the database starts with, lowercasing undoes uppercasing
/// and uppercasing undoes lowercasing.
pub proof fn law_ascii_case_round_trip(cp: u32)
    ensures
        0x61 <= cp <= 0x7A ==> initial_lowercase(initial_uppercase(cp).unwrap()) == Some(cp),
        0x41 <= cp <= 0x5A ==> initial_uppercase(initial_lowercase(cp).unwrap()) == Some(cp),
{
}

} // verus!
