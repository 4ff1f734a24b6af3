//! OpenType feature tags and the selection of enabled features.
use vstd::prelude::*;

verus! {

/// Harfbuzz feature flags.
#[derive(Debug, Clone, Copy, PartialEq, Eq, Hash, Structural)]
pub enum HarfbuzzFeature {
    /// Kerning
    Kern,
    /// Ligatures
    Liga,
    /// Contextual ligatures
    Clig,
    /// Discretionary ligatures
    Dlig,
    /// Historical ligatures
    Hlig,
    /// Contextual alternates
    Calt,
    /// Stylistic alternates
    Salt,
    /// Swash
    Swsh,
    /// Titling
    Titl,
    /// Small capitals
    Smcp,
    /// All small capitals
    C2sc,
    /// Petite capitals
    Pcap,
    /// All petite capitals
    C2pc,
    /// Unicase
    Unic,
    /// Slashed zero
    Zero,
    /// Ordinals
    Ordn,
    /// Fractions
    Frac,
    /// Numerators
    Numr,
    /// Denominators
    Dnom,
    /// Superscript
    Sups,
    /// Subscript
    Subs,
    /// Scientific inferiors
    Sinf,
}

/// The four-letter OpenType tag of a Harfbuzz feature.
pub open spec fn spec_harfbuzz_tag(f: HarfbuzzFeature) -> Seq<char> {
    match f {
        HarfbuzzFeature::Kern => "kern"@,
        HarfbuzzFeature::Liga => "liga"@,
        HarfbuzzFeature::Clig => "clig"@,
        HarfbuzzFeature::Dlig => "dlig"@,
        HarfbuzzFeature::Hlig => "hlig"@,
        HarfbuzzFeature::Calt => "calt"@,
        HarfbuzzFeature::Salt => "salt"@,
        HarfbuzzFeature::Swsh => "swsh"@,
        HarfbuzzFeature::Titl => "titl"@,
        HarfbuzzFeature::Smcp => "smcp"@,
        HarfbuzzFeature::C2sc => "c2sc"@,
        HarfbuzzFeature::Pcap => "pcap"@,
        HarfbuzzFeature::C2pc => "c2pc"@,
        HarfbuzzFeature::Unic => "unic"@,
        HarfbuzzFeature::Zero => "zero"@,
        HarfbuzzFeature::Ordn => "ordn"@,
        HarfbuzzFeature::Frac => "frac"@,
        HarfbuzzFeature::Numr => "numr"@,
        HarfbuzzFeature::Dnom => "dnom"@,
        HarfbuzzFeature::Sups => "sups"@,
        HarfbuzzFeature::Subs => "subs"@,
        HarfbuzzFeature::Sinf => "sinf"@,
    }
}

/// A four-character tag read as a number, one byte per character.
pub open spec fn tag_key(t: Seq<char>) -> int {
    (t[0] as int) * 0x1000000 + (t[1] as int) * 0x10000 + (t[2] as int) * 0x100 + (t[3] as int)
}

/// The Harfbuzz feature whose tag reads as the number `k`.
spec fn harfbuzz_feature_of_key(k: int) -> Option<HarfbuzzFeature> {
    if k == 0x6B65726E {
        Some(HarfbuzzFeature::Kern)
    } else if k == 0x6C696761 {
        Some(HarfbuzzFeature::Liga)
    } else if k == 0x636C6967 {
        Some(HarfbuzzFeature::Clig)
    } else if k == 0x646C6967 {
        Some(HarfbuzzFeature::Dlig)
    } else if k == 0x686C6967 {
        Some(HarfbuzzFeature::Hlig)
    } else if k == 0x63616C74 {
        Some(HarfbuzzFeature::Calt)
    } else if k == 0x73616C74 {
        Some(HarfbuzzFeature::Salt)
    } else if k == 0x73777368 {
        Some(HarfbuzzFeature::Swsh)
    } else if k == 0x7469746C {
        Some(HarfbuzzFeature::Titl)
    } else if k == 0x736D6370 {
        Some(HarfbuzzFeature::Smcp)
    } else if k == 0x63327363 {
        Some(HarfbuzzFeature::C2sc)
    } else if k == 0x70636170 {
        Some(HarfbuzzFeature::Pcap)
    } else if k == 0x63327063 {
        Some(HarfbuzzFeature::C2pc)
    } else if k == 0x756E6963 {
        Some(HarfbuzzFeature::Unic)
    } else if k == 0x7A65726F {
        Some(HarfbuzzFeature::Zero)
    } else if k == 0x6F72646E {
        Some(HarfbuzzFeature::Ordn)
    } else if k == 0x66726163 {
        Some(HarfbuzzFeature::Frac)
    } else if k == 0x6E756D72 {
        Some(HarfbuzzFeature::Numr)
    } else if k == 0x646E6F6D {
        Some(HarfbuzzFeature::Dnom)
    } else if k == 0x73757073 {
        Some(HarfbuzzFeature::Sups)
    } else if k == 0x73756273 {
        Some(HarfbuzzFeature::Subs)
    } else if k == 0x73696E66 {
        Some(HarfbuzzFeature::Sinf)
    } else {
        None
    }
}

proof fn lemma_harfbuzz_tag_key(f: HarfbuzzFeature)
    ensures
        spec_harfbuzz_tag(f).len() == 4,
        harfbuzz_feature_of_key(tag_key(spec_harfbuzz_tag(f))) == Some(f),
{
    reveal_strlit("kern");
    reveal_strlit("liga");
    reveal_strlit("clig");
    reveal_strlit("dlig");
    reveal_strlit("hlig");
    reveal_strlit("calt");
    reveal_strlit("salt");
    reveal_strlit("swsh");
    reveal_strlit("titl");
    reveal_strlit("smcp");
    reveal_strlit("c2sc");
    reveal_strlit("pcap");
    reveal_strlit("c2pc");
    reveal_strlit("unic");
    reveal_strlit("zero");
    reveal_strlit("ordn");
    reveal_strlit("frac");
    reveal_strlit("numr");
    reveal_strlit("dnom");
    reveal_strlit("sups");
    reveal_strlit("subs");
    reveal_strlit("sinf");
}

/// Every Harfbuzz feature's tag has four characters, and no two features share a tag.
pub proof fn law_harfbuzz_tags_are_distinct(a: HarfbuzzFeature, b: HarfbuzzFeature)
    ensures
        spec_harfbuzz_tag(a).len() == 4,
        spec_harfbuzz_tag(a) == spec_harfbuzz_tag(b) ==> a == b,
{
    lemma_harfbuzz_tag_key(a);
    lemma_harfbuzz_tag_key(b);
}

/// Harfbuzz features that are on by default.
pub open spec fn spec_harfbuzz_is_default(f: HarfbuzzFeature) -> bool {
    matches!(f, HarfbuzzFeature::Kern | HarfbuzzFeature::Liga | HarfbuzzFeature::Clig | HarfbuzzFeature::Calt)
}

impl HarfbuzzFeature {
    /// The OpenType feature tag.
    pub fn tag(&self) -> (r: &'static str)
        ensures
            r@ == spec_harfbuzz_tag(*self),
    {
        match self {
            HarfbuzzFeature::Kern => "kern",
            HarfbuzzFeature::Liga => "liga",
            HarfbuzzFeature::Clig => "clig",
            HarfbuzzFeature::Dlig => "dlig",
            HarfbuzzFeature::Hlig => "hlig",
            HarfbuzzFeature::Calt => "calt",
            HarfbuzzFeature::Salt => "salt",
            HarfbuzzFeature::Swsh => "swsh",
            HarfbuzzFeature::Titl => "titl",
            HarfbuzzFeature::Smcp => "smcp",
            HarfbuzzFeature::C2sc => "c2sc",
            HarfbuzzFeature::Pcap => "pcap",
            HarfbuzzFeature::C2pc => "c2pc",
            HarfbuzzFeature::Unic => "unic",
            HarfbuzzFeature::Zero => "zero",
            HarfbuzzFeature::Ordn => "ordn",
            HarfbuzzFeature::Frac => "frac",
            HarfbuzzFeature::Numr => "numr",
            HarfbuzzFeature::Dnom => "dnom",
            HarfbuzzFeature::Sups => "sups",
            HarfbuzzFeature::Subs => "subs",
            HarfbuzzFeature::Sinf => "sinf",
        }
    }

    /// Whether the feature is enabled by default.
    pub fn is_default(&self) -> (r: bool)
        ensures
            r == spec_harfbuzz_is_default(*self),
    {
        match self {
            HarfbuzzFeature::Kern | HarfbuzzFeature::Liga | HarfbuzzFeature::Clig | HarfbuzzFeature::Calt => true,
            _ => false,
        }
    }
}

/// Registered OpenType layout features.
#[derive(Debug, Clone, Copy, PartialEq, Eq, Hash, Structural)]
pub enum OpenTypeFeatureTag {
    /// Standard ligatures (liga)
    StandardLigatures,
    /// Contextual ligatures (clig)
    ContextualLigatures,
    /// Discretionary ligatures (dlig)
    DiscretionaryLigatures,
    /// Historical ligatures (hlig)
    HistoricalLigatures,
    /// Required ligatures (rlig)
    RequiredLigatures,
    /// Kerning (kern)
    Kerning,
    /// Mark positioning (mark)
    MarkPositioning,
    /// Mark-to-mark positioning (mkmk)
    MarkToMarkPositioning,
    /// Cursive positioning (curs)
    CursivePositioning,
    /// Contextual alternates (calt)
    ContextualAlternates,
    /// Stylistic alternates (salt)
    StylisticAlternates,
    /// Swash (swsh)
    Swash,
    /// Contextual swash (cswh)
    ContextualSwash,
    /// Alternate annotation forms (nalt)
    AlternateAnnotationForms,
    /// All small capitals (c2sc)
    AllSmallCaps,
    /// Small capitals (smcp)
    SmallCapitals,
    /// Petite capitals (pcap)
    PetiteCapitals,
    /// All petite capitals (c2pc)
    AllPetiteCapitals,
    /// Unicase (unic)
    Unicase,
    /// Titling (titl)
    Titling,
    /// Case-sensitive forms (case)
    CaseSensitiveForms,
    /// Lining figures (lnum)
    LiningFigures,
    /// Oldstyle figures (onum)
    OldstyleFigures,
    /// Proportional figures (pnum)
    ProportionalFigures,
    /// Tabular figures (tnum)
    TabularFigures,
    /// Fractions (frac)
    Fractions,
    /// Alternate fractions (afrc)
    AlternateFractions,
    /// Numerators (numr)
    Numerators,
    /// Denominators (dnom)
    Denominators,
    /// Superscript (sups)
    Superscript,
    /// Subscript (subs)
    Subscript,
    /// Scientific inferiors (sinf)
    ScientificInferiors,
    /// Ordinals (ordn)
    Ordinals,
    /// Slashed zero (zero)
    SlashedZero,
    /// Stylistic set 01 (ss01)
    StylisticSet01,
    /// Stylistic set 02 (ss02)
    StylisticSet02,
    /// Stylistic set 03 (ss03)
    StylisticSet03,
    /// Stylistic set 04 (ss04)
    StylisticSet04,
    /// Stylistic set 05 (ss05)
    StylisticSet05,
    /// Stylistic set 06 (ss06)
    StylisticSet06,
    /// Stylistic set 07 (ss07)
    StylisticSet07,
    /// Stylistic set 08 (ss08)
    StylisticSet08,
    /// Stylistic set 09 (ss09)
    StylisticSet09,
    /// Stylistic set 10 (ss10)
    StylisticSet10,
    /// Stylistic set 11 (ss11)
    StylisticSet11,
    /// Stylistic set 12 (ss12)
    StylisticSet12,
    /// Stylistic set 13 (ss13)
    StylisticSet13,
    /// Stylistic set 14 (ss14)
    StylisticSet14,
    /// Stylistic set 15 (ss15)
    StylisticSet15,
    /// Stylistic set 16 (ss16)
    StylisticSet16,
    /// Stylistic set 17 (ss17)
    StylisticSet17,
    /// Stylistic set 18 (ss18)
    StylisticSet18,
    /// Stylistic set 19 (ss19)
    StylisticSet19,
    /// Stylistic set 20 (ss20)
    StylisticSet20,
    /// Character variant 01 (cv01)
    CharacterVariant01,
    /// Character variant 02 (cv02)
    CharacterVariant02,
    /// Character variant 03 (cv03)
    CharacterVariant03,
    /// Character variant 04 (cv04)
    CharacterVariant04,
    /// Character variant 05 (cv05)
    CharacterVariant05,
    /// Localized forms (locl)
    LocalizedForms,
    /// Proportional widths (pwid)
    ProportionalWidths,
    /// Full widths (fwid)
    FullWidths,
    /// Half widths (hwid)
    HalfWidths,
    /// Third widths (twid)
    ThirdWidths,
    /// Quarter widths (qwid)
    QuarterWidths,
    /// Alternate half widths (halt)
    AlternateHalfWidths,
    /// Proportional alternate widths (palt)
    ProportionalAlternateWidths,
    /// Vertical writing (vert)
    VerticalWriting,
    /// Vertical rotation (vrt2)
    VerticalRotation,
    /// Vertical kerning (vkrn)
    VerticalKerning,
    /// Vertical alternates (valt)
    VerticalAlternates,
    /// Vertical alternates and rotation (vrtr)
    VerticalAlternatesAndRotation,
    /// Ruby notation forms (ruby)
    RubyNotationForms,
    /// Traditional forms (trad)
    TraditionalForms,
    /// Simplified forms (smpl)
    SimplifiedForms,
    /// JIS78 forms (jp78)
    Jis78Forms,
    /// JIS83 forms (jp83)
    Jis83Forms,
    /// JIS90 forms (jp90)
    Jis90Forms,
    /// JIS2004 forms (jp04)
    Jis2004Forms,
    /// Expert forms (expt)
    ExpertForms,
    /// Hojo kanji forms (hojo)
    HojoKanjiForms,
    /// NLC kanji forms (nlck)
    NlcKanjiForms,
    /// Historical forms (hist)
    HistoricalForms,
    /// Historical ligatures (hlig)
    HistoricalLigatures2,
    /// Mathematical Greek (mgrk)
    MathematicalGreek,
    /// Flattened accent forms (flac)
    FlattenedAccentForms,
    /// Math script style alternates (ssty)
    MathScriptStyleAlternates,
    /// Ornaments (ornm)
    Ornaments,
    /// Decorative forms (deco)
    DecorativeForms,
    /// Access all alternates (aalt)
    AccessAllAlternates,
    /// Above-base forms (abvf)
    AboveBaseForms,
    /// Above-base mark positioning (abvm)
    AboveBaseMarkPositioning,
    /// Above-base substitutions (abvs)
    AboveBaseSubstitutions,
    /// Below-base forms (blwf)
    BelowBaseForms,
    /// Below-base mark positioning (blwm)
    BelowBaseMarkPositioning,
    /// Below-base substitutions (blws)
    BelowBaseSubstitutions,
    /// Glyph composition/decomposition (ccmp)
    GlyphCompositionDecomposition,
    /// Conjunct forms (cjct)
    ConjunctForms,
    /// Conjunct form after Ro (cfar)
    ConjunctFormAfterRo,
    /// Distances (dist)
    Distances,
    /// Final glyph on line alternates (falt)
    FinalGlyphAlternates,
    /// Terminal forms (fina)
    TerminalForms,
    /// Initial forms (init)
    InitialForms,
    /// Isolated forms (isol)
    IsolatedForms,
    /// Medial forms (medi)
    MedialForms,
    /// Medial forms #2 (med2)
    MedialForms2,
    /// Half forms (half)
    HalfForms,
    /// Halant forms (haln)
    HalantForms,
    /// Nukta forms (nukt)
    NuktaForms,
    /// Pre-base forms (pref)
    PreBaseForms,
    /// Pre-base substitutions (pres)
    PreBaseSubstitutions,
    /// Post-base forms (pstf)
    PostBaseForms,
    /// Post-base substitutions (psts)
    PostBaseSubstitutions,
    /// Rakar forms (rkrf)
    RakarForms,
    /// Reph form (rphf)
    RephForm,
    /// Required variation alternates (rvrn)
    RequiredVariationAlternates,
    /// Vattu variants (vatu)
    VattuVariants,
    /// Vertical alternates for rotation (vrt2)
    VerticalAlternatesForRotation,
}

/// The four-letter tag of an OpenType feature.
pub open spec fn spec_feature_tag(f: OpenTypeFeatureTag) -> Seq<char> {
    match f {
        OpenTypeFeatureTag::StandardLigatures => "liga"@,
        OpenTypeFeatureTag::ContextualLigatures => "clig"@,
        OpenTypeFeatureTag::DiscretionaryLigatures => "dlig"@,
        OpenTypeFeatureTag::HistoricalLigatures => "hlig"@,
        OpenTypeFeatureTag::RequiredLigatures => "rlig"@,
        OpenTypeFeatureTag::Kerning => "kern"@,
        OpenTypeFeatureTag::MarkPositioning => "mark"@,
        OpenTypeFeatureTag::MarkToMarkPositioning => "mkmk"@,
        OpenTypeFeatureTag::CursivePositioning => "curs"@,
        OpenTypeFeatureTag::ContextualAlternates => "calt"@,
        OpenTypeFeatureTag::StylisticAlternates => "salt"@,
        OpenTypeFeatureTag::Swash => "swsh"@,
        OpenTypeFeatureTag::ContextualSwash => "cswh"@,
        OpenTypeFeatureTag::AlternateAnnotationForms => "nalt"@,
        OpenTypeFeatureTag::AllSmallCaps => "c2sc"@,
        OpenTypeFeatureTag::SmallCapitals => "smcp"@,
        OpenTypeFeatureTag::PetiteCapitals => "pcap"@,
        OpenTypeFeatureTag::AllPetiteCapitals => "c2pc"@,
        OpenTypeFeatureTag::Unicase => "unic"@,
        OpenTypeFeatureTag::Titling => "titl"@,
        OpenTypeFeatureTag::CaseSensitiveForms => "case"@,
        OpenTypeFeatureTag::LiningFigures => "lnum"@,
        OpenTypeFeatureTag::OldstyleFigures => "onum"@,
        OpenTypeFeatureTag::ProportionalFigures => "pnum"@,
        OpenTypeFeatureTag::TabularFigures => "tnum"@,
        OpenTypeFeatureTag::Fractions => "frac"@,
        OpenTypeFeatureTag::AlternateFractions => "afrc"@,
        OpenTypeFeatureTag::Numerators => "numr"@,
        OpenTypeFeatureTag::Denominators => "dnom"@,
        OpenTypeFeatureTag::Superscript => "sups"@,
        OpenTypeFeatureTag::Subscript => "subs"@,
        OpenTypeFeatureTag::ScientificInferiors => "sinf"@,
        OpenTypeFeatureTag::Ordinals => "ordn"@,
        OpenTypeFeatureTag::SlashedZero => "zero"@,
        OpenTypeFeatureTag::StylisticSet01 => "ss01"@,
        OpenTypeFeatureTag::StylisticSet02 => "ss02"@,
        OpenTypeFeatureTag::StylisticSet03 => "ss03"@,
        OpenTypeFeatureTag::StylisticSet04 => "ss04"@,
        OpenTypeFeatureTag::StylisticSet05 => "ss05"@,
        OpenTypeFeatureTag::StylisticSet06 => "ss06"@,
        OpenTypeFeatureTag::StylisticSet07 => "ss07"@,
        OpenTypeFeatureTag::StylisticSet08 => "ss08"@,
        OpenTypeFeatureTag::StylisticSet09 => "ss09"@,
        OpenTypeFeatureTag::StylisticSet10 => "ss10"@,
        OpenTypeFeatureTag::StylisticSet11 => "ss11"@,
        OpenTypeFeatureTag::StylisticSet12 => "ss12"@,
        OpenTypeFeatureTag::StylisticSet13 => "ss13"@,
        OpenTypeFeatureTag::StylisticSet14 => "ss14"@,
        OpenTypeFeatureTag::StylisticSet15 => "ss15"@,
        OpenTypeFeatureTag::StylisticSet16 => "ss16"@,
        OpenTypeFeatureTag::StylisticSet17 => "ss17"@,
        OpenTypeFeatureTag::StylisticSet18 => "ss18"@,
        OpenTypeFeatureTag::StylisticSet19 => "ss19"@,
        OpenTypeFeatureTag::StylisticSet20 => "ss20"@,
        OpenTypeFeatureTag::CharacterVariant01 => "cv01"@,
        OpenTypeFeatureTag::CharacterVariant02 => "cv02"@,
        OpenTypeFeatureTag::CharacterVariant03 => "cv03"@,
        OpenTypeFeatureTag::CharacterVariant04 => "cv04"@,
        OpenTypeFeatureTag::CharacterVariant05 => "cv05"@,
        OpenTypeFeatureTag::LocalizedForms => "locl"@,
        OpenTypeFeatureTag::ProportionalWidths => "pwid"@,
        OpenTypeFeatureTag::FullWidths => "fwid"@,
        OpenTypeFeatureTag::HalfWidths => "hwid"@,
        OpenTypeFeatureTag::ThirdWidths => "twid"@,
        OpenTypeFeatureTag::QuarterWidths => "qwid"@,
        OpenTypeFeatureTag::AlternateHalfWidths => "halt"@,
        OpenTypeFeatureTag::ProportionalAlternateWidths => "palt"@,
        OpenTypeFeatureTag::VerticalWriting => "vert"@,
        OpenTypeFeatureTag::VerticalRotation => "vrt2"@,
        OpenTypeFeatureTag::VerticalKerning => "vkrn"@,
        OpenTypeFeatureTag::VerticalAlternates => "valt"@,
        OpenTypeFeatureTag::VerticalAlternatesAndRotation => "vrtr"@,
        OpenTypeFeatureTag::RubyNotationForms => "ruby"@,
        OpenTypeFeatureTag::TraditionalForms => "trad"@,
        OpenTypeFeatureTag::SimplifiedForms => "smpl"@,
        OpenTypeFeatureTag::Jis78Forms => "jp78"@,
        OpenTypeFeatureTag::Jis83Forms => "jp83"@,
        OpenTypeFeatureTag::Jis90Forms => "jp90"@,
        OpenTypeFeatureTag::Jis2004Forms => "jp04"@,
        OpenTypeFeatureTag::ExpertForms => "expt"@,
        OpenTypeFeatureTag::HojoKanjiForms => "hojo"@,
        OpenTypeFeatureTag::NlcKanjiForms => "nlck"@,
        OpenTypeFeatureTag::HistoricalForms => "hist"@,
        OpenTypeFeatureTag::HistoricalLigatures2 => "hlig"@,
        OpenTypeFeatureTag::MathematicalGreek => "mgrk"@,
        OpenTypeFeatureTag::FlattenedAccentForms => "flac"@,
        OpenTypeFeatureTag::MathScriptStyleAlternates => "ssty"@,
        OpenTypeFeatureTag::Ornaments => "ornm"@,
        OpenTypeFeatureTag::DecorativeForms => "deco"@,
        OpenTypeFeatureTag::AccessAllAlternates => "aalt"@,
        OpenTypeFeatureTag::AboveBaseForms => "abvf"@,
        OpenTypeFeatureTag::AboveBaseMarkPositioning => "abvm"@,
        OpenTypeFeatureTag::AboveBaseSubstitutions => "abvs"@,
        OpenTypeFeatureTag::BelowBaseForms => "blwf"@,
        OpenTypeFeatureTag::BelowBaseMarkPositioning => "blwm"@,
        OpenTypeFeatureTag::BelowBaseSubstitutions => "blws"@,
        OpenTypeFeatureTag::GlyphCompositionDecomposition => "ccmp"@,
        OpenTypeFeatureTag::ConjunctForms => "cjct"@,
        OpenTypeFeatureTag::ConjunctFormAfterRo => "cfar"@,
        OpenTypeFeatureTag::Distances => "dist"@,
        OpenTypeFeatureTag::FinalGlyphAlternates => "falt"@,
        OpenTypeFeatureTag::TerminalForms => "fina"@,
        OpenTypeFeatureTag::InitialForms => "init"@,
        OpenTypeFeatureTag::IsolatedForms => "isol"@,
        OpenTypeFeatureTag::MedialForms => "medi"@,
        OpenTypeFeatureTag::MedialForms2 => "med2"@,
        OpenTypeFeatureTag::HalfForms => "half"@,
        OpenTypeFeatureTag::HalantForms => "haln"@,
        OpenTypeFeatureTag::NuktaForms => "nukt"@,
        OpenTypeFeatureTag::PreBaseForms => "pref"@,
        OpenTypeFeatureTag::PreBaseSubstitutions => "pres"@,
        OpenTypeFeatureTag::PostBaseForms => "pstf"@,
        OpenTypeFeatureTag::PostBaseSubstitutions => "psts"@,
        OpenTypeFeatureTag::RakarForms => "rkrf"@,
        OpenTypeFeatureTag::RephForm => "rphf"@,
        OpenTypeFeatureTag::RequiredVariationAlternates => "rvrn"@,
        OpenTypeFeatureTag::VattuVariants => "vatu"@,
        OpenTypeFeatureTag::VerticalAlternatesForRotation => "vrt2"@,
    }
}

/// OpenType features that are on by default.
pub open spec fn spec_feature_is_default(f: OpenTypeFeatureTag) -> bool {
    matches!(f, OpenTypeFeatureTag::StandardLigatures | OpenTypeFeatureTag::ContextualLigatures | OpenTypeFeatureTag::Kerning | OpenTypeFeatureTag::ContextualAlternates | OpenTypeFeatureTag::MarkPositioning | OpenTypeFeatureTag::MarkToMarkPositioning | OpenTypeFeatureTag::GlyphCompositionDecomposition | OpenTypeFeatureTag::LocalizedForms | OpenTypeFeatureTag::RequiredLigatures | OpenTypeFeatureTag::RequiredVariationAlternates)
}

/// The default feature list, in application order.
pub open spec fn spec_default_features() -> Seq<OpenTypeFeatureTag> {
    seq![OpenTypeFeatureTag::StandardLigatures, OpenTypeFeatureTag::ContextualLigatures, OpenTypeFeatureTag::Kerning, OpenTypeFeatureTag::ContextualAlternates, OpenTypeFeatureTag::MarkPositioning, OpenTypeFeatureTag::MarkToMarkPositioning, OpenTypeFeatureTag::GlyphCompositionDecomposition, OpenTypeFeatureTag::LocalizedForms, OpenTypeFeatureTag::RequiredLigatures, OpenTypeFeatureTag::RequiredVariationAlternates]
}

/// A short description of a feature.
pub open spec fn spec_feature_description(f: OpenTypeFeatureTag) -> Seq<char> {
    match f {
        OpenTypeFeatureTag::StandardLigatures => "Standard ligatures like fi, fl"@,
        OpenTypeFeatureTag::ContextualLigatures => "Context-dependent ligatures"@,
        OpenTypeFeatureTag::DiscretionaryLigatures => "Optional ligatures for special effects"@,
        OpenTypeFeatureTag::HistoricalLigatures => "Ligatures used historically"@,
        OpenTypeFeatureTag::Kerning => "Adjust spacing between glyph pairs"@,
        OpenTypeFeatureTag::SmallCapitals => "Lowercase letters as small capitals"@,
        OpenTypeFeatureTag::Fractions => "Convert numbers to fractions"@,
        OpenTypeFeatureTag::Superscript => "Superscript numerals"@,
        OpenTypeFeatureTag::Subscript => "Subscript numerals"@,
        OpenTypeFeatureTag::SlashedZero => "Zero with slash for disambiguation"@,
        OpenTypeFeatureTag::Ordinals => "Ordinal indicators (1st, 2nd, etc.)"@,
        OpenTypeFeatureTag::ContextualAlternates => "Context-dependent glyph substitution"@,
        OpenTypeFeatureTag::StylisticAlternates => "Stylistic glyph variants"@,
        _ => "OpenType feature"@,
    }
}

/// Features applied by glyph substitution (GSUB); the others are positioning (GPOS) features.
pub open spec fn spec_is_gsub_feature(f: OpenTypeFeatureTag) -> bool {
    matches!(f, OpenTypeFeatureTag::StandardLigatures | OpenTypeFeatureTag::ContextualLigatures | OpenTypeFeatureTag::DiscretionaryLigatures | OpenTypeFeatureTag::HistoricalLigatures | OpenTypeFeatureTag::ContextualAlternates | OpenTypeFeatureTag::StylisticAlternates | OpenTypeFeatureTag::SmallCapitals | OpenTypeFeatureTag::AllSmallCaps | OpenTypeFeatureTag::Fractions | OpenTypeFeatureTag::Superscript | OpenTypeFeatureTag::Subscript | OpenTypeFeatureTag::SlashedZero | OpenTypeFeatureTag::Ordinals)
}

impl OpenTypeFeatureTag {
    /// The four-character feature tag.
    pub fn tag(&self) -> (r: &'static str)
        ensures
            r@ == spec_feature_tag(*self),
    {
        match self {
            OpenTypeFeatureTag::StandardLigatures => "liga",
            OpenTypeFeatureTag::ContextualLigatures => "clig",
            OpenTypeFeatureTag::DiscretionaryLigatures => "dlig",
            OpenTypeFeatureTag::HistoricalLigatures => "hlig",
            OpenTypeFeatureTag::RequiredLigatures => "rlig",
            OpenTypeFeatureTag::Kerning => "kern",
            OpenTypeFeatureTag::MarkPositioning => "mark",
            OpenTypeFeatureTag::MarkToMarkPositioning => "mkmk",
            OpenTypeFeatureTag::CursivePositioning => "curs",
            OpenTypeFeatureTag::ContextualAlternates => "calt",
            OpenTypeFeatureTag::StylisticAlternates => "salt",
            OpenTypeFeatureTag::Swash => "swsh",
            OpenTypeFeatureTag::ContextualSwash => "cswh",
            OpenTypeFeatureTag::AlternateAnnotationForms => "nalt",
            OpenTypeFeatureTag::AllSmallCaps => "c2sc",
            OpenTypeFeatureTag::SmallCapitals => "smcp",
            OpenTypeFeatureTag::PetiteCapitals => "pcap",
            OpenTypeFeatureTag::AllPetiteCapitals => "c2pc",
            OpenTypeFeatureTag::Unicase => "unic",
            OpenTypeFeatureTag::Titling => "titl",
            OpenTypeFeatureTag::CaseSensitiveForms => "case",
            OpenTypeFeatureTag::LiningFigures => "lnum",
            OpenTypeFeatureTag::OldstyleFigures => "onum",
            OpenTypeFeatureTag::ProportionalFigures => "pnum",
            OpenTypeFeatureTag::TabularFigures => "tnum",
            OpenTypeFeatureTag::Fractions => "frac",
            OpenTypeFeatureTag::AlternateFractions => "afrc",
            OpenTypeFeatureTag::Numerators => "numr",
            OpenTypeFeatureTag::Denominators => "dnom",
            OpenTypeFeatureTag::Superscript => "sups",
            OpenTypeFeatureTag::Subscript => "subs",
            OpenTypeFeatureTag::ScientificInferiors => "sinf",
            OpenTypeFeatureTag::Ordinals => "ordn",
            OpenTypeFeatureTag::SlashedZero => "zero",
            OpenTypeFeatureTag::StylisticSet01 => "ss01",
            OpenTypeFeatureTag::StylisticSet02 => "ss02",
            OpenTypeFeatureTag::StylisticSet03 => "ss03",
            OpenTypeFeatureTag::StylisticSet04 => "ss04",
            OpenTypeFeatureTag::StylisticSet05 => "ss05",
            OpenTypeFeatureTag::StylisticSet06 => "ss06",
            OpenTypeFeatureTag::StylisticSet07 => "ss07",
            OpenTypeFeatureTag::StylisticSet08 => "ss08",
            OpenTypeFeatureTag::StylisticSet09 => "ss09",
            OpenTypeFeatureTag::StylisticSet10 => "ss10",
            OpenTypeFeatureTag::StylisticSet11 => "ss11",
            OpenTypeFeatureTag::StylisticSet12 => "ss12",
            OpenTypeFeatureTag::StylisticSet13 => "ss13",
            OpenTypeFeatureTag::StylisticSet14 => "ss14",
            OpenTypeFeatureTag::StylisticSet15 => "ss15",
            OpenTypeFeatureTag::StylisticSet16 => "ss16",
            OpenTypeFeatureTag::StylisticSet17 => "ss17",
            OpenTypeFeatureTag::StylisticSet18 => "ss18",
            OpenTypeFeatureTag::StylisticSet19 => "ss19",
            OpenTypeFeatureTag::StylisticSet20 => "ss20",
            OpenTypeFeatureTag::CharacterVariant01 => "cv01",
            OpenTypeFeatureTag::CharacterVariant02 => "cv02",
            OpenTypeFeatureTag::CharacterVariant03 => "cv03",
            OpenTypeFeatureTag::CharacterVariant04 => "cv04",
            OpenTypeFeatureTag::CharacterVariant05 => "cv05",
            OpenTypeFeatureTag::LocalizedForms => "locl",
            OpenTypeFeatureTag::ProportionalWidths => "pwid",
            OpenTypeFeatureTag::FullWidths => "fwid",
            OpenTypeFeatureTag::HalfWidths => "hwid",
            OpenTypeFeatureTag::ThirdWidths => "twid",
            OpenTypeFeatureTag::QuarterWidths => "qwid",
            OpenTypeFeatureTag::AlternateHalfWidths => "halt",
            OpenTypeFeatureTag::ProportionalAlternateWidths => "palt",
            OpenTypeFeatureTag::VerticalWriting => "vert",
            OpenTypeFeatureTag::VerticalRotation => "vrt2",
            OpenTypeFeatureTag::VerticalKerning => "vkrn",
            OpenTypeFeatureTag::VerticalAlternates => "valt",
            OpenTypeFeatureTag::VerticalAlternatesAndRotation => "vrtr",
            OpenTypeFeatureTag::RubyNotationForms => "ruby",
            OpenTypeFeatureTag::TraditionalForms => "trad",
            OpenTypeFeatureTag::SimplifiedForms => "smpl",
            OpenTypeFeatureTag::Jis78Forms => "jp78",
            OpenTypeFeatureTag::Jis83Forms => "jp83",
            OpenTypeFeatureTag::Jis90Forms => "jp90",
            OpenTypeFeatureTag::Jis2004Forms => "jp04",
            OpenTypeFeatureTag::ExpertForms => "expt",
            OpenTypeFeatureTag::HojoKanjiForms => "hojo",
            OpenTypeFeatureTag::NlcKanjiForms => "nlck",
            OpenTypeFeatureTag::HistoricalForms => "hist",
            OpenTypeFeatureTag::HistoricalLigatures2 => "hlig",
            OpenTypeFeatureTag::MathematicalGreek => "mgrk",
            OpenTypeFeatureTag::FlattenedAccentForms => "flac",
            OpenTypeFeatureTag::MathScriptStyleAlternates => "ssty",
            OpenTypeFeatureTag::Ornaments => "ornm",
            OpenTypeFeatureTag::DecorativeForms => "deco",
            OpenTypeFeatureTag::AccessAllAlternates => "aalt",
            OpenTypeFeatureTag::AboveBaseForms => "abvf",
            OpenTypeFeatureTag::AboveBaseMarkPositioning => "abvm",
            OpenTypeFeatureTag::AboveBaseSubstitutions => "abvs",
            OpenTypeFeatureTag::BelowBaseForms => "blwf",
            OpenTypeFeatureTag::BelowBaseMarkPositioning => "blwm",
            OpenTypeFeatureTag::BelowBaseSubstitutions => "blws",
            OpenTypeFeatureTag::GlyphCompositionDecomposition => "ccmp",
            OpenTypeFeatureTag::ConjunctForms => "cjct",
            OpenTypeFeatureTag::ConjunctFormAfterRo => "cfar",
            OpenTypeFeatureTag::Distances => "dist",
            OpenTypeFeatureTag::FinalGlyphAlternates => "falt",
            OpenTypeFeatureTag::TerminalForms => "fina",
            OpenTypeFeatureTag::InitialForms => "init",
            OpenTypeFeatureTag::IsolatedForms => "isol",
            OpenTypeFeatureTag::MedialForms => "medi",
            OpenTypeFeatureTag::MedialForms2 => "med2",
            OpenTypeFeatureTag::HalfForms => "half",
            OpenTypeFeatureTag::HalantForms => "haln",
            OpenTypeFeatureTag::NuktaForms => "nukt",
            OpenTypeFeatureTag::PreBaseForms => "pref",
            OpenTypeFeatureTag::PreBaseSubstitutions => "pres",
            OpenTypeFeatureTag::PostBaseForms => "pstf",
            OpenTypeFeatureTag::PostBaseSubstitutions => "psts",
            OpenTypeFeatureTag::RakarForms => "rkrf",
            OpenTypeFeatureTag::RephForm => "rphf",
            OpenTypeFeatureTag::RequiredVariationAlternates => "rvrn",
            OpenTypeFeatureTag::VattuVariants => "vatu",
            OpenTypeFeatureTag::VerticalAlternatesForRotation => "vrt2",
        }
    }

    /// Whether this feature is enabled by default.
    pub fn is_default(&self) -> (r: bool)
        ensures
            r == spec_feature_is_default(*self),
    {
        match self {
            OpenTypeFeatureTag::StandardLigatures | OpenTypeFeatureTag::ContextualLigatures | OpenTypeFeatureTag::Kerning | OpenTypeFeatureTag::ContextualAlternates | OpenTypeFeatureTag::MarkPositioning | OpenTypeFeatureTag::MarkToMarkPositioning | OpenTypeFeatureTag::GlyphCompositionDecomposition | OpenTypeFeatureTag::LocalizedForms | OpenTypeFeatureTag::RequiredLigatures | OpenTypeFeatureTag::RequiredVariationAlternates => true,
            _ => false,
        }
    }

    /// A short description of the feature.
    pub fn description(&self) -> (r: &'static str)
        ensures
            r@ == spec_feature_description(*self),
    {
        match self {
            OpenTypeFeatureTag::StandardLigatures => "Standard ligatures like fi, fl",
            OpenTypeFeatureTag::ContextualLigatures => "Context-dependent ligatures",
            OpenTypeFeatureTag::DiscretionaryLigatures => "Optional ligatures for special effects",
            OpenTypeFeatureTag::HistoricalLigatures => "Ligatures used historically",
            OpenTypeFeatureTag::Kerning => "Adjust spacing between glyph pairs",
            OpenTypeFeatureTag::SmallCapitals => "Lowercase letters as small capitals",
            OpenTypeFeatureTag::Fractions => "Convert numbers to fractions",
            OpenTypeFeatureTag::Superscript => "Superscript numerals",
            OpenTypeFeatureTag::Subscript => "Subscript numerals",
            OpenTypeFeatureTag::SlashedZero => "Zero with slash for disambiguation",
            OpenTypeFeatureTag::Ordinals => "Ordinal indicators (1st, 2nd, etc.)",
            OpenTypeFeatureTag::ContextualAlternates => "Context-dependent glyph substitution",
            OpenTypeFeatureTag::StylisticAlternates => "Stylistic glyph variants",
            _ => "OpenType feature",
        }
    }

    /// All default features, in application order.
    pub fn default_features() -> (r: Vec<Self>)
        ensures
            r@ == spec_default_features(),
    {
        let r = vec![OpenTypeFeatureTag::StandardLigatures, OpenTypeFeatureTag::ContextualLigatures, OpenTypeFeatureTag::Kerning, OpenTypeFeatureTag::ContextualAlternates, OpenTypeFeatureTag::MarkPositioning, OpenTypeFeatureTag::MarkToMarkPositioning, OpenTypeFeatureTag::GlyphCompositionDecomposition, OpenTypeFeatureTag::LocalizedForms, OpenTypeFeatureTag::RequiredLigatures, OpenTypeFeatureTag::RequiredVariationAlternates];
        assert(r@ =~= spec_default_features());
        r
    }
}


/// The features of `s` other than `f`, in order.
pub open spec fn without_feature(s: Seq<OpenTypeFeatureTag>, f: OpenTypeFeatureTag) -> Seq<OpenTypeFeatureTag>
    decreases s.len(),
{
    if s.len() == 0 {
        Seq::empty()
    } else if s.last() == f {
        without_feature(s.drop_last(), f)
    } else {
        without_feature(s.drop_last(), f).push(s.last())
    }
}

/// The substitution features of `s`, in order.
pub open spec fn gsub_features(s: Seq<OpenTypeFeatureTag>) -> Seq<OpenTypeFeatureTag>
    decreases s.len(),
{
    if s.len() == 0 {
        Seq::empty()
    } else if spec_is_gsub_feature(s.last()) {
        gsub_features(s.drop_last()).push(s.last())
    } else {
        gsub_features(s.drop_last())
    }
}

/// The positioning features of `s`, in order.
pub open spec fn gpos_features(s: Seq<OpenTypeFeatureTag>) -> Seq<OpenTypeFeatureTag>
    decreases s.len(),
{
    if s.len() == 0 {
        Seq::empty()
    } else if !spec_is_gsub_feature(s.last()) {
        gpos_features(s.drop_last()).push(s.last())
    } else {
        gpos_features(s.drop_last())
    }
}

/// Application order of a feature list: substitution features first, then positioning
/// features, each group in the list's order.
pub open spec fn application_order_of(s: Seq<OpenTypeFeatureTag>) -> Seq<OpenTypeFeatureTag> {
    gsub_features(s) + gpos_features(s)
}

/// Whether feature `f` is a substitution (GSUB) feature.
pub fn is_gsub_feature(feature: OpenTypeFeatureTag) -> (r: bool)
    ensures
        r == spec_is_gsub_feature(feature),
{
    match feature {
        OpenTypeFeatureTag::StandardLigatures | OpenTypeFeatureTag::ContextualLigatures
        | OpenTypeFeatureTag::DiscretionaryLigatures | OpenTypeFeatureTag::HistoricalLigatures
        | OpenTypeFeatureTag::ContextualAlternates | OpenTypeFeatureTag::StylisticAlternates
        | OpenTypeFeatureTag::SmallCapitals | OpenTypeFeatureTag::AllSmallCaps
        | OpenTypeFeatureTag::Fractions | OpenTypeFeatureTag::Superscript
        | OpenTypeFeatureTag::Subscript | OpenTypeFeatureTag::SlashedZero
        | OpenTypeFeatureTag::Ordinals => true,
        _ => false,
    }
}

/// Whether `s` holds `f`.
pub fn features_contain(s: &Vec<OpenTypeFeatureTag>, f: OpenTypeFeatureTag) -> (r: bool)
    ensures
        r == s@.contains(f),
{
    let mut i: usize = 0;
    while i < s.len()
        invariant
            i <= s@.len(),
            forall|j: int| 0 <= j < i ==> s@[j] != f,
        decreases s@.len() - i,
    {
        if s[i] == f {
            return true;
        }
        i = i + 1;
    }
    false
}

/// Selection and ordering of the OpenType features to apply.
pub struct OpenTypeFeatureEngine {
    enabled_features: Vec<OpenTypeFeatureTag>,
    feature_values: Vec<(OpenTypeFeatureTag, u32)>,
    application_order: Vec<OpenTypeFeatureTag>,
}

/// The value set for `f` in a list of (feature, value) pairs: the last one set.
pub open spec fn value_of(values: Seq<(OpenTypeFeatureTag, u32)>, f: OpenTypeFeatureTag) -> Option<u32>
    decreases values.len(),
{
    if values.len() == 0 {
        None
    } else if values.last().0 == f {
        Some(values.last().1)
    } else {
        value_of(values.drop_last(), f)
    }
}

impl OpenTypeFeatureEngine {
    /// Enabled features, in the order they were enabled.
    pub closed spec fn enabled(&self) -> Seq<OpenTypeFeatureTag> {
        self.enabled_features@
    }

    /// The order in which features are applied.
    pub closed spec fn order(&self) -> Seq<OpenTypeFeatureTag> {
        self.application_order@
    }

    /// The value set for a parametric feature, if any.
    pub closed spec fn value(&self, f: OpenTypeFeatureTag) -> Option<u32> {
        value_of(self.feature_values@, f)
    }

    /// A new engine with the default features enabled, applied in their default order.
    pub fn new() -> (r: Self)
        ensures
            r.enabled() == spec_default_features(),
            r.order() == spec_default_features(),
            forall|f: OpenTypeFeatureTag| r.value(f) is None,
    {
        let enabled = OpenTypeFeatureTag::default_features();
        let order = OpenTypeFeatureTag::default_features();
        OpenTypeFeatureEngine { enabled_features: enabled, feature_values: Vec::new(), application_order: order }
    }

    /// Enables a feature; the application order is recomputed when it was not enabled.
    pub fn enable_feature(&mut self, feature: OpenTypeFeatureTag)
        ensures
            old(self).enabled().contains(feature) ==> final(self).enabled() == old(self).enabled()
                && final(self).order() == old(self).order(),
            !old(self).enabled().contains(feature) ==> final(self).enabled() == old(self).enabled().push(feature)
                && final(self).order() == application_order_of(final(self).enabled()),
            forall|f: OpenTypeFeatureTag| final(self).value(f) == old(self).value(f),
    {
        if !features_contain(&self.enabled_features, feature) {
            self.enabled_features.push(feature);
            self.update_application_order();
        }
    }

    /// Disables a feature and recomputes the application order.
    pub fn disable_feature(&mut self, feature: OpenTypeFeatureTag)
        ensures
            final(self).enabled() == without_feature(old(self).enabled(), feature),
            final(self).order() == application_order_of(final(self).enabled()),
            forall|f: OpenTypeFeatureTag| final(self).value(f) == old(self).value(f),
    {
        let mut kept: Vec<OpenTypeFeatureTag> = Vec::new();
        let mut i: usize = 0;
        while i < self.enabled_features.len()
            invariant
                i <= self.enabled_features@.len(),
                kept@ == without_feature(self.enabled_features@.take(i as int), feature),
            decreases self.enabled_features@.len() - i,
        {
            let f = self.enabled_features[i];
            proof {
                assert(self.enabled_features@.take(i + 1).drop_last() =~= self.enabled_features@.take(i as int));
            }
            if f != feature {
                kept.push(f);
            }
            i = i + 1;
        }
        proof {
            assert(self.enabled_features@.take(i as int) =~= self.enabled_features@);
        }
        self.enabled_features = kept;
        self.update_application_order();
    }

    /// Sets the value of a parametric feature.
    pub fn set_feature_value(&mut self, feature: OpenTypeFeatureTag, value: u32)
        ensures
            final(self).value(feature) == Some(value),
            forall|f: OpenTypeFeatureTag| f != feature ==> final(self).value(f) == old(self).value(f),
            final(self).enabled() == old(self).enabled(),
            final(self).order() == old(self).order(),
    {
        let ghost before = self.feature_values@;
        self.feature_values.push((feature, value));
        proof {
            assert(self.feature_values@.drop_last() =~= before);
        }
    }

    /// Recomputes the application order: substitution features first, then positioning.
    fn update_application_order(&mut self)
        ensures
            final(self).enabled() == old(self).enabled(),
            final(self).order() == application_order_of(old(self).enabled()),
            forall|f: OpenTypeFeatureTag| final(self).value(f) == old(self).value(f),
    {
        let mut gsub: Vec<OpenTypeFeatureTag> = Vec::new();
        let mut gpos: Vec<OpenTypeFeatureTag> = Vec::new();
        let mut i: usize = 0;
        while i < self.enabled_features.len()
            invariant
                i <= self.enabled_features@.len(),
                gsub@ == gsub_features(self.enabled_features@.take(i as int)),
                gpos@ == gpos_features(self.enabled_features@.take(i as int)),
            decreases self.enabled_features@.len() - i,
        {
            let f = self.enabled_features[i];
            proof {
                assert(self.enabled_features@.take(i + 1).drop_last() =~= self.enabled_features@.take(i as int));
            }
            if is_gsub_feature(f) {
                gsub.push(f);
            } else {
                gpos.push(f);
            }
            i = i + 1;
        }
        proof {
            assert(self.enabled_features@.take(i as int) =~= self.enabled_features@);
        }
        let mut order = gsub;
        let mut j: usize = 0;
        let ghost g = order@;
        while j < gpos.len()
            invariant
                j <= gpos@.len(),
                order@ == g + gpos@.take(j as int),
            decreases gpos@.len() - j,
        {
            order.push(gpos[j]);
            proof {
                assert(gpos@.take(j + 1) =~= gpos@.take(j as int).push(gpos@[j as int]));
            }
            j = j + 1;
        }
        proof {
            assert(gpos@.take(j as int) =~= gpos@);
        }
        self.application_order = order;
    }

    /// The features in the order they are applied.
    pub fn application_order(&self) -> (r: &Vec<OpenTypeFeatureTag>)
        ensures
            r@ == self.order(),
    {
        &self.application_order
    }

    /// Whether a feature is a substitution feature.
    pub fn is_gsub_feature(&self, feature: OpenTypeFeatureTag) -> (r: bool)
        ensures
            r == spec_is_gsub_feature(feature),
    {
        is_gsub_feature(feature)
    }
}

/// A feature is on by default exactly when it is in the default feature list.
pub proof fn law_default_features_are_the_defaults(f: OpenTypeFeatureTag)
    ensures
        spec_feature_is_default(f) <==> spec_default_features().contains(f),
{
    let d = spec_default_features();
    if spec_feature_is_default(f) {
        if f == OpenTypeFeatureTag::StandardLigatures { assert(d[0] == f); }
        else if f == OpenTypeFeatureTag::ContextualLigatures { assert(d[1] == f); }
        else if f == OpenTypeFeatureTag::Kerning { assert(d[2] == f); }
        else if f == OpenTypeFeatureTag::ContextualAlternates { assert(d[3] == f); }
        else if f == OpenTypeFeatureTag::MarkPositioning { assert(d[4] == f); }
        else if f == OpenTypeFeatureTag::MarkToMarkPositioning { assert(d[5] == f); }
        else if f == OpenTypeFeatureTag::GlyphCompositionDecomposition { assert(d[6] == f); }
        else if f == OpenTypeFeatureTag::LocalizedForms { assert(d[7] == f); }
        else if f == OpenTypeFeatureTag::RequiredLigatures { assert(d[8] == f); }
        else { assert(d[9] == f); }
    }
}

/// The application order lists every enabled substitution feature before every
/// enabled positioning feature, and holds exactly the enabled features.
pub proof fn law_application_order_partitions(s: Seq<OpenTypeFeatureTag>)
    ensures
        forall|i: int, j: int|
            0 <= i < j < application_order_of(s).len() && spec_is_gsub_feature(
                #[trigger] application_order_of(s)[j],
            ) ==> spec_is_gsub_feature(#[trigger] application_order_of(s)[i]),
        application_order_of(s).to_multiset() == s.to_multiset(),
    decreases s.len(),
{
    lemma_gsub_all(s);
    lemma_gpos_none(s);
    let o = application_order_of(s);
    let g = gsub_features(s);
    assert forall|i: int, j: int| 0 <= i < j < o.len() && spec_is_gsub_feature(#[trigger] o[j]) implies spec_is_gsub_feature(#[trigger] o[i]) by {
        if j >= g.len() {
            assert(o[j] == gpos_features(s)[j - g.len()]);
        } else {
            assert(o[i] == g[i]);
        }
    }
    lemma_partition_multiset(s);
}

proof fn lemma_gsub_all(s: Seq<OpenTypeFeatureTag>)
    ensures
        forall|i: int| 0 <= i < gsub_features(s).len() ==> spec_is_gsub_feature(#[trigger] gsub_features(s)[i]),
    decreases s.len(),
{
    if s.len() > 0 {
        let p = s.drop_last();
        lemma_gsub_all(p);
        assert forall|i: int| 0 <= i < gsub_features(s).len() implies spec_is_gsub_feature(#[trigger] gsub_features(s)[i]) by {
            if i < gsub_features(p).len() {
                assert(gsub_features(s)[i] == gsub_features(p)[i]);
            }
        }
    }
}

proof fn lemma_gpos_none(s: Seq<OpenTypeFeatureTag>)
    ensures
        forall|i: int| 0 <= i < gpos_features(s).len() ==> !spec_is_gsub_feature(#[trigger] gpos_features(s)[i]),
    decreases s.len(),
{
    if s.len() > 0 {
        let p = s.drop_last();
        lemma_gpos_none(p);
        assert forall|i: int| 0 <= i < gpos_features(s).len() implies !spec_is_gsub_feature(#[trigger] gpos_features(s)[i]) by {
            if i < gpos_features(p).len() {
                assert(gpos_features(s)[i] == gpos_features(p)[i]);
            }
        }
    }
}

proof fn lemma_partition_multiset(s: Seq<OpenTypeFeatureTag>)
    ensures
        application_order_of(s).to_multiset() == s.to_multiset(),
    decreases s.len(),
{
    broadcast use vstd::seq_lib::group_to_multiset_ensures;
    if s.len() == 0 {
        assert(application_order_of(s) =~= Seq::<OpenTypeFeatureTag>::empty());
    } else {
        let p = s.drop_last();
        lemma_partition_multiset(p);
        vstd::seq_lib::lemma_multiset_commutative(gsub_features(s), gpos_features(s));
        vstd::seq_lib::lemma_multiset_commutative(gsub_features(p), gpos_features(p));
        assert(s =~= p.push(s.last()));
        if spec_is_gsub_feature(s.last()) {
            vstd::seq_lib::lemma_multiset_commutative(gsub_features(p), seq![s.last()]);
            assert(gsub_features(s) =~= gsub_features(p) + seq![s.last()]);
        } else {
            vstd::seq_lib::lemma_multiset_commutative(gpos_features(p), seq![s.last()]);
            assert(gpos_features(s) =~= gpos_features(p) + seq![s.last()]);
        }
        vstd::seq_lib::lemma_multiset_commutative(p, seq![s.last()]);
    }
}

} // verus!
