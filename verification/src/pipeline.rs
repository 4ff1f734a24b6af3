//! The text shaping pipeline up to glyph identifiers: normalization, the split into
//! runs (by the script hint, or by script and BiDi analysis), shaping by script
//! (Arabic contextual forms, Devanagari syllables, one glyph per character
//! elsewhere), then the glyph substitutions asked for. Placing glyphs, which takes
//! font units and sizes, is left to the caller.
use vstd::prelude::*;
use crate::text_types::{GlyphId, TextDirection};
use crate::script::{UnicodeScript, TextRun, RunView, BiDiAnalyzer, is_script_run_split, bidi_order, copy_run, run_views};
use crate::gsub::{GsubProcessor, NormalizationForm, UnicodeNormalizer, ligature_pass, spans_view, default_ligature_table, rules_apply};
use crate::normalize::{spec_nfc, spec_nfd, spec_nfkc, spec_nfkd};
use crate::complex::{arabic_glyphs, devanagari_glyphs, arabic_ligature_table, arabic_base_glyphs, shaped_syllables, syllables_from};
use crate::strs::{byte_len, byte_length, to_owned_string};

verus! {

/// What the pipeline is asked to do.
#[derive(Debug, Clone, Copy, PartialEq, Eq, Structural)]
pub struct PipelineOptions {
    /// A script for the whole text; `None` to analyze it.
    pub script: Option<UnicodeScript>,
    /// The direction of the whole text, where a script is given.
    pub direction: TextDirection,
    /// Apply the standard ligatures.
    pub ligatures: bool,
    /// Apply the contextual alternates.
    pub contextual_alternates: bool,
    /// Normalize the text first.
    pub normalize: bool,
    /// The normalization form.
    pub normalization_form: NormalizationForm,
}

/// The text the pipeline shapes.
pub open spec fn spec_normalized(text: Seq<char>, o: PipelineOptions) -> Seq<char> {
    if !o.normalize {
        text
    } else {
        match o.normalization_form {
            NormalizationForm::NFC => spec_nfc(text),
            NormalizationForm::NFD => spec_nfd(text),
            NormalizationForm::NFKC => spec_nfkc(text),
            NormalizationForm::NFKD => spec_nfkd(text),
        }
    }
}

/// The glyphs of a list of spans.
pub open spec fn span_glyphs(s: Seq<(GlyphId, nat)>) -> Seq<GlyphId> {
    s.map_values(|p: (GlyphId, nat)| p.0)
}

/// The glyphs of shaped Devanagari.
pub open spec fn syllable_glyphs(s: Seq<(GlyphId, u32)>) -> Seq<GlyphId> {
    s.map_values(|p: (GlyphId, u32)| p.0)
}

/// One glyph per character.
pub open spec fn char_glyphs(t: Seq<char>) -> Seq<GlyphId> {
    t.map_values(|c: char| GlyphId(c as u32))
}

/// The glyphs a run's script shapes its text into.
pub open spec fn script_glyphs(script: UnicodeScript, t: Seq<char>) -> Seq<GlyphId> {
    match script {
        UnicodeScript::Arabic => span_glyphs(ligature_pass(arabic_ligature_table(), arabic_base_glyphs(t))),
        UnicodeScript::Devanagari => syllable_glyphs(shaped_syllables(syllables_from(t, 0))),
        _ => char_glyphs(t),
    }
}

/// The glyphs of a run: its script's glyphs, then the standard ligatures and the
/// contextual alternates (of which the standard substitutions have none) where asked for.
pub open spec fn spec_run_glyphs(script: UnicodeScript, t: Seq<char>, o: PipelineOptions) -> Seq<GlyphId> {
    let base = script_glyphs(script, t);
    let lig = if o.ligatures { span_glyphs(ligature_pass(default_ligature_table(), base)) } else { base };
    if o.contextual_alternates { rules_apply(lig, Seq::empty()) } else { lig }
}

/// The runs of the pipeline's output.
pub open spec fn output_runs(r: Seq<(TextRun, Vec<GlyphId>)>) -> Seq<RunView> {
    r.map_values(|p: (TextRun, Vec<GlyphId>)| p.0@)
}

fn normalized(text: &str, o: &PipelineOptions) -> (r: String)
    ensures
        r@ == spec_normalized(text@, *o),
{
    if !o.normalize {
        to_owned_string(text)
    } else {
        match o.normalization_form {
            NormalizationForm::NFC => UnicodeNormalizer::nfc(text),
            NormalizationForm::NFD => UnicodeNormalizer::nfd(text),
            NormalizationForm::NFKC => UnicodeNormalizer::nfkc(text),
            NormalizationForm::NFKD => UnicodeNormalizer::nfkd(text),
        }
    }
}

fn glyphs_of_spans(s: &Vec<(GlyphId, usize)>) -> (r: Vec<GlyphId>)
    ensures
        r@ == span_glyphs(spans_view(s@)),
{
    let mut r: Vec<GlyphId> = Vec::new();
    let mut i: usize = 0;
    while i < s.len()
        invariant
            i <= s@.len(),
            r@.len() == i,
            forall|k: int| 0 <= k < i ==> #[trigger] r@[k] == s@[k].0,
        decreases s.len() - i,
    {
        r.push(s[i].0);
        i = i + 1;
    }
    assert(r@ =~= span_glyphs(spans_view(s@)));
    r
}

fn glyphs_of_syllables(s: &Vec<(GlyphId, u32)>) -> (r: Vec<GlyphId>)
    ensures
        r@ == syllable_glyphs(s@),
{
    let mut r: Vec<GlyphId> = Vec::new();
    let mut i: usize = 0;
    while i < s.len()
        invariant
            i <= s@.len(),
            r@.len() == i,
            forall|k: int| 0 <= k < i ==> #[trigger] r@[k] == s@[k].0,
        decreases s.len() - i,
    {
        r.push(s[i].0);
        i = i + 1;
    }
    assert(r@ =~= syllable_glyphs(s@));
    r
}

fn glyphs_of_chars(text: &str) -> (r: Vec<GlyphId>)
    ensures
        r@ == char_glyphs(text@),
{
    let cs = crate::strs::chars_of(text);
    let mut r: Vec<GlyphId> = Vec::new();
    let mut i: usize = 0;
    while i < cs.len()
        invariant
            cs@ == text@,
            i <= cs@.len(),
            r@.len() == i,
            forall|k: int| 0 <= k < i ==> #[trigger] r@[k] == GlyphId(cs@[k] as u32),
        decreases cs.len() - i,
    {
        r.push(GlyphId(cs[i] as u32));
        i = i + 1;
    }
    assert(r@ =~= char_glyphs(text@));
    r
}

/// The glyphs of one run, as `spec_run_glyphs` says.
pub fn run_glyphs(run: &TextRun, o: &PipelineOptions) -> (r: Vec<GlyphId>)
    ensures
        r@ == spec_run_glyphs(run.script, run.text@, *o),
{
    let base = match run.script {
        UnicodeScript::Arabic => glyphs_of_spans(&arabic_glyphs(run.text.as_str())),
        UnicodeScript::Devanagari => glyphs_of_syllables(&devanagari_glyphs(run.text.as_str())),
        _ => glyphs_of_chars(run.text.as_str()),
    };
    let gsub = GsubProcessor::new();
    assert(gsub.features()[0] == crate::features::HarfbuzzFeature::Liga);
    assert(gsub.features()[2] == crate::features::HarfbuzzFeature::Calt);
    let mut glyphs = if o.ligatures { glyphs_of_spans(&gsub.apply_ligatures(&base)) } else { base };
    if o.contextual_alternates {
        gsub.apply_contextual_alternates(&mut glyphs);
    }
    glyphs
}

/// Shape a text into runs and their glyphs. With a script given, the whole
/// (normalized) text is one run in that script and the given direction; else it is
/// split into its script runs put in visual order, as `BiDiAnalyzer::analyze` does. Each
/// run's glyphs are as `spec_run_glyphs` says.
pub fn shape_text_glyphs(text: &str, options: &PipelineOptions) -> (r: Vec<(TextRun, Vec<GlyphId>)>)
    ensures
        options.script matches Some(s) ==> output_runs(r@) == seq![RunView {
            text: spec_normalized(text@, *options),
            script: s,
            direction: options.direction,
            language: None,
            start_index: 0,
            end_index: byte_len(spec_normalized(text@, *options)) as usize,
        }],
        options.script is None ==> exists|split: Seq<TextRun>| is_script_run_split(spec_normalized(text@, *options), split)
            && output_runs(r@) == run_views(bidi_order(split)),
        options.script is None ==> forall|split: Seq<TextRun>| #[trigger] is_script_run_split(spec_normalized(text@, *options), split)
            ==> output_runs(r@) == run_views(bidi_order(split)),
        forall|i: int| 0 <= i < r@.len() ==> (#[trigger] r@[i]).1@ == spec_run_glyphs(r@[i].0.script, r@[i].0.text@, *options),
{
    let norm = normalized(text, options);
    let runs: Vec<TextRun> = match options.script {
        Some(s) => {
            let len = byte_length(norm.as_str());
            let mut v = Vec::new();
            v.push(TextRun::new(norm, s, options.direction, 0, len));
            v
        },
        None => BiDiAnalyzer::analyze(norm.as_str()),
    };
    let mut out: Vec<(TextRun, Vec<GlyphId>)> = Vec::new();
    let mut i: usize = 0;
    while i < runs.len()
        invariant
            i <= runs@.len(),
            out@.len() == i,
            forall|k: int| 0 <= k < i ==> (#[trigger] out@[k]).0@ == runs@[k]@,
            forall|k: int| 0 <= k < i ==> (#[trigger] out@[k]).1@ == spec_run_glyphs(out@[k].0.script, out@[k].0.text@, *options),
        decreases runs.len() - i,
    {
        let run = copy_run(&runs[i]);
        let glyphs = run_glyphs(&run, options);
        out.push((run, glyphs));
        i = i + 1;
    }
    assert(output_runs(out@) =~= run_views(runs@));
    out
}

} // verus!
