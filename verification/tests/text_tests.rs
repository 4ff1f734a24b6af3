use slate::text::{is_break_opportunity, FontCache, FontFamily, FontKey};
use slate::script::{UnicodeScript, ScriptRunAnalyzer, BiDiAnalyzer, TextRunSplitter, TextRun};
use slate::text::{GlyphRasterizer, TextShaper, FontWeight, FontStyle, font_style, family_from_name};
use slate::text::{shape_units, ShapedUnits};
use slate::text::{font_info_from_bytes, font_info_from_face, FaceInfo, FontError, bidi_visual_runs, visual_runs_from};
use slate::text_types::{GlyphId, TextDirection};
use slate::gsub::{GsubProcessor, GlyphSubstitutionCache, UnicodeNormalizer, ContextualRule};
use slate::complex::{arabic_glyphs, devanagari_glyphs, identify_syllables, shape_syllable, JustificationEngine,
    determine_arabic_form, ArabicForm, is_complex_script, arabic_forms};
use slate::features::HarfbuzzFeature;
use slate::shaping::ExtendedHarfbuzzShaper;
use slate::profiler::ShapingProfiler;
use slate::pipeline::{shape_text_glyphs, PipelineOptions};
use slate::gsub::NormalizationForm;

fn g(c: char) -> GlyphId {
    GlyphId(c as u32)
}

#[test]
fn detect_scripts() {
    assert_eq!(UnicodeScript::from_char('A'), UnicodeScript::Latin);
    assert_eq!(UnicodeScript::from_char('α'), UnicodeScript::Greek);
    assert_eq!(UnicodeScript::from_char('а'), UnicodeScript::Cyrillic);
    assert_eq!(UnicodeScript::from_char('م'), UnicodeScript::Arabic);
    assert_eq!(UnicodeScript::from_char('ש'), UnicodeScript::Hebrew);
    assert_eq!(UnicodeScript::from_char('न'), UnicodeScript::Devanagari);
    assert_eq!(UnicodeScript::from_char('ก'), UnicodeScript::Thai);
}

#[test]
fn rasterizer_creation() {
    let _rasterizer = GlyphRasterizer::new();
}

#[test]
fn shaper_creation() {
    let _shaper = TextShaper::new();
}

#[test]
fn analyze_script_runs() {
    let text = "Hello مرحبا World";
    let runs = ScriptRunAnalyzer::analyze(text);
    assert!(runs.len() >= 2);
}

#[test]
fn bidi_analysis() {
    let text = "Hello مرحبا";
    let runs = BiDiAnalyzer::analyze(text);
    assert!(!runs.is_empty());
}

#[test]
fn bidi_puts_rtl_runs_after_ltr_runs() {
    let runs = BiDiAnalyzer::analyze("Hello مرحبا");
    let dirs: Vec<TextDirection> = runs.iter().map(|r| r.direction).collect();
    let first_rtl = dirs.iter().position(|d| *d == TextDirection::RightToLeft);
    if let Some(p) = first_rtl {
        assert!(dirs[p..].iter().all(|d| *d == TextDirection::RightToLeft));
    }
}

#[test]
fn test_text_run_splitting() {
    let text = "Hello مرحبا World";
    let runs = TextRunSplitter::split(text);
    assert!(runs.len() >= 2);
}

#[test]
fn split_runs_cover_the_text() {
    let text = "Hello مرحبا World";
    let runs = TextRunSplitter::split(text);
    let joined: String = runs.iter().map(|r| r.text.clone()).collect();
    assert_eq!(joined, text);
}

#[test]
fn merge_runs_joins_neighbours_of_one_script() {
    let a = TextRun::new("ab".to_string(), UnicodeScript::Latin, TextDirection::LeftToRight, 0, 2);
    let b = TextRun::new("cd".to_string(), UnicodeScript::Latin, TextDirection::LeftToRight, 2, 4);
    let merged = TextRunSplitter::merge_runs(vec![a, b]);
    assert_eq!(merged.len(), 1);
    assert_eq!(merged[0].text, "abcd");
}

#[test]
fn test_gsub_ligatures() {
    let gsub = GsubProcessor::new();
    let glyphs = vec![g('f'), g('i')];
    let out = gsub.apply_ligatures(&glyphs);
    assert_eq!(out.len(), 1);
    assert_eq!(out[0], (GlyphId(0xFB01), 2));
    // The ligature keeps the first glyph's cluster and takes both advances.
    let advances = [10.0f32, 5.0];
    let mut start = 0usize;
    let mut placed = Vec::new();
    for (id, n) in &out {
        placed.push((*id, start as u32, advances[start..start + n].iter().sum::<f32>()));
        start += n;
    }
    assert_eq!(placed, vec![(GlyphId(0xFB01), 0, 15.0)]);
}

#[test]
fn ligatures_prefer_the_longest_match() {
    let gsub = GsubProcessor::new();
    let glyphs = vec![g('f'), g('f'), g('i'), g('x'), g('f'), g('l')];
    let out = gsub.apply_ligatures(&glyphs);
    assert_eq!(out, vec![(GlyphId(0xFB03), 3), (g('x'), 1), (GlyphId(0xFB02), 2)]);
    let total: usize = out.iter().map(|p| p.1).sum();
    assert_eq!(total, glyphs.len());
}

#[test]
fn contextual_alternates_without_rules_change_nothing() {
    let gsub = GsubProcessor::new();
    let mut glyphs = vec![g('a'), g('b')];
    gsub.apply_contextual_alternates(&mut glyphs);
    assert_eq!(glyphs, vec![g('a'), g('b')]);
}

#[test]
fn contextual_rule_substitutes_each_match() {
    let rule = ContextualRule {
        input: vec![g('a'), g('b')],
        lookahead: vec![],
        lookback: vec![],
        substitution: vec![g('x'), g('y')],
    };
    let mut glyphs = vec![g('a'), g('b'), g('a'), g('b'), g('a')];
    GsubProcessor::apply_contextual_rule(&mut glyphs, &rule);
    assert_eq!(glyphs, vec![g('x'), g('y'), g('x'), g('y'), g('a')]);
}

#[test]
fn substitution_cache_reads_back_and_evicts_oldest() {
    let mut cache = GlyphSubstitutionCache::new(2);
    cache.insert(vec![g('a')], vec![g('b')]);
    cache.insert(vec![g('c')], vec![g('d')]);
    assert_eq!(cache.get(&[g('a')]), Some(vec![g('b')]));
    cache.insert(vec![g('e')], vec![g('f')]);
    assert_eq!(cache.get(&[g('a')]), None);
    assert_eq!(cache.get(&[g('c')]), Some(vec![g('d')]));
    assert_eq!(cache.get(&[g('e')]), Some(vec![g('f')]));
    cache.clear();
    assert_eq!(cache.get(&[g('e')]), None);
}

#[test]
fn normalizer_leaves_text_unchanged() {
    assert_eq!(UnicodeNormalizer::nfc("é"), "é");
    assert_eq!(UnicodeNormalizer::nfd("abc"), "abc");
    assert_eq!(UnicodeNormalizer::nfkc("x"), "x");
    assert_eq!(UnicodeNormalizer::nfkd(""), "");
    assert!(UnicodeNormalizer::is_nfc("anything"));
    assert_eq!(UnicodeNormalizer::nfc("e\u{0301}"), "\u{00E9}");
    assert_eq!(UnicodeNormalizer::nfd("\u{00E9}"), "e\u{0301}");
    assert_eq!(UnicodeNormalizer::nfkc("\u{FB01}"), "fi");
    assert_eq!(UnicodeNormalizer::nfkd("\u{00BD}"), "1\u{2044}2");
    assert!(!UnicodeNormalizer::is_nfc("e\u{0301}"));
    assert!(UnicodeNormalizer::is_nfc("\u{00E9}"));
    // Marks are put in canonical order: cedilla (class 202) before acute (230).
    assert_eq!(UnicodeNormalizer::nfd("c\u{0301}\u{0327}"), "c\u{0327}\u{0301}");
    assert_eq!(UnicodeNormalizer::nfkc("\u{FF21}\u{2460}"), "A1");
    assert_eq!(UnicodeNormalizer::nfc("e\u{0323}\u{0302}"), "\u{1EC7}");
    assert_eq!(UnicodeNormalizer::nfc("e\u{0302}\u{0323}"), "\u{1EC7}");
    assert_eq!(UnicodeNormalizer::nfd("\u{1EC7}"), "e\u{0323}\u{0302}");
    assert_eq!(UnicodeNormalizer::nfd("\u{01E0}"), "A\u{0307}\u{0304}");
    assert_eq!(UnicodeNormalizer::nfc("c\u{0327}\u{0301}"), "\u{1E09}");
    assert_eq!(UnicodeNormalizer::nfc("\u{0344}"), "\u{0308}\u{0301}");
    assert_eq!(UnicodeNormalizer::nfd("a\u{0341}"), "a\u{0301}");
    assert_eq!(UnicodeNormalizer::nfc("\u{0108}a"), "\u{0108}a");
}

#[test]
fn test_arabic_shaping() {
    let glyphs = arabic_glyphs("مرحبا");
    assert!(!glyphs.is_empty());
}

#[test]
fn lam_alef_forms_one_ligature() {
    let glyphs = arabic_glyphs("لا");
    assert_eq!(glyphs, vec![(GlyphId(0xFEFB), 2)]);
}

#[test]
fn arabic_contextual_forms() {
    let chars: Vec<char> = "بتب".chars().collect();
    assert_eq!(determine_arabic_form(&chars, 0), ArabicForm::Initial);
    assert_eq!(determine_arabic_form(&chars, 1), ArabicForm::Medial);
    assert_eq!(determine_arabic_form(&chars, 2), ArabicForm::Final);
    let after_alef: Vec<char> = "اب".chars().collect();
    assert_eq!(determine_arabic_form(&after_alef, 1), ArabicForm::Isolated);
    assert_eq!(arabic_forms("a"), vec![ArabicForm::Isolated]);
}

#[test]
fn test_devanagari_shaping() {
    let glyphs = devanagari_glyphs("नमस्ते");
    assert!(!glyphs.is_empty());
}

#[test]
fn devanagari_syllables_split_before_consonants() {
    let syllables = identify_syllables("नमस्ते");
    assert_eq!(syllables, vec!["न".to_string(), "म".to_string(), "स्ते".to_string()]);
}

#[test]
fn devanagari_pre_base_matra_moves_before_its_consonant() {
    // क + ि: the vowel sign is written first.
    let glyphs = shape_syllable("कि");
    assert_eq!(glyphs, vec![(GlyphId(0x093F), 3), (GlyphId(0x0915), 0)]);
}

#[test]
fn devanagari_half_form_drops_the_virama() {
    // र + ् + क: the virama after ra is taken by the half form.
    let glyphs = shape_syllable("र्क");
    assert_eq!(glyphs, vec![(GlyphId(0x0930), 0), (GlyphId(0x0915), 6)]);
}

#[test]
fn test_justification() {
    let glyphs = vec![g('H'), g(' '), g('W')];
    let advances = [10.0f32, 5.0, 10.0];
    let targets = JustificationEngine::targets(&glyphs, UnicodeScript::Latin);
    assert_eq!(targets, vec![1]);
    let current: f32 = advances.iter().sum();
    let share = (50.0 - current) / targets.len() as f32;
    let mut widened = advances;
    for &i in &targets {
        widened[i] += share;
    }
    let total_width: f32 = widened.iter().sum();
    assert!((total_width - 50.0).abs() < 0.1);
}

#[test]
fn justification_without_spaces_widens_every_glyph() {
    let glyphs = vec![g('a'), g('b')];
    assert_eq!(JustificationEngine::targets(&glyphs, UnicodeScript::Latin), vec![0, 1]);
}

#[test]
fn arabic_justification_uses_kashida_points() {
    let glyphs = vec![g('ب'), g(' '), g('ت')];
    assert_eq!(JustificationEngine::targets(&glyphs, UnicodeScript::Arabic), vec![0, 2]);
    assert!(JustificationEngine::can_insert_kashida(g('ب')));
    assert!(!JustificationEngine::can_insert_kashida(g('a')));
}

#[test]
fn detect_complex_script() {
    assert!(!is_complex_script("Hello"));
    assert!(is_complex_script("مرحبا"));
    assert!(is_complex_script("שלום"));
}

#[test]
fn cache_functionality() {
    let mut shaper: ExtendedHarfbuzzShaper<Vec<GlyphId>> = ExtendedHarfbuzzShaper::new();
    let key = "Test:16:Latin:LeftToRight";
    // Shape twice: the first time misses and caches, the second hits.
    for _ in 0..2 {
        if !shaper.record_hit(key) {
            shaper.add_to_cache(key.to_string(), vec![g('T')]);
        }
    }
    let stats = shaper.cache_stats();
    assert_eq!(stats.entries, 1);
    assert_eq!(stats.total_accesses, 2);
    assert_eq!(shaper.cached(key), Some(&vec![g('T')]));
    shaper.clear_cache();
    assert_eq!(shaper.cache_stats().entries, 0);
}

#[test]
fn opentype_features() {
    let mut shaper: ExtendedHarfbuzzShaper<Vec<GlyphId>> = ExtendedHarfbuzzShaper::new();
    shaper.enable_feature(HarfbuzzFeature::Smcp);
    assert!(shaper.features().contains(&HarfbuzzFeature::Smcp));
    shaper.disable_feature(HarfbuzzFeature::Smcp);
    assert!(!shaper.features().contains(&HarfbuzzFeature::Smcp));
}

#[test]
fn font_descriptors() {
    assert_eq!(FontWeight::bold(), FontWeight(700));
    assert_eq!(font_style(true, true), FontStyle::Italic);
    assert_eq!(font_style(false, true), FontStyle::Oblique);
    assert_eq!(font_style(false, false), FontStyle::Normal);
    assert_eq!(family_from_name(None).name, "Unknown");
    assert_eq!(family_from_name(Some("Serif".to_string())).name, "Serif");
}

#[test]
fn font_cache_finds_added_and_system_fonts() {
    let key = |name: &str, w: u16, s: FontStyle| FontKey { family: FontFamily { name: name.to_string() }, weight: FontWeight(w), style: s };
    let mut cache = FontCache::new();
    assert_eq!(cache.get_font(&key("Serif", 400, FontStyle::Normal)), None);
    assert_eq!(cache.add_system_font(key("Serif", 400, FontStyle::Normal)), 0);
    assert_eq!(cache.add_system_font(key("Serif", 700, FontStyle::Normal)), 1);
    assert_eq!(cache.add_system_font(key("Serif", 400, FontStyle::Normal)), 2);
    // the first matching system font wins
    assert_eq!(cache.get_font(&key("Serif", 400, FontStyle::Normal)), Some(0));
    assert_eq!(cache.get_font(&key("Serif", 400, FontStyle::Italic)), None);
    // an added font takes over its key
    let p = cache.add_font(key("Serif", 400, FontStyle::Normal));
    assert_eq!(p, 3);
    assert_eq!(cache.get_font(&key("Serif", 400, FontStyle::Normal)), Some(3));
    assert_eq!(cache.get_font(&key("Serif", 700, FontStyle::Normal)), Some(1));
    assert_eq!(cache.len(), 4);
}

#[test]
fn break_opportunities() {
    assert!(is_break_opportunity(' ' as u32));
    assert!(is_break_opportunity('-' as u32));
    assert!(is_break_opportunity(0x2014));
    assert!(!is_break_opportunity('a' as u32));
    assert!(!is_break_opportunity(0x2012));
}

#[test]
fn merged_runs_keep_text_and_differ_from_neighbours() {
    let runs = vec![
        TextRun::new("ab".to_string(), UnicodeScript::Latin, TextDirection::LeftToRight, 0, 2),
        TextRun::new("cd".to_string(), UnicodeScript::Latin, TextDirection::LeftToRight, 2, 4),
        TextRun::new("\u{0645}".to_string(), UnicodeScript::Arabic, TextDirection::RightToLeft, 4, 6),
        TextRun::new("ef".to_string(), UnicodeScript::Latin, TextDirection::LeftToRight, 6, 8),
    ];
    let merged = TextRunSplitter::merge_runs(runs);
    let text: String = merged.iter().map(|r| r.text.as_str()).collect();
    assert_eq!(text, "abcd\u{0645}ef");
    assert_eq!(merged.len(), 3);
    assert_eq!((merged[0].start_index, merged[0].end_index), (0, 4));
    for w in merged.windows(2) {
        assert!(w[0].script != w[1].script || w[0].direction != w[1].direction);
    }
}

#[test]
fn visual_order_keeps_every_run() {
    let text = "Hello \u{0645}\u{0631}\u{062d}\u{0628}\u{0627} World \u{05e9}\u{05dc}\u{05d5}\u{05dd}";
    let logical = ScriptRunAnalyzer::analyze(text);
    let visual = BiDiAnalyzer::analyze(text);
    assert_eq!(logical.len(), visual.len());
    let mut a: Vec<String> = logical.iter().map(|r| r.text.clone()).collect();
    let mut b: Vec<String> = visual.iter().map(|r| r.text.clone()).collect();
    a.sort();
    b.sort();
    assert_eq!(a, b);
}

#[test]
fn arabic_presentation_forms() {
    assert_eq!(arabic_glyphs("\u{0628}\u{0628}"), vec![(GlyphId(0xFE91), 1), (GlyphId(0xFE90), 1)]);
    assert_eq!(arabic_glyphs("\u{0628}\u{0644}\u{0627}"), vec![(GlyphId(0xFE91), 1), (GlyphId(0xFEFC), 2)]);
    assert_eq!(arabic_glyphs("\u{0627}\u{0628}"), vec![(GlyphId(0xFE8D), 1), (GlyphId(0xFE8F), 1)]);
    assert_eq!(arabic_glyphs("\u{0628}\u{062A}\u{0628}"),
        vec![(GlyphId(0xFE91), 1), (GlyphId(0xFE98), 1), (GlyphId(0xFE90), 1)]);
    assert_eq!(arabic_glyphs("a"), vec![(GlyphId('a' as u32), 1)]);
}

#[test]
fn cache_lookup_counts_hits_and_adds_misses() {
    let mut shaper: ExtendedHarfbuzzShaper<Vec<GlyphId>> = ExtendedHarfbuzzShaper::new();
    assert!(!shaper.hit_or_add("k".to_string(), vec![GlyphId(1)]));
    assert_eq!(shaper.access_count("k"), Some(1));
    assert!(shaper.hit_or_add("k".to_string(), vec![GlyphId(9)]));
    assert_eq!(shaper.access_count("k"), Some(2));
    assert_eq!(shaper.cached("k"), Some(&vec![GlyphId(1)]));
}

#[test]
fn merging_twice_changes_nothing() {
    let a = TextRun::new("ab".to_string(), UnicodeScript::Latin, TextDirection::LeftToRight, 0, 2);
    let b = TextRun::new("cd".to_string(), UnicodeScript::Latin, TextDirection::LeftToRight, 2, 4);
    let c = TextRun::new("\u{05D0}".to_string(), UnicodeScript::Hebrew, TextDirection::RightToLeft, 4, 6);
    let once = TextRunSplitter::merge_runs(vec![a, b, c]);
    let twice = TextRunSplitter::merge_runs(once.clone());
    assert_eq!(once.len(), 2);
    assert_eq!(twice.len(), 2);
    for (x, y) in once.iter().zip(twice.iter()) {
        assert_eq!((x.text.as_str(), x.script, x.start_index, x.end_index), (y.text.as_str(), y.script, y.start_index, y.end_index));
    }
}

#[test]
fn harfbuzz_tags_are_four_letters_and_distinct() {
    let all = [
        HarfbuzzFeature::Kern, HarfbuzzFeature::Liga, HarfbuzzFeature::Clig, HarfbuzzFeature::Dlig,
        HarfbuzzFeature::Hlig, HarfbuzzFeature::Calt, HarfbuzzFeature::Salt, HarfbuzzFeature::Swsh,
        HarfbuzzFeature::Titl, HarfbuzzFeature::Smcp, HarfbuzzFeature::C2sc, HarfbuzzFeature::Pcap,
        HarfbuzzFeature::C2pc, HarfbuzzFeature::Unic, HarfbuzzFeature::Zero, HarfbuzzFeature::Ordn,
        HarfbuzzFeature::Frac, HarfbuzzFeature::Numr, HarfbuzzFeature::Dnom, HarfbuzzFeature::Sups,
        HarfbuzzFeature::Subs, HarfbuzzFeature::Sinf,
    ];
    for (i, a) in all.iter().enumerate() {
        assert_eq!(a.tag().len(), 4);
        assert_eq!(a.tag(), format!("{:?}", a).to_lowercase());
        for b in &all[i + 1..] {
            assert_ne!(a.tag(), b.tag());
        }
    }
}

#[test]
fn font_info_from_face_values() {
    let face = FaceInfo {
        names: vec![(1, true, Some("Fam".to_string())), (4, false, Some("Mac".to_string())), (4, true, Some("Full Name".to_string()))],
        weight: 700,
        italic: false,
        oblique: true,
        ascender: 800,
        descender: -200,
        line_gap: 90,
        units_per_em: 1000,
    };
    let info = font_info_from_face(face);
    assert_eq!(info.family.name, "Full Name");
    assert_eq!(info.weight, FontWeight(700));
    assert_eq!(info.style, FontStyle::Oblique);
    assert_eq!((info.ascender, info.descender, info.line_gap, info.units_per_em), (800, -200, 90, 1000));
    let unnamed = FaceInfo { names: vec![], weight: 400, italic: true, oblique: true, ascender: 0, descender: 0, line_gap: 0, units_per_em: 2048 };
    let info = font_info_from_face(unnamed);
    assert_eq!(info.family.name, "Unknown");
    assert_eq!(info.style, FontStyle::Italic);
    assert!(matches!(font_info_from_bytes(&[1, 2, 3]), Err(FontError::InvalidData)));
}

#[test]
fn bidi_runs_in_visual_order() {
    assert_eq!(bidi_visual_runs("abc"), vec![(TextDirection::LeftToRight, 0, 3)]);
    let text = "ab \u{05D0}\u{05D1}";
    let runs = bidi_visual_runs(text);
    assert_eq!(runs.len(), 2);
    assert_eq!(runs[0], (TextDirection::LeftToRight, 0, 3));
    assert_eq!(runs[1], (TextDirection::RightToLeft, 3, text.len()));
    assert_eq!(visual_runs_from(None, 5), vec![(TextDirection::LeftToRight, 0, 5)]);
    // Levels are listed one per byte; each run takes its first byte's level.
    let levels = vec![true, true, true, true, false, false, false, false, false];
    assert_eq!(visual_runs_from(Some((levels, vec![(0, 4), (4, 9)])), 9),
        vec![(TextDirection::LeftToRight, 0, 4), (TextDirection::RightToLeft, 4, 9)]);
    let hebrew = "abc \u{05D0}\u{05D1}\u{05D2}";
    assert_eq!(bidi_visual_runs(hebrew),
        vec![(TextDirection::LeftToRight, 0, 4), (TextDirection::RightToLeft, 4, 10)]);
    assert_eq!(visual_runs_from(Some((vec![], vec![])), 2), vec![(TextDirection::LeftToRight, 0, 2)]);
}

#[test]
fn profiler_averages_by_operation() {
    let mut p = ShapingProfiler::new();
    assert_eq!(p.average("gsub"), None);
    p.record("gsub", 10);
    p.record("gsub", 25);
    p.record("gpos", 7);
    assert_eq!(p.average("gsub"), Some(17));
    assert_eq!(p.average("gpos"), Some(7));
    assert_eq!(p.average("total"), None);
}

#[test]
fn pipeline_shapes_runs_to_glyphs() {
    let options = PipelineOptions {
        script: None,
        direction: TextDirection::LeftToRight,
        ligatures: true,
        contextual_alternates: true,
        normalize: true,
        normalization_form: NormalizationForm::NFC,
    };
    let out = shape_text_glyphs("fie\u{0301}", &options);
    assert_eq!(out.len(), 1);
    assert_eq!(out[0].0.text, "fi\u{00E9}");
    assert_eq!(out[0].1, vec![GlyphId(0xFB01), GlyphId(0xE9)]);
    let hinted = PipelineOptions { script: Some(UnicodeScript::Arabic), direction: TextDirection::RightToLeft, ligatures: false, ..options };
    let out = shape_text_glyphs("\u{0628}\u{0628}", &hinted);
    assert_eq!(out.len(), 1);
    assert_eq!(out[0].0.direction, TextDirection::RightToLeft);
    assert_eq!(out[0].1, vec![GlyphId(0xFE91), GlyphId(0xFE90)]);
    let plain = PipelineOptions { ligatures: false, normalize: false, ..options };
    assert_eq!(shape_text_glyphs("fi", &plain)[0].1, vec![GlyphId('f' as u32), GlyphId('i' as u32)]);
}

#[test]
fn bidi_runs_are_the_script_runs_in_visual_order() {
    let text = "Hello \u{0645}\u{0631}\u{062D}\u{0628}\u{0627} World";
    let script_runs = ScriptRunAnalyzer::analyze(text);
    let bidi = BiDiAnalyzer::analyze(text);
    let mut expected: Vec<&TextRun> = script_runs.iter().filter(|r| r.direction == TextDirection::LeftToRight).collect();
    expected.extend(script_runs.iter().rev().filter(|r| r.direction == TextDirection::RightToLeft));
    assert_eq!(bidi.len(), expected.len());
    for (a, b) in bidi.iter().zip(expected.iter()) {
        assert_eq!((a.text.as_str(), a.script, a.start_index, a.end_index), (b.text.as_str(), b.script, b.start_index, b.end_index));
    }
    let texts: Vec<&str> = bidi.iter().map(|r| r.text.as_str()).collect();
    assert_eq!(texts, vec!["Hello ", " World", "\u{0645}\u{0631}\u{062D}\u{0628}\u{0627}"]);
}

#[test]
fn hyphenation_dictionary() {
    let mut lb = slate::line_break::LineBreaker::new();
    assert!(lb.hyphenation("example").is_none());
    lb.add_hyphenation("example".to_string(), vec![2, 5]);
    lb.add_hyphenation("example".to_string(), vec![3]);
    assert_eq!(lb.hyphenation("example"), Some(&vec![3]));
}

#[test]
fn merging_a_split_keeps_it() {
    let text = "abc\u{05D0}\u{05D1}def \u{0627}";
    let split = TextRunSplitter::split(text);
    let copy: Vec<TextRun> = split.clone();
    let merged = TextRunSplitter::merge_runs(copy);
    assert_eq!(merged.len(), split.len());
    for (x, y) in merged.iter().zip(split.iter()) {
        assert_eq!((x.text.as_str(), x.script, x.start_index, x.end_index), (y.text.as_str(), y.script, y.start_index, y.end_index));
    }
    assert!(TextRunSplitter::merge_runs(Vec::new()).is_empty());
}

#[test]
fn test_full_pipeline() {
    let options = PipelineOptions {
        script: None,
        direction: TextDirection::LeftToRight,
        ligatures: true,
        contextual_alternates: true,
        normalize: false,
        normalization_form: NormalizationForm::NFC,
    };
    let runs = shape_text_glyphs("Hello World", &options);
    assert!(!runs.is_empty());
}

#[test]
fn harfbuzz_shape_simple_text() {
    // A font whose bytes hold no face shapes one glyph per character.
    let shaped = shape_units(&[], "Hello", TextDirection::LeftToRight);
    assert!(matches!(&shaped, ShapedUnits::Fallback(ids) if !ids.is_empty()));
}

#[test]
fn harfbuzz_extended_shape_simple_text() {
    let shaped = shape_units(&[], "Hello", TextDirection::LeftToRight);
    match shaped {
        ShapedUnits::Fallback(ids) => assert_eq!(ids, vec!['H' as u32, 'e' as u32, 'l' as u32, 'l' as u32, 'o' as u32]),
        ShapedUnits::Font(_) => panic!("empty bytes parsed as a font"),
    }
    let rtl = shape_units(&[1, 2, 3], "\u{05D0}b", TextDirection::RightToLeft);
    assert!(matches!(rtl, ShapedUnits::Fallback(ids) if ids == vec![0x05D0, 'b' as u32]));
}
