//! Unicode script detection, text runs and run analysis.
use vstd::prelude::*;
use crate::text_types::TextDirection;
use crate::strs::{byte_len, byte_length, char_width, chars_of, lemma_byte_len_concat, string_from_chars, utf8_width};

verus! {

/// Unicode scripts that text can be written in.
#[derive(Debug, Clone, Copy, PartialEq, Eq, Hash, Structural)]
pub enum UnicodeScript {
    Latin,
    Greek,
    Cyrillic,
    Arabic,
    Hebrew,
    Devanagari,
    Bengali,
    Gurmukhi,
    Gujarati,
    Oriya,
    Tamil,
    Telugu,
    Kannada,
    Malayalam,
    Sinhala,
    Thai,
    Lao,
    Tibetan,
    Myanmar,
    Georgian,
    Hangul,
    Ethiopic,
    Cherokee,
    CanadianAboriginal,
    Ogham,
    Runic,
    Khmer,
    Mongolian,
    Hiragana,
    Katakana,
    Bopomofo,
    Han,
    Yi,
    OldItalic,
    Gothic,
    Deseret,
    Inherited,
    Tagalog,
    Hanunoo,
    Buhid,
    Tagbanwa,
    Limbu,
    TaiLe,
    LinearB,
    Ugaritic,
    Shavian,
    Osmanya,
    Cypriot,
    Braille,
    Buginese,
    Coptic,
    NewTaiLue,
    Glagolitic,
    Tifinagh,
    SylotiNagri,
    OldPersian,
    Kharoshthi,
    Balinese,
    Cuneiform,
    Phoenician,
    PhagsPa,
    Nko,
    Unknown,
}

/// The script that the code point `code` is assigned to by the detection table.
#[verifier::opaque]
pub open spec fn script_of_code(code: u32) -> UnicodeScript {
    if code <= 0x024F {
        UnicodeScript::Latin
    } else if (0x0370 <= code <= 0x03FF) || (0x1F00 <= code <= 0x1FFF) {
        UnicodeScript::Greek
    } else if 0x0400 <= code <= 0x052F {
        UnicodeScript::Cyrillic
    } else if (0x0600 <= code <= 0x06FF) || (0x0750 <= code <= 0x077F) || (0x08A0 <= code <= 0x08FF) {
        UnicodeScript::Arabic
    } else if 0x0590 <= code <= 0x05FF {
        UnicodeScript::Hebrew
    } else if 0x0900 <= code <= 0x097F {
        UnicodeScript::Devanagari
    } else if 0x0980 <= code <= 0x09FF {
        UnicodeScript::Bengali
    } else if 0x0A00 <= code <= 0x0A7F {
        UnicodeScript::Gurmukhi
    } else if 0x0A80 <= code <= 0x0AFF {
        UnicodeScript::Gujarati
    } else if 0x0B00 <= code <= 0x0B7F {
        UnicodeScript::Oriya
    } else if 0x0B80 <= code <= 0x0BFF {
        UnicodeScript::Tamil
    } else if 0x0C00 <= code <= 0x0C7F {
        UnicodeScript::Telugu
    } else if 0x0C80 <= code <= 0x0CFF {
        UnicodeScript::Kannada
    } else if 0x0D00 <= code <= 0x0D7F {
        UnicodeScript::Malayalam
    } else if 0x0D80 <= code <= 0x0DFF {
        UnicodeScript::Sinhala
    } else if 0x0E00 <= code <= 0x0E7F {
        UnicodeScript::Thai
    } else if 0x0E80 <= code <= 0x0EFF {
        UnicodeScript::Lao
    } else if 0x0F00 <= code <= 0x0FFF {
        UnicodeScript::Tibetan
    } else if 0x1000 <= code <= 0x109F {
        UnicodeScript::Myanmar
    } else if (0x10A0 <= code <= 0x10FF) || (0x2D00 <= code <= 0x2D2F) {
        UnicodeScript::Georgian
    } else if (0x1100 <= code <= 0x11FF) || (0x3130 <= code <= 0x318F) || (0xAC00 <= code <= 0xD7AF) {
        UnicodeScript::Hangul
    } else if (0x1200 <= code <= 0x139F) || (0x2D80 <= code <= 0x2DDF) {
        UnicodeScript::Ethiopic
    } else if 0x13A0 <= code <= 0x13FF {
        UnicodeScript::Cherokee
    } else if 0x1400 <= code <= 0x167F {
        UnicodeScript::CanadianAboriginal
    } else if 0x1680 <= code <= 0x169F {
        UnicodeScript::Ogham
    } else if 0x16A0 <= code <= 0x16FF {
        UnicodeScript::Runic
    } else if (0x1780 <= code <= 0x17FF) || (0x19E0 <= code <= 0x19FF) {
        UnicodeScript::Khmer
    } else if 0x1800 <= code <= 0x18AF {
        UnicodeScript::Mongolian
    } else if 0x3040 <= code <= 0x309F {
        UnicodeScript::Hiragana
    } else if (0x30A0 <= code <= 0x30FF) || (0x31F0 <= code <= 0x31FF) {
        UnicodeScript::Katakana
    } else if (0x3100 <= code <= 0x312F) || (0x31A0 <= code <= 0x31BF) {
        UnicodeScript::Bopomofo
    } else if (0x4E00 <= code <= 0x9FFF) || (0x3400 <= code <= 0x4DBF) || (0x20000 <= code <= 0x2A6DF) {
        UnicodeScript::Han
    } else if 0xA000 <= code <= 0xA4CF {
        UnicodeScript::Yi
    } else {
        UnicodeScript::Unknown
    }
}

/// The script of a character.
pub open spec fn script_of(c: char) -> UnicodeScript {
    script_of_code(c as u32)
}

/// Scripts that require complex (contextual) shaping.
pub open spec fn spec_requires_complex_shaping(s: UnicodeScript) -> bool {
    matches!(s,
        UnicodeScript::Arabic | UnicodeScript::Hebrew | UnicodeScript::Devanagari
        | UnicodeScript::Bengali | UnicodeScript::Gurmukhi | UnicodeScript::Gujarati
        | UnicodeScript::Oriya | UnicodeScript::Tamil | UnicodeScript::Telugu
        | UnicodeScript::Kannada | UnicodeScript::Malayalam | UnicodeScript::Sinhala
        | UnicodeScript::Thai | UnicodeScript::Lao | UnicodeScript::Tibetan
        | UnicodeScript::Myanmar | UnicodeScript::Khmer)
}

/// The default writing direction of a script: right to left for Arabic and Hebrew.
pub open spec fn spec_default_direction(s: UnicodeScript) -> TextDirection {
    match s {
        UnicodeScript::Arabic | UnicodeScript::Hebrew => TextDirection::RightToLeft,
        _ => TextDirection::LeftToRight,
    }
}

/// Scripts that do not start or end a script run on their own.
pub open spec fn is_neutral_script(s: UnicodeScript) -> bool {
    s == UnicodeScript::Inherited || s == UnicodeScript::Unknown
}

impl UnicodeScript {
    /// Detects the script of a character from its code point.
    pub fn from_char(ch: char) -> (r: Self)
        ensures
            r == script_of(ch),
    {
        reveal(script_of_code);
        let code = ch as u32;
        if code <= 0x024F {
            UnicodeScript::Latin
        } else if (0x0370 <= code && code <= 0x03FF) || (0x1F00 <= code && code <= 0x1FFF) {
            UnicodeScript::Greek
        } else if 0x0400 <= code && code <= 0x052F {
            UnicodeScript::Cyrillic
        } else if (0x0600 <= code && code <= 0x06FF) || (0x0750 <= code && code <= 0x077F) || (
        0x08A0 <= code && code <= 0x08FF) {
            UnicodeScript::Arabic
        } else if 0x0590 <= code && code <= 0x05FF {
            UnicodeScript::Hebrew
        } else if 0x0900 <= code && code <= 0x097F {
            UnicodeScript::Devanagari
        } else if 0x0980 <= code && code <= 0x09FF {
            UnicodeScript::Bengali
        } else if 0x0A00 <= code && code <= 0x0A7F {
            UnicodeScript::Gurmukhi
        } else if 0x0A80 <= code && code <= 0x0AFF {
            UnicodeScript::Gujarati
        } else if 0x0B00 <= code && code <= 0x0B7F {
            UnicodeScript::Oriya
        } else if 0x0B80 <= code && code <= 0x0BFF {
            UnicodeScript::Tamil
        } else if 0x0C00 <= code && code <= 0x0C7F {
            UnicodeScript::Telugu
        } else if 0x0C80 <= code && code <= 0x0CFF {
            UnicodeScript::Kannada
        } else if 0x0D00 <= code && code <= 0x0D7F {
            UnicodeScript::Malayalam
        } else if 0x0D80 <= code && code <= 0x0DFF {
            UnicodeScript::Sinhala
        } else if 0x0E00 <= code && code <= 0x0E7F {
            UnicodeScript::Thai
        } else if 0x0E80 <= code && code <= 0x0EFF {
            UnicodeScript::Lao
        } else if 0x0F00 <= code && code <= 0x0FFF {
            UnicodeScript::Tibetan
        } else if 0x1000 <= code && code <= 0x109F {
            UnicodeScript::Myanmar
        } else if (0x10A0 <= code && code <= 0x10FF) || (0x2D00 <= code && code <= 0x2D2F) {
            UnicodeScript::Georgian
        } else if (0x1100 <= code && code <= 0x11FF) || (0x3130 <= code && code <= 0x318F) || (
        0xAC00 <= code && code <= 0xD7AF) {
            UnicodeScript::Hangul
        } else if (0x1200 <= code && code <= 0x139F) || (0x2D80 <= code && code <= 0x2DDF) {
            UnicodeScript::Ethiopic
        } else if 0x13A0 <= code && code <= 0x13FF {
            UnicodeScript::Cherokee
        } else if 0x1400 <= code && code <= 0x167F {
            UnicodeScript::CanadianAboriginal
        } else if 0x1680 <= code && code <= 0x169F {
            UnicodeScript::Ogham
        } else if 0x16A0 <= code && code <= 0x16FF {
            UnicodeScript::Runic
        } else if (0x1780 <= code && code <= 0x17FF) || (0x19E0 <= code && code <= 0x19FF) {
            UnicodeScript::Khmer
        } else if 0x1800 <= code && code <= 0x18AF {
            UnicodeScript::Mongolian
        } else if 0x3040 <= code && code <= 0x309F {
            UnicodeScript::Hiragana
        } else if (0x30A0 <= code && code <= 0x30FF) || (0x31F0 <= code && code <= 0x31FF) {
            UnicodeScript::Katakana
        } else if (0x3100 <= code && code <= 0x312F) || (0x31A0 <= code && code <= 0x31BF) {
            UnicodeScript::Bopomofo
        } else if (0x4E00 <= code && code <= 0x9FFF) || (0x3400 <= code && code <= 0x4DBF) || (
        0x20000 <= code && code <= 0x2A6DF) {
            UnicodeScript::Han
        } else if 0xA000 <= code && code <= 0xA4CF {
            UnicodeScript::Yi
        } else {
            UnicodeScript::Unknown
        }
    }

    /// Whether the script needs complex shaping.
    pub fn requires_complex_shaping(&self) -> (r: bool)
        ensures
            r == spec_requires_complex_shaping(*self),
    {
        match self {
            UnicodeScript::Arabic | UnicodeScript::Hebrew | UnicodeScript::Devanagari
            | UnicodeScript::Bengali | UnicodeScript::Gurmukhi | UnicodeScript::Gujarati
            | UnicodeScript::Oriya | UnicodeScript::Tamil | UnicodeScript::Telugu
            | UnicodeScript::Kannada | UnicodeScript::Malayalam | UnicodeScript::Sinhala
            | UnicodeScript::Thai | UnicodeScript::Lao | UnicodeScript::Tibetan
            | UnicodeScript::Myanmar | UnicodeScript::Khmer => true,
            _ => false,
        }
    }

    /// The default text direction of the script.
    pub fn default_direction(&self) -> (r: TextDirection)
        ensures
            r == spec_default_direction(*self),
    {
        match self {
            UnicodeScript::Arabic | UnicodeScript::Hebrew => TextDirection::RightToLeft,
            _ => TextDirection::LeftToRight,
        }
    }
}


/// A run of text with one script and direction.
#[derive(Debug, Clone)]
pub struct TextRun {
    pub text: String,
    pub script: UnicodeScript,
    pub direction: TextDirection,
    pub language: Option<String>,
    pub start_index: usize,
    pub end_index: usize,
}

impl TextRun {
    /// Creates a new text run without a language hint.
    pub fn new(
        text: String,
        script: UnicodeScript,
        direction: TextDirection,
        start_index: usize,
        end_index: usize,
    ) -> (r: Self)
        ensures
            r.text == text,
            r.script == script,
            r.direction == direction,
            r.language is None,
            r.start_index == start_index,
            r.end_index == end_index,
    {
        TextRun { text, script, direction, language: None, start_index, end_index }
    }

    /// Sets the language hint.
    pub fn with_language(self, language: String) -> (r: Self)
        ensures
            r.language == Some(language),
            r.text == self.text,
            r.script == self.script,
            r.direction == self.direction,
            r.start_index == self.start_index,
            r.end_index == self.end_index,
    {
        TextRun { language: Some(language), ..self }
    }
}

/// The characters of a sequence of runs, concatenated.
pub open spec fn run_texts(runs: Seq<TextRun>) -> Seq<char>
    decreases runs.len(),
{
    if runs.len() == 0 {
        Seq::empty()
    } else {
        run_texts(runs.drop_last()) + runs.last().text@
    }
}

/// A character may stand in a run of script `s`: it has that script or is neutral.
pub open spec fn fits_run(s: UnicodeScript, c: char) -> bool {
    script_of(c) == s || is_neutral_script(script_of(c))
}

/// One run produced by script analysis, taken on its own.
#[verifier::opaque]
pub open spec fn script_run_ok(r: TextRun) -> bool {
    &&& r.text@.len() > 0
    &&& r.script != UnicodeScript::Inherited
    &&& r.direction == spec_default_direction(r.script)
    &&& r.language is None
    &&& forall|j: int| 0 <= j < r.text@.len() ==> fits_run(r.script, #[trigger] r.text@[j])
    &&& r.script != UnicodeScript::Unknown ==> exists|j: int|
        0 <= j < r.text@.len() && script_of(#[trigger] r.text@[j]) == r.script
}

/// The byte offsets of each run are those of its text within the whole text.
#[verifier::opaque]
pub open spec fn run_offsets_ok(runs: Seq<TextRun>) -> bool {
    forall|i: int|
        0 <= i < runs.len() ==> (#[trigger] runs[i]).start_index == byte_len(run_texts(runs.take(i)))
            && runs[i].end_index == runs[i].start_index + byte_len(runs[i].text@)
}

/// `runs` is the split of `cs` into maximal runs of one script, where characters of
/// neutral script join the run before them (or the first run).
pub open spec fn is_script_run_split(cs: Seq<char>, runs: Seq<TextRun>) -> bool {
    &&& run_texts(runs) == cs
    &&& forall|i: int| 0 <= i < runs.len() ==> script_run_ok(#[trigger] runs[i])
    &&& forall|i: int| 0 < i < runs.len() ==> script_of((#[trigger] runs[i]).text@[0]) == runs[i].script
    &&& forall|i: int| 0 <= i < runs.len() && (#[trigger] runs[i]).script == UnicodeScript::Unknown ==> runs.len() == 1
    &&& forall|i: int, j: int| 0 <= i && j == i + 1 && j < runs.len() ==> (#[trigger] runs[i]).script != (#[trigger] runs[j]).script
    &&& run_offsets_ok(runs)
}

proof fn lemma_byte_len_take_step(cs: Seq<char>, i: int)
    requires
        0 <= i < cs.len(),
    ensures
        byte_len(cs.take(i + 1)) == byte_len(cs.take(i)) + char_width(cs[i]),
{
    assert(cs.take(i + 1).drop_last() =~= cs.take(i));
}

proof fn lemma_byte_len_take_le(cs: Seq<char>, i: int)
    requires
        0 <= i <= cs.len(),
    ensures
        byte_len(cs.take(i)) <= byte_len(cs),
{
    lemma_byte_len_concat(cs.take(i), cs.skip(i));
    assert(cs.take(i) + cs.skip(i) =~= cs);
}

proof fn lemma_run_texts_push(runs: Seq<TextRun>, r: TextRun)
    ensures
        run_texts(runs.push(r)) == run_texts(runs) + r.text@,
{
    assert(runs.push(r).drop_last() =~= runs);
}

/// The completed runs of an analysis in progress.
#[verifier::opaque]
spec fn done_runs_ok(runs: Seq<TextRun>) -> bool {
    &&& forall|k: int| 0 <= k < runs.len() ==> script_run_ok(#[trigger] runs[k])
    &&& forall|k: int| 0 <= k < runs.len() ==> (#[trigger] runs[k]).script != UnicodeScript::Unknown
    &&& forall|k: int| 0 < k < runs.len() ==> script_of((#[trigger] runs[k]).text@[0]) == runs[k].script
    &&& forall|k: int, l: int| 0 <= k && l == k + 1 && l < runs.len() ==> (#[trigger] runs[k]).script != (#[trigger] runs[l]).script
    &&& run_offsets_ok(runs)
}

/// The run being collected, relative to the completed runs.
#[verifier::opaque]
spec fn open_run_ok(runs: Seq<TextRun>, cur: Seq<char>, cur_script: UnicodeScript) -> bool {
    &&& runs.len() > 0 ==> cur.len() > 0 && cur_script != runs.last().script && script_of(cur[0])
        == cur_script && !is_neutral_script(cur_script)
    &&& cur_script != UnicodeScript::Inherited
    &&& cur_script == UnicodeScript::Unknown ==> runs.len() == 0
    &&& forall|j: int| 0 <= j < cur.len() ==> fits_run(cur_script, #[trigger] cur[j])
    &&& cur_script != UnicodeScript::Unknown ==> exists|j: int|
        0 <= j < cur.len() && script_of(#[trigger] cur[j]) == cur_script
}

proof fn lemma_offsets_push(runs: Seq<TextRun>, cur: Seq<char>, run: TextRun)
    requires
        run_offsets_ok(runs),
        run.text@ == cur,
        run.start_index == byte_len(run_texts(runs)),
        run.end_index == byte_len(run_texts(runs) + cur),
    ensures
        run_offsets_ok(runs.push(run)),
{
    reveal(run_offsets_ok);
    lemma_run_texts_push(runs, run);
    lemma_byte_len_concat(run_texts(runs), cur);
    let rs = runs.push(run);
    assert forall|k: int| 0 <= k < rs.len() implies (#[trigger] rs[k]).start_index == byte_len(
        run_texts(rs.take(k)),
    ) && rs[k].end_index == rs[k].start_index + byte_len(rs[k].text@) by {
        if k < runs.len() {
            assert(rs.take(k) =~= runs.take(k));
        } else {
            assert(rs.take(k) =~= runs);
        }
    }
}

proof fn lemma_close_run_ok(runs: Seq<TextRun>, cur: Seq<char>, cur_script: UnicodeScript, run: TextRun)
    requires
        open_run_ok(runs, cur, cur_script),
        cur.len() > 0 || cur_script != UnicodeScript::Unknown,
        run.text@ == cur,
        run.script == cur_script,
        run.direction == spec_default_direction(cur_script),
        run.language is None,
    ensures
        script_run_ok(run),
        runs.len() > 0 ==> runs.last().script != run.script && run.text@.len() > 0 && script_of(run.text@[0]) == run.script,
        cur_script == UnicodeScript::Unknown ==> runs.len() == 0,
{
    reveal(open_run_ok);
    reveal(script_run_ok);
    if cur_script != UnicodeScript::Unknown {
        let j = choose|j: int| 0 <= j < cur.len() && script_of(#[trigger] cur[j]) == cur_script;
        assert(cur.len() > 0);
    }
}

proof fn lemma_close_done(runs: Seq<TextRun>, run: TextRun)
    requires
        done_runs_ok(runs),
        script_run_ok(run),
        run.script != UnicodeScript::Unknown,
        runs.len() > 0 ==> runs.last().script != run.script && script_of(run.text@[0]) == run.script,
        run_offsets_ok(runs.push(run)),
    ensures
        done_runs_ok(runs.push(run)),
{
    reveal(done_runs_ok);
    let rs = runs.push(run);
    assert forall|k: int, l: int| 0 <= k && l == k + 1 && l < rs.len() implies (#[trigger] rs[k]).script != (#[trigger] rs[l]).script by {
        if k == runs.len() - 1 {
            assert(rs[k] == runs.last());
        } else {
            assert(rs[k] == runs[k]);
            assert(rs[l] == runs[l]);
        }
    }
    assert forall|k: int| 0 < k < rs.len() implies script_of((#[trigger] rs[k]).text@[0]) == rs[k].script by {
        if k < runs.len() {
            assert(rs[k] == runs[k]);
        }
    }
    assert forall|k: int| 0 <= k < rs.len() implies script_run_ok(#[trigger] rs[k]) by {
        if k < runs.len() {
            assert(rs[k] == runs[k]);
        }
    }
    assert forall|k: int| 0 <= k < rs.len() implies (#[trigger] rs[k]).script != UnicodeScript::Unknown by {
        if k < runs.len() {
            assert(rs[k] == runs[k]);
        }
    }
}

proof fn lemma_close_run(runs: Seq<TextRun>, cur: Seq<char>, cur_script: UnicodeScript, run: TextRun)
    requires
        done_runs_ok(runs),
        open_run_ok(runs, cur, cur_script),
        cur.len() > 0 || cur_script != UnicodeScript::Unknown,
        run.text@ == cur,
        run.script == cur_script,
        run.direction == spec_default_direction(cur_script),
        run.language is None,
        run.start_index == byte_len(run_texts(runs)),
        run.end_index == byte_len(run_texts(runs) + cur),
    ensures
        run_texts(runs.push(run)) == run_texts(runs) + cur,
        script_run_ok(run),
        runs.len() > 0 ==> runs.last().script != run.script && script_of(run.text@[0]) == run.script,
        run_offsets_ok(runs.push(run)),
        cur_script != UnicodeScript::Unknown ==> done_runs_ok(runs.push(run)),
        cur_script == UnicodeScript::Unknown ==> runs.len() == 0,
{
    lemma_run_texts_push(runs, run);
    assert(run_offsets_ok(runs)) by {
        reveal(done_runs_ok);
    }
    lemma_offsets_push(runs, cur, run);
    lemma_close_run_ok(runs, cur, cur_script, run);
    if cur_script != UnicodeScript::Unknown {
        lemma_close_done(runs, run);
    }
}

proof fn lemma_extend_same(runs: Seq<TextRun>, cur: Seq<char>, cur_script: UnicodeScript, ch: char)
    requires
        open_run_ok(runs, cur, cur_script),
        fits_run(cur_script, ch),
    ensures
        open_run_ok(runs, cur.push(ch), cur_script),
{
    reveal(open_run_ok);
    let c2 = cur.push(ch);
    assert(c2[c2.len() - 1] == ch);
    if runs.len() > 0 {
        assert(c2[0] == cur[0]);
    }
    if cur_script != UnicodeScript::Unknown {
        let j = choose|j: int| 0 <= j < cur.len() && script_of(#[trigger] cur[j]) == cur_script;
        assert(c2[j] == cur[j]);
    }
    assert forall|j: int| 0 <= j < c2.len() implies fits_run(cur_script, #[trigger] c2[j]) by {
        if j < cur.len() {
            assert(c2[j] == cur[j]);
        }
    }
}

proof fn lemma_adopt_extend(runs: Seq<TextRun>, cur: Seq<char>, ch: char)
    requires
        open_run_ok(runs, cur, UnicodeScript::Unknown),
        !is_neutral_script(script_of(ch)),
    ensures
        open_run_ok(runs, cur.push(ch), script_of(ch)),
{
    reveal(open_run_ok);
    let c2 = cur.push(ch);
    assert(c2[c2.len() - 1] == ch);
    assert forall|j: int| 0 <= j < c2.len() implies fits_run(script_of(ch), #[trigger] c2[j]) by {
        if j < cur.len() {
            assert(c2[j] == cur[j]);
            assert(fits_run(UnicodeScript::Unknown, cur[j]));
        }
    }
}

proof fn lemma_start_run(runs: Seq<TextRun>, run: TextRun, ch: char)
    requires
        !is_neutral_script(script_of(ch)),
        run.script != script_of(ch),
    ensures
        open_run_ok(runs.push(run), seq![ch], script_of(ch)),
{
    reveal(open_run_ok);
    let c = seq![ch];
    assert(c[0] == ch);
    assert(runs.push(run).last() == run);
}

proof fn lemma_finish(runs: Seq<TextRun>, cur: Seq<char>, cur_script: UnicodeScript, run: TextRun, cs: Seq<char>)
    requires
        done_runs_ok(runs),
        open_run_ok(runs, cur, cur_script),
        cur.len() > 0,
        run.text@ == cur,
        run.script == cur_script,
        run.direction == spec_default_direction(cur_script),
        run.language is None,
        run.start_index == byte_len(run_texts(runs)),
        run.end_index == byte_len(run_texts(runs) + cur),
        run_texts(runs) + cur == cs,
    ensures
        is_script_run_split(cs, runs.push(run)),
{
    lemma_close_run(runs, cur, cur_script, run);
    let rs = runs.push(run);
    if cur_script != UnicodeScript::Unknown {
        reveal(done_runs_ok);
        assert forall|k: int| 0 <= k < rs.len() && (#[trigger] rs[k]).script == UnicodeScript::Unknown implies rs.len() == 1 by {
        }
    } else {
        assert(runs.len() == 0);
        assert(rs.len() == 1);
        assert(rs[0] == run);
    }
}

proof fn lemma_empty_split(cs: Seq<char>)
    requires
        cs.len() == 0,
    ensures
        is_script_run_split(cs, Seq::<TextRun>::empty()),
{
    assert(run_texts(Seq::<TextRun>::empty()) =~= cs);
    reveal(run_offsets_ok);
}

/// Script run analysis.
pub struct ScriptRunAnalyzer;

impl ScriptRunAnalyzer {
    /// Splits text into runs of one script each.
    pub fn analyze(text: &str) -> (runs: Vec<TextRun>)
        ensures
            is_script_run_split(text@, runs@),
    {
        let total = byte_length(text);
        let cs = chars_of(text);
        let mut runs: Vec<TextRun> = Vec::new();
        let mut cur_script = UnicodeScript::Unknown;
        let mut cur_start: usize = 0;
        let mut cur: Vec<char> = Vec::new();
        let mut byte_pos: usize = 0;
        let mut i: usize = 0;
        proof {
            assert(run_texts(runs@) + cur@ =~= cs@.take(0));
        }
        proof {
            reveal(done_runs_ok);
            reveal(open_run_ok);
            reveal(run_offsets_ok);
        }
        while i < cs.len()
            invariant
                cs@ == text@,
                byte_len(text@) <= usize::MAX,
                i <= cs@.len(),
                byte_pos == byte_len(cs@.take(i as int)),
                run_texts(runs@) + cur@ == cs@.take(i as int),
                cur_start == byte_len(run_texts(runs@)),
                done_runs_ok(runs@),
                open_run_ok(runs@, cur@, cur_script),
            decreases cs@.len() - i,
        {
            let ch = cs[i];
            let script = UnicodeScript::from_char(ch);
            let ghost pre_runs = runs@;
            let ghost pre_cur = cur@;
            if !(script == UnicodeScript::Inherited || script == UnicodeScript::Unknown) {
                if script != cur_script && cur_script != UnicodeScript::Unknown {
                    let run_text = string_from_chars(cur.as_slice());
                    let direction = cur_script.default_direction();
                    let run = TextRun::new(run_text, cur_script, direction, cur_start, byte_pos);
                    proof {
                        lemma_close_run(runs@, cur@, cur_script, run);
                        lemma_start_run(runs@, run, ch);
                    }
                    runs.push(run);
                    cur = Vec::new();
                    cur_start = byte_pos;
                    cur_script = script;
                    proof {
                        assert(cur@.push(ch) =~= seq![ch]);
                        assert(run_texts(runs@) + cur@ =~= cs@.take(i as int));
                    }
                } else if cur_script == UnicodeScript::Unknown {
                    proof {
                        lemma_adopt_extend(runs@, cur@, ch);
                    }
                    cur_script = script;
                } else {
                    proof {
                        lemma_extend_same(runs@, cur@, cur_script, ch);
                    }
                }
            } else {
                proof {
                    lemma_extend_same(runs@, cur@, cur_script, ch);
                }
            }
            proof {
                lemma_byte_len_take_step(cs@, i as int);
                lemma_byte_len_take_le(cs@, i + 1);
                assert(cs@.take(i + 1) =~= cs@.take(i as int).push(ch));
                assert(run_texts(runs@) + cur@.push(ch) =~= (run_texts(runs@) + cur@).push(ch));
            }
            cur.push(ch);
            byte_pos = byte_pos + utf8_width(ch);
            i = i + 1;
        }
        proof {
            assert(cs@.take(cs@.len() as int) =~= cs@);
        }
        if cur.len() > 0 {
            let run_text = string_from_chars(cur.as_slice());
            let direction = cur_script.default_direction();
            let run = TextRun::new(run_text, cur_script, direction, cur_start, total);
            proof {
                lemma_finish(runs@, cur@, cur_script, run, text@);
            }
            runs.push(run);
        } else {
            proof {
                reveal(open_run_ok);
                assert(run_texts(runs@) + cur@ =~= run_texts(runs@));
                if runs@.len() == 0 {
                    lemma_empty_split(text@);
                }
            }
        }
        runs
    }
}


/// `runs` is the split of `cs` into maximal runs of characters of one script
/// (characters of unknown script forming runs of their own).
pub open spec fn is_script_group_split(cs: Seq<char>, runs: Seq<TextRun>) -> bool {
    &&& run_texts(runs) == cs
    &&& forall|i: int| 0 <= i < runs.len() ==> group_run_ok(#[trigger] runs[i])
    &&& forall|i: int, j: int| 0 <= i && j == i + 1 && j < runs.len() ==> (#[trigger] runs[i]).script != (#[trigger] runs[j]).script
    &&& run_offsets_ok(runs)
}

/// One run of a grouping by script: non-empty, every character of the run's script.
pub open spec fn group_run_ok(r: TextRun) -> bool {
    &&& r.text@.len() > 0
    &&& r.direction == spec_default_direction(r.script)
    &&& r.language is None
    &&& forall|j: int| 0 <= j < r.text@.len() ==> script_of(#[trigger] r.text@[j]) == r.script
}

#[verifier::opaque]
spec fn open_group_ok(runs: Seq<TextRun>, cur: Seq<char>, cur_script: UnicodeScript) -> bool {
    &&& forall|i: int| 0 <= i < runs.len() ==> group_run_ok(#[trigger] runs[i])
    &&& forall|i: int, j: int| 0 <= i && j == i + 1 && j < runs.len() ==> (#[trigger] runs[i]).script != (#[trigger] runs[j]).script
    &&& run_offsets_ok(runs)
    &&& runs.len() > 0 ==> cur.len() > 0 && cur_script != runs.last().script
    &&& forall|j: int| 0 <= j < cur.len() ==> script_of(#[trigger] cur[j]) == cur_script
}

proof fn lemma_group_close(runs: Seq<TextRun>, cur: Seq<char>, cur_script: UnicodeScript, run: TextRun)
    requires
        open_group_ok(runs, cur, cur_script),
        cur.len() > 0,
        run.text@ == cur,
        run.script == cur_script,
        run.direction == spec_default_direction(cur_script),
        run.language is None,
        run.start_index == byte_len(run_texts(runs)),
        run.end_index == byte_len(run_texts(runs) + cur),
    ensures
        run_texts(runs.push(run)) == run_texts(runs) + cur,
        forall|i: int| 0 <= i < runs.push(run).len() ==> group_run_ok(#[trigger] runs.push(run)[i]),
        forall|i: int, j: int| 0 <= i && j == i + 1 && j < runs.push(run).len() ==> (#[trigger] runs.push(run)[i]).script != (#[trigger] runs.push(run)[j]).script,
        run_offsets_ok(runs.push(run)),
{
    reveal(open_group_ok);
    lemma_run_texts_push(runs, run);
    lemma_offsets_push(runs, cur, run);
    let rs = runs.push(run);
    assert forall|i: int| 0 <= i < rs.len() implies group_run_ok(#[trigger] rs[i]) by {
        if i < runs.len() {
            assert(rs[i] == runs[i]);
        }
    }
    assert forall|i: int, j: int| 0 <= i && j == i + 1 && j < rs.len() implies (#[trigger] rs[i]).script != (#[trigger] rs[j]).script by {
        if j == runs.len() {
            assert(rs[i] == runs.last());
        } else {
            assert(rs[i] == runs[i]);
            assert(rs[j] == runs[j]);
        }
    }
}

proof fn lemma_group_start(runs: Seq<TextRun>, run: TextRun, ch: char)
    requires
        forall|i: int| 0 <= i < runs.push(run).len() ==> group_run_ok(#[trigger] runs.push(run)[i]),
        forall|i: int, j: int| 0 <= i && j == i + 1 && j < runs.push(run).len() ==> (#[trigger] runs.push(run)[i]).script != (#[trigger] runs.push(run)[j]).script,
        run_offsets_ok(runs.push(run)),
        run.script != script_of(ch),
    ensures
        open_group_ok(runs.push(run), seq![ch], script_of(ch)),
{
    reveal(open_group_ok);
    assert(seq![ch][0] == ch);
}

proof fn lemma_group_extend(runs: Seq<TextRun>, cur: Seq<char>, cur_script: UnicodeScript, ch: char)
    requires
        open_group_ok(runs, cur, cur_script),
        script_of(ch) == cur_script,
    ensures
        open_group_ok(runs, cur.push(ch), cur_script),
{
    reveal(open_group_ok);
    let c2 = cur.push(ch);
    assert forall|j: int| 0 <= j < c2.len() implies script_of(#[trigger] c2[j]) == cur_script by {
        if j < cur.len() {
            assert(c2[j] == cur[j]);
        }
    }
}

/// Splits text into runs by script.
pub struct TextRunSplitter;

impl TextRunSplitter {
    /// Splits text into maximal runs of characters that share a script.
    pub fn split(text: &str) -> (runs: Vec<TextRun>)
        ensures
            is_script_group_split(text@, runs@),
    {
        let total = byte_length(text);
        let cs = chars_of(text);
        let mut runs: Vec<TextRun> = Vec::new();
        let mut current_script = UnicodeScript::Unknown;
        let mut current_direction = TextDirection::LeftToRight;
        let mut current_start: usize = 0;
        let mut cur: Vec<char> = Vec::new();
        let mut byte_pos: usize = 0;
        let mut i: usize = 0;
        proof {
            reveal(open_group_ok);
            reveal(run_offsets_ok);
            assert(run_texts(runs@) + cur@ =~= cs@.take(0));
        }
        while i < cs.len()
            invariant
                cs@ == text@,
                byte_len(text@) <= usize::MAX,
                i <= cs@.len(),
                byte_pos == byte_len(cs@.take(i as int)),
                run_texts(runs@) + cur@ == cs@.take(i as int),
                current_start == byte_len(run_texts(runs@)),
                open_group_ok(runs@, cur@, current_script),
                current_direction == spec_default_direction(current_script),
                cur@.len() == 0 ==> runs@.len() == 0 && current_script == UnicodeScript::Unknown,
            decreases cs@.len() - i,
        {
            let ch = cs[i];
            let script = UnicodeScript::from_char(ch);
            let direction = script.default_direction();
            let needs_new_run = script != current_script || direction != current_direction || (
            script != UnicodeScript::Unknown && current_script == UnicodeScript::Unknown);
            if needs_new_run && cur.len() > 0 {
                let run_text = string_from_chars(cur.as_slice());
                let run = TextRun::new(run_text, current_script, current_direction, current_start, byte_pos);
                proof {
                    lemma_group_close(runs@, cur@, current_script, run);
                    lemma_group_start(runs@, run, ch);
                }
                runs.push(run);
                cur = Vec::new();
                current_start = byte_pos;
                current_script = script;
                current_direction = direction;
                proof {
                    assert(cur@.push(ch) =~= seq![ch]);
                    assert(run_texts(runs@) + cur@ =~= cs@.take(i as int));
                }
            } else {
                if script != UnicodeScript::Unknown {
                    current_script = script;
                    current_direction = direction;
                }
                proof {
                    if cur@.len() == 0 {
                        reveal(open_group_ok);
                        assert(cur@.push(ch) =~= seq![ch]);
                        assert(seq![ch][0] == ch);
                        assert(current_script == script_of(ch));
                    } else {
                        lemma_group_extend(runs@, cur@, current_script, ch);
                    }
                }
            }
            proof {
                lemma_byte_len_take_step(cs@, i as int);
                lemma_byte_len_take_le(cs@, i + 1);
                assert(cs@.take(i + 1) =~= cs@.take(i as int).push(ch));
                assert(run_texts(runs@) + cur@.push(ch) =~= (run_texts(runs@) + cur@).push(ch));
            }
            cur.push(ch);
            byte_pos = byte_pos + utf8_width(ch);
            i = i + 1;
        }
        proof {
            assert(cs@.take(cs@.len() as int) =~= cs@);
        }
        if cur.len() > 0 {
            let run_text = string_from_chars(cur.as_slice());
            let run = TextRun::new(run_text, current_script, current_direction, current_start, total);
            proof {
                lemma_group_close(runs@, cur@, current_script, run);
            }
            runs.push(run);
        } else {
            proof {
                assert(run_texts(runs@) + cur@ =~= run_texts(runs@));
                reveal(run_offsets_ok);
            }
        }
        runs
    }
}


/// The plain-value content of a text run.
pub struct RunView {
    pub text: Seq<char>,
    pub script: UnicodeScript,
    pub direction: TextDirection,
    pub language: Option<Seq<char>>,
    pub start_index: usize,
    pub end_index: usize,
}

impl View for TextRun {
    type V = RunView;

    open spec fn view(&self) -> RunView {
        RunView {
            text: self.text@,
            script: self.script,
            direction: self.direction,
            language: match self.language {
                Some(l) => Some(l@),
                None => None,
            },
            start_index: self.start_index,
            end_index: self.end_index,
        }
    }
}

/// The views of a sequence of runs.
pub open spec fn run_views(runs: Seq<TextRun>) -> Seq<RunView> {
    runs.map_values(|r: TextRun| r@)
}

/// Adjacent runs with the same script and direction, merged: the text of a merged run
/// is the concatenation of the texts, it keeps the first run's start and language and
/// takes the last run's end.
pub open spec fn merged_views(vs: Seq<RunView>) -> Seq<RunView>
    decreases vs.len(),
{
    if vs.len() == 0 {
        Seq::empty()
    } else {
        let m = merged_views(vs.drop_last());
        let r = vs.last();
        if m.len() > 0 && m.last().script == r.script && m.last().direction == r.direction {
            m.drop_last().push(RunView { text: m.last().text + r.text, end_index: r.end_index, ..m.last() })
        } else {
            m.push(r)
        }
    }
}

/// A copy of a text run.
pub fn copy_run(run: &TextRun) -> (r: TextRun)
    ensures
        r@ == run@,
{
    let language = match &run.language {
        Some(l) => Some(l.clone()),
        None => None,
    };
    TextRun {
        text: run.text.clone(),
        script: run.script,
        direction: run.direction,
        language,
        start_index: run.start_index,
        end_index: run.end_index,
    }
}

proof fn lemma_merged_nonempty(vs: Seq<RunView>)
    requires
        vs.len() > 0,
    ensures
        merged_views(vs).len() > 0,
{
}

impl TextRunSplitter {
    /// Merges adjacent runs that have the same script and direction.
    pub fn merge_runs(runs: Vec<TextRun>) -> (merged: Vec<TextRun>)
        ensures
            run_views(merged@) == merged_views(run_views(runs@)),
    {
        if runs.len() == 0 {
            assert(run_views(runs@) =~= Seq::<RunView>::empty());
            return runs;
        }
        let mut merged: Vec<TextRun> = Vec::new();
        let mut current = copy_run(&runs[0]);
        let mut i: usize = 1;
        proof {
            let v1 = run_views(runs@.take(1));
            assert(v1.drop_last() =~= Seq::<RunView>::empty());
            assert(merged_views(v1.drop_last()) =~= Seq::<RunView>::empty());
            assert(v1.last() == runs@[0]@);
            assert(run_views(merged@) =~= Seq::<RunView>::empty());
            assert(run_views(merged@).push(current@) =~= merged_views(v1));
        }
        while i < runs.len()
            invariant
                1 <= i <= runs@.len(),
                run_views(merged@).push(current@) == merged_views(run_views(runs@.take(i as int))),
            decreases runs@.len() - i,
        {
            let ghost pre = run_views(runs@.take(i as int));
            proof {
                assert(run_views(runs@.take(i + 1)).drop_last() =~= pre);
                assert(run_views(runs@.take(i + 1)).last() == runs@[i as int]@);
                lemma_merged_nonempty(pre);
            }
            let run = &runs[i];
            if run.script == current.script && run.direction == current.direction {
                let ghost before = current@;
                crate::strs::push_str(&mut current.text, run.text.as_str());
                current.end_index = run.end_index;
                proof {
                    assert(run_views(merged@).push(current@) =~= run_views(merged@).push(before).drop_last().push(
                        RunView { text: before.text + run@.text, end_index: run@.end_index, ..before },
                    ));
                }
            } else {
                let ghost before = current@;
                let ghost old_merged = merged@;
                merged.push(current);
                current = copy_run(run);
                proof {
                    assert(run_views(merged@) =~= run_views(old_merged).push(before));
                }
            }
            i = i + 1;
        }
        proof {
            assert(runs@.take(runs@.len() as int) =~= runs@);
        }
        let ghost before = current@;
        let ghost old_merged = merged@;
        merged.push(current);
        proof {
            assert(run_views(merged@) =~= run_views(old_merged).push(before));
        }
        merged
    }
}


/// The left-to-right runs, in order.
pub open spec fn ltr_runs(runs: Seq<TextRun>) -> Seq<TextRun>
    decreases runs.len(),
{
    if runs.len() == 0 {
        Seq::empty()
    } else if runs.last().direction == TextDirection::LeftToRight {
        ltr_runs(runs.drop_last()).push(runs.last())
    } else {
        ltr_runs(runs.drop_last())
    }
}

/// The right-to-left runs, in reverse order.
pub open spec fn rtl_runs_reversed(runs: Seq<TextRun>) -> Seq<TextRun>
    decreases runs.len(),
{
    if runs.len() == 0 {
        Seq::empty()
    } else if runs.last().direction == TextDirection::RightToLeft {
        seq![runs.last()] + rtl_runs_reversed(runs.drop_last())
    } else {
        rtl_runs_reversed(runs.drop_last())
    }
}

/// Visual order of runs: left-to-right runs first, in order, then right-to-left runs reversed.
pub open spec fn bidi_order(runs: Seq<TextRun>) -> Seq<TextRun> {
    ltr_runs(runs) + rtl_runs_reversed(runs)
}

/// Direction of a paragraph: that of its first character whose script needs complex
/// shaping, left to right when there is none.
pub open spec fn paragraph_direction(cs: Seq<char>) -> TextDirection
    decreases cs.len(),
{
    if cs.len() == 0 {
        TextDirection::LeftToRight
    } else if spec_requires_complex_shaping(script_of(cs[0])) {
        spec_default_direction(script_of(cs[0]))
    } else {
        paragraph_direction(cs.drop_first())
    }
}

/// Bidirectional text analysis.
pub struct BiDiAnalyzer;

impl BiDiAnalyzer {
    /// Splits text into script runs and puts them in visual order. The split is the
    /// text's one split into script runs (`law_script_run_split_is_unique`), so the
    /// result is, run for run, that split in visual order.
    pub fn analyze(text: &str) -> (runs: Vec<TextRun>)
        ensures
            exists|split: Seq<TextRun>| is_script_run_split(text@, split) && runs@ == bidi_order(split),
            forall|split: Seq<TextRun>| #[trigger] is_script_run_split(text@, split)
                ==> run_views(runs@) == run_views(bidi_order(split)),
    {
        let mut runs = ScriptRunAnalyzer::analyze(text);
        let ghost split = runs@;
        let paragraph = Self::detect_paragraph_direction(text);
        Self::resolve_embedding_levels(&mut runs, paragraph);
        Self::reorder_runs(&mut runs);
        proof {
            let w = choose|s: Seq<TextRun>| is_script_run_split(text@, s) && runs@ == bidi_order(s);
            assert forall|other: Seq<TextRun>| #[trigger] is_script_run_split(text@, other)
                implies run_views(runs@) == run_views(bidi_order(other)) by {
                law_bidi_analysis_is_script_runs_in_visual_order(text@, other, w, runs@);
            }
        }
        runs
    }

    /// Direction of the paragraph from its first character with a complex script.
    pub fn detect_paragraph_direction(text: &str) -> (r: TextDirection)
        ensures
            r == paragraph_direction(text@),
    {
        let cs = chars_of(text);
        let mut i: usize = 0;
        assert(cs@.skip(0) =~= cs@);
        while i < cs.len()
            invariant
                cs@ == text@,
                i <= cs@.len(),
                paragraph_direction(cs@) == paragraph_direction(cs@.skip(i as int)),
            decreases cs@.len() - i,
        {
            let script = UnicodeScript::from_char(cs[i]);
            proof {
                assert(cs@.skip(i as int)[0] == cs@[i as int]);
                assert(cs@.skip(i as int).drop_first() =~= cs@.skip(i + 1));
            }
            if script.requires_complex_shaping() {
                return script.default_direction();
            }
            i = i + 1;
        }
        proof {
            assert(cs@.skip(i as int) =~= Seq::<char>::empty());
        }
        TextDirection::LeftToRight
    }

    /// Resolves embedding levels of the runs against the paragraph direction; runs
    /// whose direction differs from it keep their direction, so nothing changes.
    pub fn resolve_embedding_levels(runs: &mut Vec<TextRun>, base_direction: TextDirection)
        ensures
            final(runs)@ == old(runs)@,
    {
    }

    /// Puts runs in visual order: left-to-right runs first, then right-to-left runs reversed.
    pub fn reorder_runs(runs: &mut Vec<TextRun>)
        ensures
            final(runs)@ == bidi_order(old(runs)@),
    {
        let ghost orig = runs@;
        let mut ltr_stack: Vec<TextRun> = Vec::new();
        let mut rtl: Vec<TextRun> = Vec::new();
        proof {
            assert(runs@ =~= orig.take(orig.len() as int));
            assert(ltr_stack@.reverse() =~= Seq::<TextRun>::empty());
        }
        while runs.len() > 0
            invariant
                runs@ == orig.take(runs@.len() as int),
                runs@.len() <= orig.len(),
                ltr_runs(orig) == ltr_runs(runs@) + ltr_stack@.reverse(),
                rtl_runs_reversed(orig) == rtl@ + rtl_runs_reversed(runs@),
            decreases runs@.len(),
        {
            let ghost before = runs@;
            let run = runs.pop().unwrap();
            proof {
                assert(before.drop_last() =~= runs@);
                assert(runs@ =~= orig.take(runs@.len() as int));
            }
            match run.direction {
                TextDirection::RightToLeft => {
                    let ghost old_rtl = rtl@;
                    rtl.push(run);
                    proof {
                        assert(rtl@ + rtl_runs_reversed(runs@) =~= old_rtl + (seq![run] + rtl_runs_reversed(runs@)));
                    }
                },
                TextDirection::LeftToRight => {
                    let ghost old_stack = ltr_stack@;
                    ltr_stack.push(run);
                    proof {
                        assert(ltr_stack@.reverse() =~= seq![run] + old_stack.reverse());
                        assert(ltr_runs(runs@) + ltr_stack@.reverse() =~= ltr_runs(runs@).push(run) + old_stack.reverse());
                    }
                },
            }
        }
        proof {
            assert(ltr_runs(runs@) =~= Seq::<TextRun>::empty());
            assert(rtl_runs_reversed(runs@) =~= Seq::<TextRun>::empty());
        }
        let mut result: Vec<TextRun> = Vec::new();
        while ltr_stack.len() > 0
            invariant
                ltr_runs(orig) == result@ + ltr_stack@.reverse(),
                rtl_runs_reversed(orig) == rtl@,
            decreases ltr_stack@.len(),
        {
            let ghost before = ltr_stack@;
            let run = ltr_stack.pop().unwrap();
            let ghost old_result = result@;
            result.push(run);
            proof {
                assert(before =~= ltr_stack@.push(run));
                assert(before.reverse() =~= seq![run] + ltr_stack@.reverse());
                assert(result@ + ltr_stack@.reverse() =~= old_result + before.reverse());
            }
        }
        proof {
            assert(ltr_stack@.reverse() =~= Seq::<TextRun>::empty());
            assert(result@ =~= ltr_runs(orig));
        }
        while rtl.len() > 0
            invariant
                result@ + rtl@ == bidi_order(orig),
            decreases rtl@.len(),
        {
            let ghost before = rtl@;
            let run = rtl.remove(0);
            let ghost old_result = result@;
            result.push(run);
            proof {
                assert(before =~= seq![run] + rtl@);
                assert(result@ + rtl@ =~= old_result + before);
            }
        }
        proof {
            assert(result@ =~= bidi_order(orig));
        }
        *runs = result;
    }
}

/// The text of a sequence of run views, one after the other.
pub open spec fn view_texts(vs: Seq<RunView>) -> Seq<char>
    decreases vs.len(),
{
    if vs.len() == 0 {
        Seq::empty()
    } else {
        view_texts(vs.drop_last()) + vs.last().text
    }
}

/// The text of a merged last run, kept apart so that the proofs below stay small.
proof fn lemma_view_texts_last(m: Seq<RunView>, r: RunView)
    requires
        m.len() > 0,
    ensures
        view_texts(m.drop_last().push(RunView { text: m.last().text + r.text, end_index: r.end_index, ..m.last() }))
            == view_texts(m) + r.text,
{
    let last = RunView { text: m.last().text + r.text, end_index: r.end_index, ..m.last() };
    let out = m.drop_last().push(last);
    assert(out.drop_last() =~= m.drop_last());
    assert(view_texts(out) == view_texts(m.drop_last()) + last.text);
    assert(view_texts(m.drop_last()) + (m.last().text + r.text) =~= (view_texts(m.drop_last()) + m.last().text) + r.text);
}

/// Merging runs keeps the text.
pub proof fn law_merge_keeps_text(vs: Seq<RunView>)
    ensures
        view_texts(merged_views(vs)) == view_texts(vs),
    decreases vs.len(),
{
    if vs.len() > 0 {
        law_merge_keeps_text(vs.drop_last());
        let m = merged_views(vs.drop_last());
        let r = vs.last();
        if m.len() > 0 && m.last().script == r.script && m.last().direction == r.direction {
            lemma_view_texts_last(m, r);
        } else {
            assert(m.push(r).drop_last() =~= m);
        }
    }
}

/// After merging, no two neighbouring runs have the same script and direction.
pub proof fn law_merged_neighbours_differ(vs: Seq<RunView>)
    ensures
        forall|i: int| 0 <= i && i + 1 < merged_views(vs).len() ==>
            !(#[trigger] merged_views(vs)[i].script == merged_views(vs)[i + 1].script
              && merged_views(vs)[i].direction == merged_views(vs)[i + 1].direction),
    decreases vs.len(),
{
    if vs.len() > 0 {
        law_merged_neighbours_differ(vs.drop_last());
        let m = merged_views(vs.drop_last());
        let r = vs.last();
        let out = merged_views(vs);
        if m.len() > 0 && m.last().script == r.script && m.last().direction == r.direction {
            assert forall|i: int| 0 <= i && i + 1 < out.len() implies
                !(#[trigger] out[i].script == out[i + 1].script && out[i].direction == out[i + 1].direction) by {
                assert(out[i] == m[i]);
                if i + 1 < m.len() - 1 {
                    assert(out[i + 1] == m[i + 1]);
                }
            }
        } else {
            assert forall|i: int| 0 <= i && i + 1 < out.len() implies
                !(#[trigger] out[i].script == out[i + 1].script && out[i].direction == out[i + 1].direction) by {
                assert(out[i] == m[i]);
            }
        }
    }
}

/// Runs whose neighbours all differ in script or direction merge into themselves.
/// Whether the runs at `i` and `i + 1` differ in script or direction.
pub open spec fn differs_at(vs: Seq<RunView>, i: int) -> bool {
    !(vs[i].script == vs[i + 1].script && vs[i].direction == vs[i + 1].direction)
}

/// Runs whose neighbours all differ in script or direction merge into themselves.
proof fn lemma_merge_without_equal_neighbours(vs: Seq<RunView>)
    requires
        forall|i: int| 0 <= i && i + 1 < vs.len() ==> #[trigger] differs_at(vs, i),
    ensures
        merged_views(vs) == vs,
    decreases vs.len(),
{
    if vs.len() > 0 {
        let p = vs.drop_last();
        assert forall|i: int| 0 <= i && i + 1 < p.len() implies #[trigger] differs_at(p, i) by {
            assert(differs_at(vs, i));
            assert(p[i] == vs[i] && p[i + 1] == vs[i + 1]);
        }
        lemma_merge_without_equal_neighbours(p);
        let r = vs.last();
        if p.len() > 0 {
            let k = vs.len() - 2;
            assert(differs_at(vs, k));
            assert(p.last() == vs[k]);
        }
        assert(p.push(r) =~= vs);
    }
}

/// Merging runs a second time changes nothing.
pub proof fn law_merge_runs_is_idempotent(vs: Seq<RunView>)
    ensures
        merged_views(merged_views(vs)) == merged_views(vs),
{
    let m = merged_views(vs);
    law_merged_neighbours_differ(vs);
    assert forall|i: int| 0 <= i && i + 1 < m.len() implies #[trigger] differs_at(m, i) by {
        assert(!(m[i].script == m[i + 1].script && m[i].direction == m[i + 1].direction));
    }
    lemma_merge_without_equal_neighbours(m);
}

/// Putting runs in visual order loses no run and adds none.
pub proof fn law_bidi_order_keeps_runs(runs: Seq<TextRun>)
    ensures
        bidi_order(runs).to_multiset() == runs.to_multiset(),
        bidi_order(runs).len() == runs.len(),
    decreases runs.len(),
{
    broadcast use vstd::multiset::group_multiset_axioms;
    if runs.len() == 0 {
        assert(bidi_order(runs) =~= Seq::<TextRun>::empty());
        assert(runs =~= Seq::<TextRun>::empty());
    } else {
        let rest = runs.drop_last();
        let last = runs.last();
        law_bidi_order_keeps_runs(rest);
        vstd::seq_lib::lemma_multiset_commutative(ltr_runs(rest), rtl_runs_reversed(rest));
        vstd::seq_lib::lemma_multiset_commutative(ltr_runs(runs), rtl_runs_reversed(runs));
        vstd::seq_lib::to_multiset_build(rest, last);
        assert(rest.push(last) =~= runs);
        if last.direction == TextDirection::LeftToRight {
            vstd::seq_lib::to_multiset_build(ltr_runs(rest), last);
            assert(rtl_runs_reversed(runs) == rtl_runs_reversed(rest));
        } else {
            assert(seq![last] + rtl_runs_reversed(rest) =~= rtl_runs_reversed(rest).insert(0, last));
            vstd::seq_lib::to_multiset_insert(rtl_runs_reversed(rest), 0, last);
            assert(ltr_runs(runs) == ltr_runs(rest));
        }
        assert(bidi_order(runs).to_multiset() =~= runs.to_multiset());
        vstd::seq_lib::to_multiset_len(bidi_order(runs));
        vstd::seq_lib::to_multiset_len(runs);
    }
}

/// The script a single run of text has: that of a character of non-neutral script in
/// it, or `Unknown` where there is none.
pub open spec fn run_script_of(t: Seq<char>) -> UnicodeScript {
    if exists|j: int| 0 <= j < t.len() && !is_neutral_script(#[trigger] script_of(t[j])) {
        script_of(t[choose|j: int| 0 <= j < t.len() && !is_neutral_script(#[trigger] script_of(t[j]))])
    } else {
        UnicodeScript::Unknown
    }
}

proof fn lemma_run_script(r: TextRun)
    requires
        script_run_ok(r),
    ensures
        r.script == run_script_of(r.text@),
{
    reveal(script_run_ok);
    let t = r.text@;
    if exists|j: int| 0 <= j < t.len() && !is_neutral_script(#[trigger] script_of(t[j])) {
        let j = choose|j: int| 0 <= j < t.len() && !is_neutral_script(#[trigger] script_of(t[j]));
        assert(fits_run(r.script, t[j]));
    } else if r.script != UnicodeScript::Unknown {
        let j = choose|j: int| 0 <= j < t.len() && script_of(#[trigger] t[j]) == r.script;
        assert(!is_neutral_script(script_of(t[j])));
    }
}

proof fn lemma_run_texts_len(s: Seq<TextRun>)
    requires
        forall|i: int| 0 <= i < s.len() ==> script_run_ok(#[trigger] s[i]),
    ensures
        s.len() > 0 ==> run_texts(s).len() >= s.last().text@.len() && run_texts(s).len() > 0,
{
    reveal(script_run_ok);
    if s.len() > 0 {
        assert(script_run_ok(s[s.len() - 1]));
    }
}

proof fn lemma_split_drop_last(cs: Seq<char>, s: Seq<TextRun>)
    requires
        is_script_run_split(cs, s),
        s.len() > 0,
    ensures
        is_script_run_split(run_texts(s.drop_last()), s.drop_last()),
{
    let p = s.drop_last();
    assert forall|i: int| 0 <= i < p.len() implies script_run_ok(#[trigger] p[i]) by {
        assert(p[i] == s[i]);
    }
    assert forall|i: int| 0 < i < p.len() implies script_of((#[trigger] p[i]).text@[0]) == p[i].script by {
        assert(p[i] == s[i]);
    }
    assert forall|i: int| 0 <= i < p.len() && (#[trigger] p[i]).script == UnicodeScript::Unknown implies p.len() == 1 by {
        assert(p[i] == s[i]);
    }
    assert forall|i: int, j: int| 0 <= i && j == i + 1 && j < p.len() implies (#[trigger] p[i]).script != (#[trigger] p[j]).script by {
        assert(p[i] == s[i] && p[j] == s[j]);
    }
    reveal(run_offsets_ok);
    assert forall|i: int| 0 <= i < p.len() implies (#[trigger] p[i]).start_index == byte_len(run_texts(p.take(i)))
        && p[i].end_index == p[i].start_index + byte_len(p[i].text@) by {
        assert(p[i] == s[i]);
        assert(p.take(i) =~= s.take(i));
    }
}

/// Where the last runs of two splits of one text start, they start at the same place.
#[verifier::spinoff_prover]
#[verifier::rlimit(60)]
proof fn lemma_last_runs_align(cs: Seq<char>, a: Seq<TextRun>, b: Seq<TextRun>)
    requires
        is_script_run_split(cs, a),
        is_script_run_split(cs, b),
        a.len() > 0,
        b.len() > 0,
    ensures
        a.last().text@.len() >= b.last().text@.len(),
{
    reveal(script_run_ok);
    let la = a.last().text@;
    let lb = b.last().text@;
    if la.len() < lb.len() {
        let n = cs.len();
        let a1 = a.drop_last();
        let pa = run_texts(a1);
        assert(cs == pa + la);
        let p = pa.len() as int;
        let q = n - lb.len();
        assert(cs == run_texts(b.drop_last()) + lb);
        assert(script_run_ok(a[a.len() - 1]));
        assert(script_run_ok(b[b.len() - 1]));
        // The last run of `a` is not its only run.
        lemma_run_texts_len(b.drop_last());
        assert forall|i: int| 0 <= i < b.drop_last().len() implies script_run_ok(#[trigger] b.drop_last()[i]) by {
            assert(b.drop_last()[i] == b[i]);
        }
        assert(a.len() >= 2);
        let sa = a.last().script;
        assert(script_of(a[a.len() - 1].text@[0]) == sa);
        assert(cs[p] == la[0]);
        assert(sa != UnicodeScript::Unknown);
        assert(!is_neutral_script(sa));
        // `b`'s last run holds position `p`, so it has `a`'s last script.
        assert(cs[p] == lb[p - q]);
        assert(fits_run(b.last().script, lb[p - q]));
        assert(b.last().script == sa);
        // The run before `a`'s last one has another script and a character of it.
        let prev = a1.last();
        assert(prev == a[a.len() - 2]);
        assert(prev.script != sa);
        assert(script_run_ok(prev));
        assert(prev.script != UnicodeScript::Unknown);
        let a2 = a1.drop_last();
        let start = run_texts(a2).len() as int;
        assert(pa == run_texts(a2) + prev.text@);
        let j = choose|j: int| 0 <= j < prev.text@.len() && script_of(#[trigger] prev.text@[j]) == prev.script;
        let k = start + j;
        assert(cs[k] == pa[k]);
        assert(pa[k] == prev.text@[j]);
        if k >= q {
            assert(cs[k] == lb[k - q]);
            assert(fits_run(b.last().script, lb[k - q]));
        } else {
            assert(q > 0);
            assert(b.len() >= 2) by {
                if b.len() == 1 {
                    assert(run_texts(b.drop_last()) =~= Seq::<char>::empty());
                }
            }
            assert(script_of(b[b.len() - 1].text@[0]) == b.last().script);
            assert(cs[q] == lb[0]);
            assert(start <= q < p);
            assert(cs[q] == pa[q]);
            assert(pa[q] == prev.text@[q - start]);
            assert(fits_run(prev.script, prev.text@[q - start]));
        }
    }
}

/// The split of a text into script runs is unique: two lists of runs that both split
/// it agree run for run.
#[verifier::spinoff_prover]
#[verifier::rlimit(60)]
pub proof fn law_script_run_split_is_unique(cs: Seq<char>, a: Seq<TextRun>, b: Seq<TextRun>)
    requires
        is_script_run_split(cs, a),
        is_script_run_split(cs, b),
    ensures
        run_views(a) == run_views(b),
    decreases a.len() + b.len(),
{
    lemma_run_texts_len(a);
    lemma_run_texts_len(b);
    if a.len() == 0 || b.len() == 0 {
        assert(a.len() == 0 && b.len() == 0);
        assert(run_views(a) =~= run_views(b));
    } else {
        lemma_last_runs_align(cs, a, b);
        lemma_last_runs_align(cs, b, a);
        let a1 = a.drop_last();
        let b1 = b.drop_last();
        let la = a.last();
        let lb = b.last();
        assert(cs == run_texts(a1) + la.text@);
        assert(cs == run_texts(b1) + lb.text@);
        assert(run_texts(a1) =~= cs.take(cs.len() - la.text@.len()));
        assert(run_texts(b1) =~= cs.take(cs.len() - lb.text@.len()));
        assert(la.text@.len() == lb.text@.len());
        assert(la.text@ =~= cs.skip(cs.len() - la.text@.len()));
        assert(lb.text@ =~= cs.skip(cs.len() - lb.text@.len()));
        assert(la.text@ =~= lb.text@);
        lemma_split_drop_last(cs, a);
        lemma_split_drop_last(cs, b);
        law_script_run_split_is_unique(run_texts(a1), a1, b1);
        reveal(script_run_ok);
        assert(script_run_ok(a[a.len() - 1]));
        assert(script_run_ok(b[b.len() - 1]));
        if a.len() == 1 || b.len() == 1 {
            lemma_run_texts_len(a1);
            lemma_run_texts_len(b1);
            assert forall|i: int| 0 <= i < a1.len() implies script_run_ok(#[trigger] a1[i]) by {
                assert(a1[i] == a[i]);
            }
            assert forall|i: int| 0 <= i < b1.len() implies script_run_ok(#[trigger] b1[i]) by {
                assert(b1[i] == b[i]);
            }
            lemma_run_script(la);
            lemma_run_script(lb);
        } else {
            assert(script_of(a[a.len() - 1].text@[0]) == la.script);
            assert(script_of(b[b.len() - 1].text@[0]) == lb.script);
        }
        reveal(run_offsets_ok);
        assert(a.take(a.len() - 1) =~= a1);
        assert(b.take(b.len() - 1) =~= b1);
        assert(la.start_index == byte_len(run_texts(a1)));
        assert(lb.start_index == byte_len(run_texts(b1)));
        assert(la@ == lb@);
        assert(run_views(a) =~= run_views(a1).push(la@));
        assert(run_views(b) =~= run_views(b1).push(lb@));
    }
}

proof fn lemma_order_follows_views(a: Seq<TextRun>, b: Seq<TextRun>)
    requires
        run_views(a) == run_views(b),
    ensures
        run_views(ltr_runs(a)) == run_views(ltr_runs(b)),
        run_views(rtl_runs_reversed(a)) == run_views(rtl_runs_reversed(b)),
    decreases a.len(),
{
    assert(a.len() == run_views(a).len() && b.len() == run_views(b).len());
    if a.len() > 0 {
        assert(run_views(a.drop_last()) =~= run_views(a).drop_last());
        assert(run_views(b.drop_last()) =~= run_views(b).drop_last());
        lemma_order_follows_views(a.drop_last(), b.drop_last());
        assert(a.last()@ == run_views(a)[a.len() - 1]);
        assert(b.last()@ == run_views(b)[b.len() - 1]);
        let la = ltr_runs(a.drop_last());
        let lb = ltr_runs(b.drop_last());
        assert(run_views(la.push(a.last())) =~= run_views(la).push(a.last()@));
        assert(run_views(lb.push(b.last())) =~= run_views(lb).push(b.last()@));
        let ra = rtl_runs_reversed(a.drop_last());
        let rb = rtl_runs_reversed(b.drop_last());
        assert(run_views(seq![a.last()] + ra) =~= seq![a.last()@] + run_views(ra));
        assert(run_views(seq![b.last()] + rb) =~= seq![b.last()@] + run_views(rb));
    } else {
        assert(run_views(ltr_runs(a)) =~= run_views(ltr_runs(b)));
        assert(run_views(rtl_runs_reversed(a)) =~= run_views(rtl_runs_reversed(b)));
    }
}

/// BiDi analysis is determined by the text: the runs it gives are, run for run, the
/// script runs of the text (as `ScriptRunAnalyzer::analyze` gives them) put in visual
/// order.
pub proof fn law_bidi_analysis_is_script_runs_in_visual_order(
    cs: Seq<char>,
    script_runs: Seq<TextRun>,
    split: Seq<TextRun>,
    bidi_runs: Seq<TextRun>,
)
    requires
        is_script_run_split(cs, script_runs),
        is_script_run_split(cs, split),
        bidi_runs == bidi_order(split),
    ensures
        run_views(bidi_runs) == run_views(bidi_order(script_runs)),
{
    law_script_run_split_is_unique(cs, split, script_runs);
    lemma_order_follows_views(split, script_runs);
    assert(run_views(bidi_order(split)) =~= run_views(ltr_runs(split)) + run_views(rtl_runs_reversed(split)));
    assert(run_views(bidi_order(script_runs)) =~= run_views(ltr_runs(script_runs)) + run_views(rtl_runs_reversed(script_runs)));
}

/// Merging the runs of a split by script changes nothing: neighbouring runs of a split
/// already differ in script.
pub proof fn law_merging_a_split_changes_nothing(cs: Seq<char>, runs: Seq<TextRun>)
    requires
        is_script_group_split(cs, runs) || is_script_run_split(cs, runs),
    ensures
        merged_views(run_views(runs)) == run_views(runs),
{
    let vs = run_views(runs);
    assert forall|i: int| 0 <= i && i + 1 < vs.len() implies #[trigger] differs_at(vs, i) by {
        assert(vs[i] == runs[i]@ && vs[i + 1] == runs[i + 1]@);
        assert(runs[i].script != runs[i + 1].script);
    }
    lemma_merge_without_equal_neighbours(vs);
}

/// Merging never adds runs, leaves none only where there were none, and keeps the first
/// run's start and the last run's end.
pub proof fn law_merge_bounds(vs: Seq<RunView>)
    ensures
        merged_views(vs).len() <= vs.len(),
        (merged_views(vs).len() == 0) == (vs.len() == 0),
        vs.len() > 0 ==> merged_views(vs)[0].start_index == vs[0].start_index,
        vs.len() > 0 ==> merged_views(vs).last().end_index == vs.last().end_index,
    decreases vs.len(),
{
    if vs.len() > 0 {
        let p = vs.drop_last();
        law_merge_bounds(p);
        let m = merged_views(p);
        let r = vs.last();
        if p.len() > 0 {
            assert(p[0] == vs[0]);
        }
        if m.len() > 0 && m.last().script == r.script && m.last().direction == r.direction {
            let out = m.drop_last().push(RunView { text: m.last().text + r.text, end_index: r.end_index, ..m.last() });
            assert(merged_views(vs) == out);
            if m.len() > 1 {
                assert(out[0] == m[0]);
            }
        } else {
            assert(merged_views(vs) == m.push(r));
            if m.len() > 0 {
                assert(m.push(r)[0] == m[0]);
            }
        }
    }
}

} // verus!
