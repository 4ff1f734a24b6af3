//! Complex-script shaping decisions: Arabic joining forms and the lam-alef ligature,
//! Devanagari syllables and reordering, and where justification space goes.
use vstd::prelude::*;
use crate::text_types::GlyphId;
use crate::script::UnicodeScript;
use crate::strs::{byte_len, chars_of, utf8_width, lemma_byte_len_take, byte_length};
use crate::gsub::{ligature_pass, spans_view, span_total, GsubProcessor};

verus! {

/// Arabic contextual form.
#[derive(Debug, Clone, Copy, PartialEq, Eq, Structural)]
pub enum ArabicForm {
    Isolated,
    Initial,
    Medial,
    Final,
}

/// Whether a character is an Arabic letter.
pub open spec fn spec_is_arabic_letter(c: char) -> bool {
    let u = c as u32;
    (0x0600 <= u <= 0x06FF) || (0x0750 <= u <= 0x077F) || (0x08A0 <= u <= 0x08FF)
}

/// Whether a character joins the letter after it: the dual-joining letters do; hamza,
/// the alef forms, waw with hamza, teh marbuta, dal, thal, reh, zain, waw and alef
/// maksura do not.
pub open spec fn spec_joins_right(c: char) -> bool {
    let u = c as u32;
    !((0x0621 <= u <= 0x0625) || u == 0x0627 || u == 0x0629 || (0x062F <= u <= 0x0632) || u == 0x0648
        || u == 0x0649)
}

/// Whether a character joins the letter before it: all but hamza, which joins neither.
pub open spec fn spec_joins_left(c: char) -> bool {
    (c as u32) != 0x0621
}

/// The contextual form of the character at `i`: initial where it joins only the next
/// letter, final where it joins only the previous one, medial where it joins both.
pub open spec fn spec_arabic_form(cs: Seq<char>, i: int) -> ArabicForm {
    if !spec_is_arabic_letter(cs[i]) {
        ArabicForm::Isolated
    } else {
        let has_prev = i > 0 && spec_is_arabic_letter(cs[i - 1]) && spec_joins_right(cs[i - 1])
            && spec_joins_left(cs[i]);
        let has_next = i < cs.len() - 1 && spec_is_arabic_letter(cs[i + 1]) && spec_joins_right(cs[i])
            && spec_joins_left(cs[i + 1]);
        if !has_prev && !has_next {
            ArabicForm::Isolated
        } else if !has_prev {
            ArabicForm::Initial
        } else if !has_next {
            ArabicForm::Final
        } else {
            ArabicForm::Medial
        }
    }
}

/// Where a letter's forms start in Arabic Presentation Forms-B and how many it has:
/// four (isolated, final, initial, medial) for a dual-joining letter, two (isolated,
/// final) for a right-joining one, one for hamza; `None` for a character outside
/// hamza to yeh or without presentation forms there.
pub open spec fn presentation_forms(u: u32) -> Option<(u32, u32)> {
    if u == 0x0621 {
        Some((0xFE80, 1))
    } else if 0x0622 <= u <= 0x0625 {
        Some(((0xFE81 + 2 * (u - 0x0622)) as u32, 2))
    } else if u == 0x0626 {
        Some((0xFE89, 4))
    } else if u == 0x0627 {
        Some((0xFE8D, 2))
    } else if u == 0x0628 {
        Some((0xFE8F, 4))
    } else if u == 0x0629 {
        Some((0xFE93, 2))
    } else if 0x062A <= u <= 0x062E {
        Some(((0xFE95 + 4 * (u - 0x062A)) as u32, 4))
    } else if 0x062F <= u <= 0x0632 {
        Some(((0xFEA9 + 2 * (u - 0x062F)) as u32, 2))
    } else if 0x0633 <= u <= 0x063A {
        Some(((0xFEB1 + 4 * (u - 0x0633)) as u32, 4))
    } else if 0x0641 <= u <= 0x0647 {
        Some(((0xFED1 + 4 * (u - 0x0641)) as u32, 4))
    } else if u == 0x0648 {
        Some((0xFEED, 2))
    } else if u == 0x0649 {
        Some((0xFEEF, 2))
    } else if u == 0x064A {
        Some((0xFEF1, 4))
    } else {
        None
    }
}

/// The glyph of a character in a contextual form: its presentation form where it has
/// one (a right-joining letter's isolated form stands for its initial one and its
/// final form for its medial one), else its code point.
pub open spec fn spec_contextual_glyph(c: char, form: ArabicForm) -> GlyphId {
    match presentation_forms(c as u32) {
        None => GlyphId(c as u32),
        Some((base, n)) => {
            let step: u32 = if n == 4 {
                match form {
                    ArabicForm::Isolated => 0,
                    ArabicForm::Final => 1,
                    ArabicForm::Initial => 2,
                    ArabicForm::Medial => 3,
                }
            } else if n == 2 {
                match form {
                    ArabicForm::Isolated | ArabicForm::Initial => 0,
                    ArabicForm::Final | ArabicForm::Medial => 1,
                }
            } else {
                0
            };
            GlyphId((base + step) as u32)
        },
    }
}

/// Where a letter's presentation forms start and how many it has.
fn presentation_forms_of(u: u32) -> (r: Option<(u32, u32)>)
    ensures
        r == presentation_forms(u),
{
    if u == 0x0621 {
        Some((0xFE80, 1))
    } else if 0x0622 <= u && u <= 0x0625 {
        Some((0xFE81 + 2 * (u - 0x0622), 2))
    } else if u == 0x0626 {
        Some((0xFE89, 4))
    } else if u == 0x0627 {
        Some((0xFE8D, 2))
    } else if u == 0x0628 {
        Some((0xFE8F, 4))
    } else if u == 0x0629 {
        Some((0xFE93, 2))
    } else if 0x062A <= u && u <= 0x062E {
        Some((0xFE95 + 4 * (u - 0x062A), 4))
    } else if 0x062F <= u && u <= 0x0632 {
        Some((0xFEA9 + 2 * (u - 0x062F), 2))
    } else if 0x0633 <= u && u <= 0x063A {
        Some((0xFEB1 + 4 * (u - 0x0633), 4))
    } else if 0x0641 <= u && u <= 0x0647 {
        Some((0xFED1 + 4 * (u - 0x0641), 4))
    } else if u == 0x0648 {
        Some((0xFEED, 2))
    } else if u == 0x0649 {
        Some((0xFEEF, 2))
    } else if u == 0x064A {
        Some((0xFEF1, 4))
    } else {
        None
    }
}

/// The glyph of a character in a contextual form.
pub fn contextual_glyph(ch: char, form: ArabicForm) -> (r: GlyphId)
    ensures
        r == spec_contextual_glyph(ch, form),
{
    match presentation_forms_of(ch as u32) {
        None => GlyphId(ch as u32),
        Some((base, n)) => {
            let step: u32 = if n == 4 {
                match form {
                    ArabicForm::Isolated => 0,
                    ArabicForm::Final => 1,
                    ArabicForm::Initial => 2,
                    ArabicForm::Medial => 3,
                }
            } else if n == 2 {
                match form {
                    ArabicForm::Isolated | ArabicForm::Initial => 0,
                    ArabicForm::Final | ArabicForm::Medial => 1,
                }
            } else {
                0
            };
            GlyphId(base + step)
        },
    }
}

/// Whether a character is an Arabic letter.
pub fn is_arabic_letter(ch: char) -> (r: bool)
    ensures
        r == spec_is_arabic_letter(ch),
{
    let u = ch as u32;
    (0x0600 <= u && u <= 0x06FF) || (0x0750 <= u && u <= 0x077F) || (0x08A0 <= u && u <= 0x08FF)
}

/// Whether a character joins the letter after it.
pub fn joins_right(ch: char) -> (r: bool)
    ensures
        r == spec_joins_right(ch),
{
    let u = ch as u32;
    !((0x0621 <= u && u <= 0x0625) || u == 0x0627 || u == 0x0629 || (0x062F <= u && u <= 0x0632) || u == 0x0648
        || u == 0x0649)
}

/// Whether a character joins the letter before it.
pub fn joins_left(ch: char) -> (r: bool)
    ensures
        r == spec_joins_left(ch),
{
    (ch as u32) != 0x0621
}

/// The contextual form of the character at `index`.
pub fn determine_arabic_form(chars: &[char], index: usize) -> (r: ArabicForm)
    requires
        index < chars.len(),
    ensures
        r == spec_arabic_form(chars@, index as int),
{
    let ch = chars[index];
    if !is_arabic_letter(ch) {
        return ArabicForm::Isolated;
    }
    let has_prev = index > 0 && is_arabic_letter(chars[index - 1]) && joins_right(chars[index - 1])
        && joins_left(ch);
    let has_next = index < chars.len() - 1 && is_arabic_letter(chars[index + 1]) && joins_right(ch)
        && joins_left(chars[index + 1]);
    if !has_prev && !has_next {
        ArabicForm::Isolated
    } else if !has_prev {
        ArabicForm::Initial
    } else if !has_next {
        ArabicForm::Final
    } else {
        ArabicForm::Medial
    }
}

/// The contextual forms of every character of a text.
pub fn arabic_forms(text: &str) -> (r: Vec<ArabicForm>)
    ensures
        r@.len() == text@.len(),
        forall|i: int| 0 <= i < r@.len() ==> #[trigger] r@[i] == spec_arabic_form(text@, i),
{
    let chars = chars_of(text);
    let mut r: Vec<ArabicForm> = Vec::new();
    let mut i: usize = 0;
    while i < chars.len()
        invariant
            chars@ == text@,
            i <= chars.len(),
            r@.len() == i,
            forall|k: int| 0 <= k < i ==> #[trigger] r@[k] == spec_arabic_form(text@, k),
        decreases chars.len() - i,
    {
        r.push(determine_arabic_form(chars.as_slice(), i));
        i = i + 1;
    }
    r
}

/// The Arabic ligature table: lam in its initial or medial form followed by final alef,
/// alef with madda, with hamza above or with hamza below joins into the matching
/// lam-alef ligature, isolated or final.
pub open spec fn arabic_ligature_table() -> Seq<(Seq<GlyphId>, GlyphId)> {
    seq![
        (seq![GlyphId(0xFEDF), GlyphId(0xFE8E)], GlyphId(0xFEFB)),
        (seq![GlyphId(0xFEE0), GlyphId(0xFE8E)], GlyphId(0xFEFC)),
        (seq![GlyphId(0xFEDF), GlyphId(0xFE82)], GlyphId(0xFEF5)),
        (seq![GlyphId(0xFEE0), GlyphId(0xFE82)], GlyphId(0xFEF6)),
        (seq![GlyphId(0xFEDF), GlyphId(0xFE84)], GlyphId(0xFEF7)),
        (seq![GlyphId(0xFEE0), GlyphId(0xFE84)], GlyphId(0xFEF8)),
        (seq![GlyphId(0xFEDF), GlyphId(0xFE88)], GlyphId(0xFEF9)),
        (seq![GlyphId(0xFEE0), GlyphId(0xFE88)], GlyphId(0xFEFA)),
    ]
}

/// The glyphs of an Arabic text before ligatures: each character's glyph in its
/// contextual form.
pub open spec fn arabic_base_glyphs(cs: Seq<char>) -> Seq<GlyphId> {
    Seq::new(cs.len(), |i: int| spec_contextual_glyph(cs[i], spec_arabic_form(cs, i)))
}

fn lam_alef(lam: u32, alef: u32, lig: u32) -> (r: (Vec<GlyphId>, GlyphId))
    ensures
        r.0@ == seq![GlyphId(lam), GlyphId(alef)],
        r.1 == GlyphId(lig),
{
    let mut v = Vec::new();
    v.push(GlyphId(lam));
    v.push(GlyphId(alef));
    assert(v@ =~= seq![GlyphId(lam), GlyphId(alef)]);
    (v, GlyphId(lig))
}

/// Shapes Arabic text into glyph identifiers: each character in its contextual form,
/// then the lam-alef ligatures. Each output glyph comes with the number of characters
/// it stands for: two for a lam-alef ligature, else one.
pub fn arabic_glyphs(text: &str) -> (r: Vec<(GlyphId, usize)>)
    ensures
        spans_view(r@) == ligature_pass(arabic_ligature_table(), arabic_base_glyphs(text@)),
        span_total(spans_view(r@)) == text@.len(),
{
    let chars = chars_of(text);
    let mut ids: Vec<GlyphId> = Vec::new();
    let mut i: usize = 0;
    while i < chars.len()
        invariant
            chars@ == text@,
            i <= chars.len(),
            ids@.len() == i,
            forall|k: int| 0 <= k < i ==> #[trigger] ids@[k] == spec_contextual_glyph(chars@[k], spec_arabic_form(chars@, k)),
        decreases chars.len() - i,
    {
        let form = determine_arabic_form(chars.as_slice(), i);
        ids.push(contextual_glyph(chars[i], form));
        i = i + 1;
    }
    assert(ids@ =~= arabic_base_glyphs(text@));
    let mut table: Vec<(Vec<GlyphId>, GlyphId)> = Vec::new();
    table.push(lam_alef(0xFEDF, 0xFE8E, 0xFEFB));
    table.push(lam_alef(0xFEE0, 0xFE8E, 0xFEFC));
    table.push(lam_alef(0xFEDF, 0xFE82, 0xFEF5));
    table.push(lam_alef(0xFEE0, 0xFE82, 0xFEF6));
    table.push(lam_alef(0xFEDF, 0xFE84, 0xFEF7));
    table.push(lam_alef(0xFEE0, 0xFE84, 0xFEF8));
    table.push(lam_alef(0xFEDF, 0xFE88, 0xFEF9));
    table.push(lam_alef(0xFEE0, 0xFE88, 0xFEFA));
    let gsub = GsubProcessor::with_table(table);
    assert(gsub.table() =~= arabic_ligature_table());
    assert(gsub.features()[0] == crate::features::HarfbuzzFeature::Liga);
    gsub.apply_ligatures(&ids)
}

/// Whether a character lies in one of the Arabic blocks: Arabic, Arabic Supplement or
/// Arabic Extended-A.
pub open spec fn in_arabic_blocks(c: char) -> bool {
    let n = c as u32;
    (0x0600 <= n && n <= 0x06FF) || (0x0750 <= n && n <= 0x077F) || (0x08A0 <= n && n <= 0x08FF)
}

/// Whether a letter joins only the letter before it, never the one after: hamza, the
/// alef forms, waw with hamza, teh marbuta, dal, thal, reh, zain, waw and alef maksura.
pub open spec fn joins_only_backward(c: char) -> bool {
    let n = c as u32;
    (0x0621 <= n && n <= 0x0625) || n == 0x0627 || n == 0x0629 || (0x062F <= n && n <= 0x0632) || n == 0x0648
        || n == 0x0649
}

/// Alef, dal, thal, reh, zain and waw join only the letter before them: the character
/// after one of them is never in its final or medial form, and one of them is never in
/// its initial or medial form.
pub proof fn law_right_joining_letters_end_the_join(cs: Seq<char>, i: int)
    requires
        0 <= i < cs.len(),
    ensures
        (i > 0 && (cs[i - 1] == '\u{0627}' || cs[i - 1] == '\u{062F}' || cs[i - 1] == '\u{0630}'
            || cs[i - 1] == '\u{0631}' || cs[i - 1] == '\u{0632}' || cs[i - 1] == '\u{0648}'))
            ==> (spec_arabic_form(cs, i) == ArabicForm::Isolated || spec_arabic_form(cs, i) == ArabicForm::Initial),
        (cs[i] == '\u{0627}' || cs[i] == '\u{062F}' || cs[i] == '\u{0630}' || cs[i] == '\u{0631}'
            || cs[i] == '\u{0632}' || cs[i] == '\u{0648}')
            ==> (spec_arabic_form(cs, i) == ArabicForm::Isolated || spec_arabic_form(cs, i) == ArabicForm::Final),
{
}

/// The form of a character says which neighbours it joins. It joins the previous
/// character (final or medial form) exactly when both are Arabic letters, the previous
/// one joins forward and the character is not hamza; it joins the next character
/// (initial or medial form) exactly when both are Arabic letters, it joins forward and
/// the next is not hamza.
pub proof fn law_arabic_form_follows_joining(cs: Seq<char>, i: int)
    requires
        0 <= i < cs.len(),
    ensures
        (spec_arabic_form(cs, i) == ArabicForm::Final || spec_arabic_form(cs, i) == ArabicForm::Medial)
            <==> (i > 0 && in_arabic_blocks(cs[i]) && in_arabic_blocks(cs[i - 1])
                && !joins_only_backward(cs[i - 1]) && (cs[i] as u32) != 0x0621),
        (spec_arabic_form(cs, i) == ArabicForm::Initial || spec_arabic_form(cs, i) == ArabicForm::Medial)
            <==> (i + 1 < cs.len() && in_arabic_blocks(cs[i]) && in_arabic_blocks(cs[i + 1])
                && !joins_only_backward(cs[i]) && (cs[i + 1] as u32) != 0x0621),
{
}

/// Whether a character is a Devanagari consonant.
pub open spec fn spec_is_consonant(c: char) -> bool {
    0x0915 <= (c as u32) <= 0x0939
}

/// Whether a character is the Devanagari virama.
pub open spec fn spec_is_virama(c: char) -> bool {
    (c as u32) == 0x094D
}

/// Whether a character is a vowel sign written before its base consonant.
pub open spec fn spec_is_pre_base_matra(c: u32) -> bool {
    c == 0x093F || c == 0x0941 || c == 0x0942 || c == 0x0943 || c == 0x0944
}

/// Whether a new syllable starts at position `p`: a consonant not after a virama.
pub open spec fn syllable_starts_at(cs: Seq<char>, p: int) -> bool {
    0 < p < cs.len() && spec_is_consonant(cs[p]) && !spec_is_virama(cs[p - 1])
}

/// The end of the syllable that starts at `i`.
pub open spec fn syllable_end(cs: Seq<char>, i: int) -> int
    decreases cs.len() - i,
{
    if i + 1 >= cs.len() {
        cs.len() as int
    } else if syllable_starts_at(cs, i + 1) {
        i + 1
    } else {
        syllable_end(cs, i + 1)
    }
}

proof fn lemma_syllable_end_bounds(cs: Seq<char>, i: int)
    requires
        0 <= i < cs.len(),
    ensures
        i < syllable_end(cs, i) <= cs.len(),
        forall|q: int| i < q < syllable_end(cs, i) ==> !syllable_starts_at(cs, q),
        syllable_end(cs, i) == cs.len() || syllable_starts_at(cs, syllable_end(cs, i)),
    decreases cs.len() - i,
{
    if i + 1 < cs.len() && !syllable_starts_at(cs, i + 1) {
        lemma_syllable_end_bounds(cs, i + 1);
    }
}

proof fn lemma_syllable_end_is(cs: Seq<char>, i: int, p: int)
    requires
        0 <= i < p <= cs.len(),
        forall|q: int| i < q < p ==> !syllable_starts_at(cs, q),
        p == cs.len() || syllable_starts_at(cs, p),
    ensures
        syllable_end(cs, i) == p,
    decreases p - i,
{
    if i + 1 < p {
        assert(!syllable_starts_at(cs, i + 1));
        lemma_syllable_end_is(cs, i + 1, p);
    }
}

/// The syllables of the characters from `i` on.
pub open spec fn syllables_from(cs: Seq<char>, i: int) -> Seq<Seq<char>>
    decreases cs.len() - i,
{
    if i < 0 || i >= cs.len() {
        seq![]
    } else {
        let j = syllable_end(cs, i);
        if j <= i || j > cs.len() {
            seq![]
        } else {
            seq![cs.subrange(i, j)] + syllables_from(cs, j)
        }
    }
}

/// Whether a syllable starts at position `q` of `cs`: a consonant, `\u{0915}` to
/// `\u{0939}`, whose previous character is not the virama `\u{094D}`.
pub open spec fn consonant_not_after_virama(cs: Seq<char>, q: int) -> bool {
    &&& 0x0915 <= (cs[q] as u32) && (cs[q] as u32) <= 0x0939
    &&& (cs[q - 1] as u32) != 0x094D
}

/// The syllables from `i` on cover the characters from `i` on, none is empty, each
/// after the first begins where a consonant follows something other than a virama, and
/// no such place lies inside one.
proof fn lemma_syllables_from_split(cs: Seq<char>, i: int)
    requires
        0 <= i <= cs.len(),
    ensures
        syllables_from(cs, i).flatten() == cs.subrange(i, cs.len() as int),
        i < cs.len() ==> syllables_from(cs, i).len() > 0 && syllables_from(cs, i)[0][0] == cs[i],
        forall|k: int| 0 <= k < syllables_from(cs, i).len() ==> (#[trigger] syllables_from(cs, i)[k]).len() > 0,
        forall|k: int| 0 < k < syllables_from(cs, i).len() ==>
            consonant_not_after_virama(syllables_from(cs, i)[k - 1] + #[trigger] syllables_from(cs, i)[k], syllables_from(cs, i)[k - 1].len() as int),
        forall|k: int, q: int| 0 <= k < syllables_from(cs, i).len() && 0 < q < syllables_from(cs, i)[k].len() ==>
            !#[trigger] consonant_not_after_virama(syllables_from(cs, i)[k], q),
    decreases cs.len() - i,
{
    let ss = syllables_from(cs, i);
    if i == cs.len() {
        assert(ss.len() == 0);
        assert(cs.subrange(i, cs.len() as int) =~= Seq::<char>::empty());
    } else {
        lemma_syllable_end_bounds(cs, i);
        let j = syllable_end(cs, i);
        let p = cs.subrange(i, j);
        let rest = syllables_from(cs, j);
        lemma_syllables_from_split(cs, j);
        assert(ss == seq![p] + rest);
        assert(ss.drop_first() =~= rest);
        assert(ss.flatten() == p + rest.flatten());
        assert(cs.subrange(i, cs.len() as int) =~= p + cs.subrange(j, cs.len() as int));
        assert forall|k: int| 0 < k < ss.len() implies
            consonant_not_after_virama(ss[k - 1] + #[trigger] ss[k], ss[k - 1].len() as int) by {
            if k == 1 {
                assert(j < cs.len());
                assert(syllable_starts_at(cs, j));
                let w = ss[0] + ss[1];
                assert(w[p.len() as int] == cs[j]);
                assert(w[p.len() - 1] == cs[j - 1]);
            } else {
                assert(ss[k] == rest[k - 1]);
                assert(ss[k - 1] == rest[k - 2]);
            }
        }
        assert forall|k: int, q: int| 0 <= k < ss.len() && 0 < q < ss[k].len() implies
            !#[trigger] consonant_not_after_virama(ss[k], q) by {
            if k == 0 {
                assert(!syllable_starts_at(cs, i + q));
                assert(ss[0][q] == cs[i + q]);
                assert(ss[0][q - 1] == cs[i + q - 1]);
            } else {
                assert(ss[k] == rest[k - 1]);
            }
        }
        assert forall|k: int| 0 <= k < ss.len() implies (#[trigger] ss[k]).len() > 0 by {
            if k > 0 {
                assert(ss[k] == rest[k - 1]);
            }
        }
    }
}

/// Splitting into syllables loses and adds nothing, and cuts exactly where a consonant
/// (`\u{0915}` to `\u{0939}`) follows a character other than the virama (`\u{094D}`),
/// after a vowel sign too: the syllables put together give the text back, none is
/// empty, each after the first begins at such a place, and none holds one inside.
pub proof fn law_syllables_split_at_consonants(cs: Seq<char>)
    ensures
        syllables_from(cs, 0).flatten() == cs,
        forall|k: int| 0 <= k < syllables_from(cs, 0).len() ==> (#[trigger] syllables_from(cs, 0)[k]).len() > 0,
        forall|k: int| 0 < k < syllables_from(cs, 0).len() ==> {
            let prev = syllables_from(cs, 0)[k - 1];
            let cur = #[trigger] syllables_from(cs, 0)[k];
            &&& 0x0915 <= (cur[0] as u32) && (cur[0] as u32) <= 0x0939
            &&& (prev.last() as u32) != 0x094D
        },
        forall|k: int, q: int| 0 <= k < syllables_from(cs, 0).len() && 0 < q < syllables_from(cs, 0)[k].len() ==>
            !(0x0915 <= (#[trigger] syllables_from(cs, 0)[k][q] as u32) && (syllables_from(cs, 0)[k][q] as u32) <= 0x0939
                && (syllables_from(cs, 0)[k][q - 1] as u32) != 0x094D),
{
    lemma_syllables_from_split(cs, 0);
    assert(cs.subrange(0, cs.len() as int) =~= cs);
    let ss = syllables_from(cs, 0);
    assert forall|k: int| 0 < k < ss.len() implies {
        let prev = ss[k - 1];
        let cur = #[trigger] ss[k];
        &&& 0x0915 <= (cur[0] as u32) && (cur[0] as u32) <= 0x0939
        &&& (prev.last() as u32) != 0x094D
    } by {
        let w = ss[k - 1] + ss[k];
        assert(consonant_not_after_virama(w, ss[k - 1].len() as int));
        assert(w[ss[k - 1].len() as int] == ss[k][0]);
        assert(w[ss[k - 1].len() - 1] == ss[k - 1].last());
    }
    assert forall|k: int, q: int| 0 <= k < ss.len() && 0 < q < ss[k].len() implies
        !(0x0915 <= (#[trigger] ss[k][q] as u32) && (ss[k][q] as u32) <= 0x0939 && (ss[k][q - 1] as u32) != 0x094D) by {
        assert(!consonant_not_after_virama(ss[k], q));
    }
}

/// A `String` of the characters of `cs` from `lo` to `hi`.
fn string_of_range(cs: &Vec<char>, lo: usize, hi: usize) -> (r: String)
    requires
        lo <= hi <= cs.len(),
    ensures
        r@ == cs@.subrange(lo as int, hi as int),
{
    let mut r = String::new();
    let mut k: usize = lo;
    while k < hi
        invariant
            lo <= k <= hi <= cs.len(),
            r@ == cs@.subrange(lo as int, k as int),
        decreases hi - k,
    {
        crate::strs::push_char(&mut r, cs[k]);
        k = k + 1;
        assert(r@ =~= cs@.subrange(lo as int, k as int));
    }
    r
}

/// Split Devanagari text into syllables: a new syllable starts at every consonant
/// that does not follow a virama.
pub fn identify_syllables(text: &str) -> (r: Vec<String>)
    ensures
        crate::strs::string_views(r@) == syllables_from(text@, 0),
{
    let cs = chars_of(text);
    let ghost s = text@;
    let mut out: Vec<String> = Vec::new();
    let n = cs.len();
    if n == 0 {
        assert(crate::strs::string_views(out@) =~= syllables_from(s, 0));
        return out;
    }
    let mut start: usize = 0;
    let mut p: usize = 1;
    while p < n
        invariant
            cs@ == s,
            n == cs.len(),
            0 <= start < p <= n,
            forall|q: int| start < q < p ==> !syllable_starts_at(s, q),
            crate::strs::string_views(out@) + syllables_from(s, start as int) == syllables_from(s, 0),
        decreases n - p,
    {
        if (0x0915 <= cs[p] as u32 && cs[p] as u32 <= 0x0939) && cs[p - 1] as u32 != 0x094D {
            let piece = string_of_range(&cs, start, p);
            let ghost before = out@;
            proof {
                lemma_syllable_end_is(s, start as int, p as int);
            }
            out.push(piece);
            assert(crate::strs::string_views(out@) =~= crate::strs::string_views(before) + seq![s.subrange(start as int, p as int)]);
            start = p;
        }
        p = p + 1;
    }
    proof {
        lemma_syllable_end_is(s, start as int, n as int);
        assert(syllables_from(s, n as int) =~= Seq::<Seq<char>>::empty());
    }
    let piece = string_of_range(&cs, start, n);
    let ghost before = out@;
    out.push(piece);
    assert(crate::strs::string_views(out@) =~= crate::strs::string_views(before) + seq![s.subrange(start as int, n as int)]);
    out
}

/// A syllable's glyphs before shaping: each character's code point, with the byte
/// offset of the character within the syllable as its cluster.
pub open spec fn syllable_base_glyphs(syl: Seq<char>) -> Seq<(GlyphId, u32)> {
    Seq::new(syl.len(), |k: int| (GlyphId(syl[k] as u32), byte_len(syl.take(k)) as u32))
}

/// Pre-base vowel signs moved before the glyph in front of them, scanning from `i` on.
pub open spec fn reorder_from(g: Seq<(GlyphId, u32)>, i: int) -> Seq<(GlyphId, u32)>
    decreases g.len() - i,
{
    if i < 0 || i >= g.len() {
        g
    } else {
        let g2 = if i > 0 && spec_is_pre_base_matra(g[i].0.0) {
            g.update(i - 1, g[i]).update(i, g[i - 1])
        } else {
            g
        };
        reorder_from(g2, i + 1)
    }
}

/// Half forms: a virama after a consonant removed, scanning from `i` on.
pub open spec fn half_forms_from(g: Seq<(GlyphId, u32)>, i: int) -> Seq<(GlyphId, u32)>
    decreases g.len() - i,
{
    if i < 0 || i + 1 >= g.len() {
        g
    } else {
        let g2 = if 0x0915 <= g[i].0.0 <= 0x0939 && g[i + 1].0.0 == 0x094D {
            g.remove(i + 1)
        } else {
            g
        };
        half_forms_from(g2, i + 1)
    }
}

/// Reph: a syllable that starts with ra and virama has its ra moved to the end and
/// the virama dropped.
pub open spec fn with_reph(g: Seq<(GlyphId, u32)>) -> Seq<(GlyphId, u32)> {
    if g.len() >= 2 && g[0].0.0 == 0x0930 && g[1].0.0 == 0x094D {
        g.skip(2).push(g[0])
    } else {
        g
    }
}

/// A shaped Devanagari syllable.
pub open spec fn shaped_syllable(syl: Seq<char>) -> Seq<(GlyphId, u32)> {
    with_reph(half_forms_from(reorder_from(syllable_base_glyphs(syl), 0), 0))
}

/// The shaped syllables of a sequence of syllables, one after the other.
pub open spec fn shaped_syllables(syls: Seq<Seq<char>>) -> Seq<(GlyphId, u32)>
    decreases syls.len(),
{
    if syls.len() == 0 {
        seq![]
    } else {
        shaped_syllable(syls[0]) + shaped_syllables(syls.drop_first())
    }
}

fn reorder_devanagari(glyphs: &mut Vec<(GlyphId, u32)>)
    ensures
        final(glyphs)@ == reorder_from(old(glyphs)@, 0),
{
    let ghost g0 = glyphs@;
    let mut i: usize = 0;
    while i < glyphs.len()
        invariant
            i <= glyphs.len(),
            reorder_from(glyphs@, i as int) == reorder_from(g0, 0),
        decreases glyphs.len() - i,
    {
        let ghost g = glyphs@;
        let c = glyphs[i].0.0;
        if i > 0 && (c == 0x093F || c == 0x0941 || c == 0x0942 || c == 0x0943 || c == 0x0944) {
            let m = glyphs.remove(i);
            glyphs.insert(i - 1, m);
            assert(glyphs@ =~= g.update(i - 1, g[i as int]).update(i as int, g[i - 1]));
        }
        i = i + 1;
    }
}

fn apply_half_forms(glyphs: &mut Vec<(GlyphId, u32)>)
    ensures
        final(glyphs)@ == half_forms_from(old(glyphs)@, 0),
{
    let ghost g0 = glyphs@;
    let mut i: usize = 0;
    while glyphs.len() > 0 && i < glyphs.len() - 1
        invariant
            half_forms_from(glyphs@, i as int) == half_forms_from(g0, 0),
        decreases glyphs.len() - i,
    {
        let c = glyphs[i].0.0;
        let d = glyphs[i + 1].0.0;
        if 0x0915 <= c && c <= 0x0939 && d == 0x094D {
            glyphs.remove(i + 1);
        }
        i = i + 1;
    }
}

fn apply_reph(glyphs: &mut Vec<(GlyphId, u32)>)
    ensures
        final(glyphs)@ == with_reph(old(glyphs)@),
{
    if glyphs.len() < 2 {
        return;
    }
    let ghost g = glyphs@;
    if glyphs[0].0.0 == 0x0930 && glyphs[1].0.0 == 0x094D {
        let reph = glyphs.remove(0);
        glyphs.remove(0);
        glyphs.push(reph);
        assert(glyphs@ =~= g.skip(2).push(g[0]));
    }
}

/// Shape one Devanagari syllable: reorder pre-base vowel signs, form half forms,
/// and move a reph to the end.
pub fn shape_syllable(syllable: &str) -> (r: Vec<(GlyphId, u32)>)
    ensures
        r@ == shaped_syllable(syllable@),
{
    let cs = chars_of(syllable);
    let total = byte_length(syllable);
    let ghost s = syllable@;
    let mut glyphs: Vec<(GlyphId, u32)> = Vec::new();
    let mut offset: usize = 0;
    let mut k: usize = 0;
    while k < cs.len()
        invariant
            cs@ == s,
            total == byte_len(s),
            k <= cs.len(),
            offset == byte_len(s.take(k as int)),
            glyphs@ =~= syllable_base_glyphs(s).take(k as int),
        decreases cs.len() - k,
    {
        proof {
            lemma_byte_len_take(s, k as int);
            if k + 1 < s.len() {
                lemma_byte_len_take(s, k + 1);
            } else {
                assert(s.take(k + 1) =~= s);
            }
        }
        glyphs.push((GlyphId(cs[k] as u32), offset as u32));
        offset = offset + utf8_width(cs[k]);
        k = k + 1;
    }
    assert(syllable_base_glyphs(s).take(s.len() as int) =~= syllable_base_glyphs(s));
    reorder_devanagari(&mut glyphs);
    apply_half_forms(&mut glyphs);
    apply_reph(&mut glyphs);
    glyphs
}

/// Shape Devanagari text into glyph identifiers with their clusters: the text is
/// split into syllables, each shaped on its own, one after the other.
pub fn devanagari_glyphs(text: &str) -> (r: Vec<(GlyphId, u32)>)
    ensures
        r@ == shaped_syllables(syllables_from(text@, 0)),
{
    let syllables = identify_syllables(text);
    let ghost views = crate::strs::string_views(syllables@);
    let mut out: Vec<(GlyphId, u32)> = Vec::new();
    let mut k: usize = 0;
    assert(views.skip(0) =~= views);
    assert(out@ + shaped_syllables(views) =~= shaped_syllables(views));
    while k < syllables.len()
        invariant
            views == crate::strs::string_views(syllables@),
            k <= syllables.len(),
            out@ + shaped_syllables(views.skip(k as int)) == shaped_syllables(views),
        decreases syllables.len() - k,
    {
        let mut shaped = shape_syllable(syllables[k].as_str());
        let ghost before = out@;
        proof {
            assert(views.skip(k as int).drop_first() =~= views.skip(k + 1));
            assert(views.skip(k as int)[0] == syllables@[k as int]@);
        }
        out.append(&mut shaped);
        assert(out@ =~= before + shaped_syllable(views[k as int]));
        k = k + 1;
    }
    proof {
        assert(views.skip(k as int) =~= Seq::<Seq<char>>::empty());
        assert(out@ + shaped_syllables(views.skip(k as int)) =~= out@);
        assert(views.skip(0) =~= views);
    }
    out
}

/// Text justification: which glyphs take up the extra space.
pub struct JustificationEngine;

/// Whether a kashida can follow a glyph: an Arabic-block glyph.
pub open spec fn spec_can_insert_kashida(g: GlyphId) -> bool {
    0x0600 <= g.0 <= 0x06FF
}

/// The positions of the glyphs that satisfy `p`, in order.
pub open spec fn positions_where(s: Seq<GlyphId>, p: spec_fn(GlyphId) -> bool) -> Seq<int>
    decreases s.len(),
{
    if s.len() == 0 {
        seq![]
    } else if p(s.last()) {
        positions_where(s.drop_last(), p).push(s.len() - 1)
    } else {
        positions_where(s.drop_last(), p)
    }
}

/// Whether a glyph is the space glyph.
pub open spec fn is_space_glyph(g: GlyphId) -> bool {
    g.0 == 0x20
}

/// Every position of a sequence of glyphs.
pub open spec fn all_positions(n: nat) -> Seq<int> {
    Seq::new(n, |i: int| i)
}

/// The glyphs that Latin justification widens: the spaces, or every glyph where there is none.
pub open spec fn latin_targets(s: Seq<GlyphId>) -> Seq<int> {
    let spaces = positions_where(s, |g: GlyphId| is_space_glyph(g));
    if spaces.len() == 0 { all_positions(s.len()) } else { spaces }
}

/// The glyphs that justification widens: for Arabic the glyphs a kashida can follow
/// (the Latin targets where there is none), for other scripts the Latin targets.
pub open spec fn justification_targets(s: Seq<GlyphId>, script: UnicodeScript) -> Seq<int> {
    let kashida = positions_where(s, |g: GlyphId| spec_can_insert_kashida(g));
    if script == UnicodeScript::Arabic && kashida.len() > 0 {
        kashida
    } else {
        latin_targets(s)
    }
}

impl JustificationEngine {
    /// Whether a kashida can be inserted after this glyph.
    pub fn can_insert_kashida(glyph_id: GlyphId) -> (r: bool)
        ensures
            r == spec_can_insert_kashida(glyph_id),
    {
        0x0600 <= glyph_id.0 && glyph_id.0 <= 0x06FF
    }

    fn spaces(glyphs: &[GlyphId]) -> (r: Vec<usize>)
        ensures
            r@.map_values(|i: usize| i as int) == positions_where(glyphs@, |g: GlyphId| is_space_glyph(g)),
    {
        let mut r: Vec<usize> = Vec::new();
        let mut i: usize = 0;
        while i < glyphs.len()
            invariant
                i <= glyphs.len(),
                r@.map_values(|j: usize| j as int) == positions_where(glyphs@.take(i as int), |g: GlyphId| is_space_glyph(g)),
            decreases glyphs.len() - i,
        {
            let ghost before = r@;
            let ghost t1 = glyphs@.take(i + 1);
            assert(t1.drop_last() =~= glyphs@.take(i as int));
            assert(t1.last() == glyphs@[i as int]);
            assert(is_space_glyph(glyphs@[i as int]) == (glyphs@[i as int].0 == 0x20));
                        if glyphs[i].0 == 0x20 {
                r.push(i);
                assert(r@.map_values(|j: usize| j as int) =~= before.map_values(|j: usize| j as int).push(i as int));
            }
            assert(r@.map_values(|j: usize| j as int) == positions_where(t1, |g: GlyphId| is_space_glyph(g)));
            i = i + 1;
        }
        assert(glyphs@.take(glyphs.len() as int) =~= glyphs@);
        r
    }

    fn kashida_points(glyphs: &[GlyphId]) -> (r: Vec<usize>)
        ensures
            r@.map_values(|i: usize| i as int) == positions_where(glyphs@, |g: GlyphId| spec_can_insert_kashida(g)),
    {
        let mut r: Vec<usize> = Vec::new();
        let mut i: usize = 0;
        while i < glyphs.len()
            invariant
                i <= glyphs.len(),
                r@.map_values(|j: usize| j as int) == positions_where(glyphs@.take(i as int), |g: GlyphId| spec_can_insert_kashida(g)),
            decreases glyphs.len() - i,
        {
            let ghost before = r@;
            let ghost t1 = glyphs@.take(i + 1);
            assert(t1.drop_last() =~= glyphs@.take(i as int));
            assert(t1.last() == glyphs@[i as int]);
            if Self::can_insert_kashida(glyphs[i]) {
                r.push(i);
                assert(r@.map_values(|j: usize| j as int) =~= before.map_values(|j: usize| j as int).push(i as int));
            }
            assert(r@.map_values(|j: usize| j as int) == positions_where(t1, |g: GlyphId| spec_can_insert_kashida(g)));
            i = i + 1;
        }
        assert(glyphs@.take(glyphs.len() as int) =~= glyphs@);
        r
    }

    /// The positions of the glyphs that justification widens, each by the same share.
    pub fn targets(glyphs: &[GlyphId], script: UnicodeScript) -> (r: Vec<usize>)
        ensures
            r@.map_values(|i: usize| i as int) == justification_targets(glyphs@, script),
    {
        if script == UnicodeScript::Arabic {
            let k = Self::kashida_points(glyphs);
            if k.len() > 0 {
                return k;
            }
        }
        let s = Self::spaces(glyphs);
        if s.len() > 0 {
            return s;
        }
        let mut r: Vec<usize> = Vec::new();
        let mut i: usize = 0;
        while i < glyphs.len()
            invariant
                i <= glyphs.len(),
                r@.len() == i,
                forall|j: int| 0 <= j < i ==> #[trigger] r@[j] == j,
            decreases glyphs.len() - i,
        {
            r.push(i);
            i = i + 1;
        }
        assert(r@.map_values(|j: usize| j as int) =~= all_positions(glyphs@.len()));
        r
    }
}

/// Whether a code point belongs to a script that needs complex shaping: Arabic,
/// Hebrew, Devanagari or Thai.
pub open spec fn is_complex_code(u: u32) -> bool {
    (0x0600 <= u <= 0x06FF) || (0x0590 <= u <= 0x05FF) || (0x0900 <= u <= 0x097F) || (0x0E00 <= u <= 0x0E7F)
}

/// Whether a text holds a character of a script that needs complex shaping.
pub fn is_complex_script(text: &str) -> (r: bool)
    ensures
        r == exists|i: int| 0 <= i < text@.len() && is_complex_code(#[trigger] text@[i] as u32),
{
    let cs = chars_of(text);
    let mut i: usize = 0;
    while i < cs.len()
        invariant
            cs@ == text@,
            i <= cs.len(),
            forall|j: int| 0 <= j < i ==> !is_complex_code(#[trigger] cs@[j] as u32),
        decreases cs.len() - i,
    {
        let u = cs[i] as u32;
        if (0x0600 <= u && u <= 0x06FF) || (0x0590 <= u && u <= 0x05FF) || (0x0900 <= u && u <= 0x097F)
            || (0x0E00 <= u && u <= 0x0E7F) {
            return true;
        }
        i = i + 1;
    }
    false
}

} // verus!
