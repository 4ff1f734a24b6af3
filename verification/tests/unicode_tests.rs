use std::sync::Arc;
use slate::unicode::{UnicodePropertyDatabase, UnicodeScriptExtended, GeneralCategory, BidiClass, GraphemeClusterBreaker,
    WordBreaker, SentenceBreaker, grapheme_rule, GraphemeBreakClass, word_rule, WordBreakClass, sentence_rule,
    SentenceBreakClass, trim_string};
use slate::bridge::{BridgeState, NodeId, alloc_id, push, drain, reset};
use slate::event_loop::{EventLoop, set_timeout, set_interval, clear_timeout, clear_interval};

#[test]
fn property_database_contents() {
    let db = UnicodePropertyDatabase::new();
    assert_eq!(db.get_script('A' as u32), UnicodeScriptExtended::Latin);
    assert_eq!(db.get_script(0x05D0), UnicodeScriptExtended::Hebrew);
    assert_eq!(db.get_script(0x4E2D), UnicodeScriptExtended::Han);
    assert_eq!(db.get_script(0x10000), UnicodeScriptExtended::Unknown);
    assert_eq!(db.get_general_category('A' as u32), GeneralCategory::UppercaseLetter);
    assert_eq!(db.get_general_category('!' as u32), GeneralCategory::OtherPunctuation);
    assert_eq!(db.get_general_category(0x10000), GeneralCategory::Unassigned);
    assert_eq!(db.get_bidi_class(0x0627), BidiClass::ArabicLetter);
    assert_eq!(db.get_bidi_class(0x05D0), BidiClass::RightToLeft);
    assert_eq!(db.get_bidi_class(0x10000), BidiClass::LeftToRight);
    assert_eq!(db.to_lowercase('A' as u32), 'a' as u32);
    assert_eq!(db.to_uppercase('z' as u32), 'Z' as u32);
    assert_eq!(db.to_titlecase('z' as u32), 'z' as u32);
    assert_eq!(db.get_digit_value('7' as u32), Some(7));
    assert_eq!(db.get_combining_class(0x0301), 0);
    assert_eq!(db.get_decomposition(0x00E9), None);
    assert!(db.is_letter('q' as u32));
    assert!(db.is_number('0' as u32));
    assert!(!db.is_mark('a' as u32));
    assert!(db.is_whitespace(' ' as u32));
    assert!(db.is_whitespace('\t' as u32));
}

#[test]
fn breaking_rules() {
    assert!(!grapheme_rule(GraphemeBreakClass::CarriageReturn, GraphemeBreakClass::LineFeed));
    assert!(!grapheme_rule(GraphemeBreakClass::Other, GraphemeBreakClass::Extend));
    assert!(grapheme_rule(GraphemeBreakClass::Other, GraphemeBreakClass::Other));
    assert!(!word_rule(WordBreakClass::WSegSpace, WordBreakClass::WSegSpace));
    assert!(word_rule(WordBreakClass::Newline, WordBreakClass::Other));
    assert!(sentence_rule(SentenceBreakClass::Sep, SentenceBreakClass::Other));
    assert!(!sentence_rule(SentenceBreakClass::Other, SentenceBreakClass::Other));
}

#[test]
fn graphemes_words_and_sentences() {
    let db = Arc::new(UnicodePropertyDatabase::new());
    let g = GraphemeClusterBreaker::new(db.clone());
    assert_eq!(g.find_boundaries("héllo"), vec![0, 1, 3, 4, 5, 6]);
    assert_eq!(g.split_graphemes("ab"), vec!["a".to_string(), "b".to_string()]);
    assert!(g.split_graphemes("").is_empty());
    assert_eq!(g.find_boundaries(""), vec![0]);
    let chars: Vec<char> = "ab".chars().collect();
    assert!(g.is_boundary(&chars, 1));
    let w = WordBreaker::new(db.clone());
    assert_eq!(w.split_words("a b"), vec!["a".to_string(), "b".to_string()]);
    let s = SentenceBreaker::new(db);
    assert_eq!(s.find_boundaries("Hi. Yo"), vec![0, 6]);
    assert_eq!(s.split_sentences("  Hi. Yo  "), vec!["Hi. Yo".to_string()]);
    assert_eq!(trim_string("\t x \n"), "x");
}

#[test]
fn bridge_ids_and_calls() {
    let mut state: BridgeState<&str> = BridgeState::new();
    assert_eq!(alloc_id(&mut state), NodeId(1));
    assert_eq!(alloc_id(&mut state), NodeId(2));
    push(&mut state, "create");
    push(&mut state, "attach");
    assert_eq!(drain(&mut state), vec!["create", "attach"]);
    assert!(drain(&mut state).is_empty());
    push(&mut state, "x");
    reset(&mut state);
    assert!(drain(&mut state).is_empty());
    assert_eq!(alloc_id(&mut state), NodeId(1));
}

#[test]
fn event_loop_drains_queues() {
    let mut el = EventLoop::new();
    el.schedule_task(std::time::Duration::from_millis(5));
    el.queue_microtask();
    assert!(el.run().is_ok());
    assert_eq!(set_timeout(10), 0);
    assert_eq!(set_interval(10), 0);
    clear_timeout(0);
    clear_interval(0);
}

#[test]
fn white_space_matches_std() {
    for u in 0u32..0x3100 {
        if let Some(c) = char::from_u32(u) {
            assert_eq!(slate::unicode::is_white_space(c), c.is_whitespace(), "U+{:04X}", u);
        }
    }
}

#[test]
fn letters_beyond_ascii() {
    let db = UnicodePropertyDatabase::new();
    assert!(db.is_letter(0x0628));
    assert!(db.is_letter(0x00E9));
    assert!(db.is_letter(0x03B1));
    assert!(db.is_letter(0x0041));
    assert!(db.is_letter(0x05D0));
    assert!(db.is_letter(0x0416));
    assert!(db.is_mark(0x0301));
    assert!(db.is_number(0x0663));
    assert!(!db.is_letter(0x00D7));
    assert_eq!(db.get_general_category(0x00C9), GeneralCategory::UppercaseLetter);
    assert_eq!(db.get_general_category(0x0640), GeneralCategory::ModifierLetter);
    assert!(db.is_whitespace(0x3000));
}

#[test]
fn uax29_words_and_graphemes() {
    let db = Arc::new(UnicodePropertyDatabase::new());
    let w = WordBreaker::new(db.clone());
    assert_eq!(w.split_words("hello world"), vec!["hello".to_string(), "world".to_string()]);
    assert_eq!(w.split_words("abc123 x_y"), vec!["abc123".to_string(), "x_y".to_string()]);
    assert_eq!(w.split_words("a,b"), vec!["a".to_string(), ",".to_string(), "b".to_string()]);
    let g = GraphemeClusterBreaker::new(db);
    assert_eq!(g.split_graphemes("e\u{0301}"), vec!["e\u{0301}".to_string()]);
    assert_eq!(g.split_graphemes("\r\n"), vec!["\r\n".to_string()]);
    assert_eq!(g.split_graphemes("a\nb"), vec!["a".to_string(), "\n".to_string(), "b".to_string()]);
    assert_eq!(g.split_graphemes("\u{1100}\u{1161}\u{11A8}"), vec!["\u{1100}\u{1161}\u{11A8}".to_string()]);
    assert_eq!(g.split_graphemes("\u{D55C}\u{AE00}").len(), 2);
}
