//! The console API's output: the line each console method prints, and the counters
//! behind `console.count`.
use vstd::prelude::*;
use crate::strs::{decimal, decimal_string, push_str, to_owned_string, string_views};
use crate::string_map::StringMap;

verus! {

/// The console methods that print their arguments.
#[derive(Debug, Clone, Copy, PartialEq, Eq, Structural)]
pub enum ConsoleLevel {
    Log,
    Error,
    Warn,
    Info,
    Debug,
    Trace,
}

/// The tag a console line starts with.
pub open spec fn level_tag(level: ConsoleLevel) -> Seq<char> {
    match level {
        ConsoleLevel::Log => "[LOG] "@,
        ConsoleLevel::Error => "[ERROR] "@,
        ConsoleLevel::Warn => "[WARN] "@,
        ConsoleLevel::Info => "[INFO] "@,
        ConsoleLevel::Debug => "[DEBUG] "@,
        ConsoleLevel::Trace => "[TRACE] "@,
    }
}

/// Whether a level's line goes to standard error: errors do, the rest go to standard output.
pub open spec fn spec_to_stderr(level: ConsoleLevel) -> bool {
    level == ConsoleLevel::Error
}

/// The parts joined, with `sep` between each two.
pub open spec fn joined_with(parts: Seq<Seq<char>>, sep: Seq<char>) -> Seq<char>
    decreases parts.len(),
{
    if parts.len() == 0 {
        Seq::empty()
    } else if parts.len() == 1 {
        parts[0]
    } else {
        joined_with(parts.drop_last(), sep) + sep + parts.last()
    }
}

/// The line a console method prints: its tag, then its arguments joined by spaces.
pub open spec fn spec_console_line(level: ConsoleLevel, args: Seq<Seq<char>>) -> Seq<char> {
    level_tag(level) + joined_with(args, " "@)
}

/// The tag a console line starts with.
fn level_tag_string(level: ConsoleLevel) -> (r: String)
    ensures
        r@ == level_tag(level),
{
    match level {
        ConsoleLevel::Log => to_owned_string("[LOG] "),
        ConsoleLevel::Error => to_owned_string("[ERROR] "),
        ConsoleLevel::Warn => to_owned_string("[WARN] "),
        ConsoleLevel::Info => to_owned_string("[INFO] "),
        ConsoleLevel::Debug => to_owned_string("[DEBUG] "),
        ConsoleLevel::Trace => to_owned_string("[TRACE] "),
    }
}

/// Whether a level's line goes to standard error.
pub fn to_stderr(level: ConsoleLevel) -> (r: bool)
    ensures
        r == spec_to_stderr(level),
{
    match level {
        ConsoleLevel::Error => true,
        _ => false,
    }
}

/// Appends the parts, joined by `sep`, to `out`.
fn push_joined(out: &mut String, parts: &Vec<String>, sep: &str)
    ensures
        final(out)@ == old(out)@ + joined_with(string_views(parts@), sep@),
{
    let ghost ps = string_views(parts@);
    let ghost start = out@;
    let mut i: usize = 0;
    while i < parts.len()
        invariant
            ps == string_views(parts@),
            i <= parts@.len(),
            out@ == start + joined_with(ps.take(i as int), sep@),
        decreases parts.len() - i,
    {
        let ghost before = out@;
        assert(ps.take(i + 1).drop_last() =~= ps.take(i as int));
        assert(ps.take(i + 1).last() == parts@[i as int]@);
        if i > 0 {
            push_str(out, sep);
        }
        push_str(out, parts[i].as_str());
        if i == 0 {
            assert(ps.take(1) =~= seq![parts@[0]@]);
            assert(out@ =~= start + joined_with(ps.take(1), sep@));
        } else {
            assert(out@ =~= start + joined_with(ps.take(i + 1), sep@));
        }
        i = i + 1;
    }
    assert(ps.take(i as int) =~= ps);
}

/// The line a console method prints for its arguments.
pub fn console_line(level: ConsoleLevel, args: &Vec<String>) -> (r: String)
    ensures
        r@ == spec_console_line(level, string_views(args@)),
{
    let mut r = level_tag_string(level);
    push_joined(&mut r, args, " ");
    r
}

/// The line `console.assert` prints when its condition is false, for the arguments
/// after the condition.
pub fn assert_line(args: &Vec<String>) -> (r: String)
    ensures
        r@ == "[ASSERT] Assertion failed: "@ + joined_with(string_views(args@), " "@),
{
    let mut r = to_owned_string("[ASSERT] Assertion failed: ");
    push_joined(&mut r, args, " ");
    r
}

/// The line `console.count` prints: the label and its count.
pub fn count_line(label: &str, n: u32) -> (r: String)
    ensures
        r@ == "[COUNT] "@ + label@ + ": "@ + decimal(n as nat),
{
    let mut r = to_owned_string("[COUNT] ");
    push_str(&mut r, label);
    push_str(&mut r, ": ");
    let d = decimal_string(n as usize);
    push_str(&mut r, d.as_str());
    r
}

/// The counts `console.count` keeps, by label.
pub struct ConsoleCounters {
    counts: StringMap<u32>,
}

impl View for ConsoleCounters {
    type V = Map<Seq<char>, u32>;

    closed spec fn view(&self) -> Map<Seq<char>, u32> {
        self.counts.map()
    }
}

impl ConsoleCounters {
    #[verifier::type_invariant]
    spec fn counts_wf(self) -> bool {
        self.counts.wf()
    }

    /// No label counted yet.
    pub fn new() -> (r: Self)
        ensures
            r@ == Map::<Seq<char>, u32>::empty(),
    {
        ConsoleCounters { counts: StringMap::new() }
    }

    /// How often a label has been counted.
    pub fn get(&self, label: &str) -> (r: u32)
        ensures
            r == (if self@.contains_key(label@) { self@[label@] } else { 0 }),
    {
        proof {
            use_type_invariant(self);
        }
        match self.counts.get(label) {
            Some(c) => *c,
            None => 0,
        }
    }

    /// Count a label once more and give its new count.
    pub fn count(&mut self, label: &str) -> (r: u32)
        requires
            (if old(self)@.contains_key(label@) { old(self)@[label@] } else { 0 }) < u32::MAX,
        ensures
            r == (if old(self)@.contains_key(label@) { old(self)@[label@] } else { 0 }) + 1,
            final(self)@ == old(self)@.insert(label@, r),
    {
        let n = self.get(label);
        let r = n + 1;
        proof {
            use_type_invariant(&*self);
        }
        let mut counts = StringMap::new();
        std::mem::swap(&mut counts, &mut self.counts);
        counts.insert(to_owned_string(label), r);
        self.counts = counts;
        r
    }
}

} // verus!
