//! The ordered severity scale shared by every sink of the pipeline.

use vstd::prelude::*;

verus! {

/// Severity of a log event, and likewise the minimum severity a sink
/// demands before it renders an event.  The order is
/// `Trace < Debug < Info < Warn < Error`.
#[derive(Clone, Copy, PartialEq, Eq, Structural, Debug)]
pub enum Level {
    Trace,
    Debug,
    Info,
    Warn,
    Error,
}

impl Level {
    /// Position in the severity order: 0 for `Trace` up to 4 for `Error`.
    pub open spec fn severity(self) -> int {
        match self {
            Level::Trace => 0,
            Level::Debug => 1,
            Level::Info => 2,
            Level::Warn => 3,
            Level::Error => 4,
        }
    }

    pub open spec fn spec_at_least(self, other: Level) -> bool {
        self.severity() >= other.severity()
    }

    /// The position of this level in the severity order.
    pub fn ordinal(&self) -> (r: u8)
        ensures
            r as int == self.severity(),
    {
        match self {
            Level::Trace => 0,
            Level::Debug => 1,
            Level::Info => 2,
            Level::Warn => 3,
            Level::Error => 4,
        }
    }

    /// Whether this level reaches at least `other` on the severity scale.
    pub fn at_least(&self, other: &Level) -> (r: bool)
        ensures
            r == self.spec_at_least(*other),
    {
        self.ordinal() >= other.ordinal()
    }
}

/// A sink whose current threshold is `threshold` renders an event at level
/// `event` exactly when the event is at least as severe as the threshold.
pub open spec fn renders(threshold: Level, event: Level) -> bool {
    event.spec_at_least(threshold)
}

/// Exec mirror of [`renders`]: the decision a sink takes for one event.
pub fn event_renders(threshold: &Level, event: &Level) -> (r: bool)
    ensures
        r == renders(*threshold, *event),
{
    event.at_least(threshold)
}

/// Case-insensitive match of `s` against a canonical level name, given as
/// its lower-case spelling `lo` and its upper-case spelling `hi`.
pub open spec fn chars_match_ci(s: Seq<char>, lo: Seq<char>, hi: Seq<char>) -> bool {
    &&& s.len() == lo.len()
    &&& forall|i: int| 0 <= i < s.len() ==> s[i] == lo[i] || s[i] == hi[i]
}

/// The level named by `s`, if `s` is a case-insensitive spelling of one of
/// the five canonical names; `None` for every other string.
pub open spec fn spec_parse_level(s: Seq<char>) -> Option<Level> {
    if chars_match_ci(s, "trace"@, "TRACE"@) {
        Some(Level::Trace)
    } else if chars_match_ci(s, "debug"@, "DEBUG"@) {
        Some(Level::Debug)
    } else if chars_match_ci(s, "info"@, "INFO"@) {
        Some(Level::Info)
    } else if chars_match_ci(s, "warn"@, "WARN"@) {
        Some(Level::Warn)
    } else if chars_match_ci(s, "error"@, "ERROR"@) {
        Some(Level::Error)
    } else {
        None
    }
}

fn matches_ci(s: &str, lo: &str, hi: &str) -> (r: bool)
    requires
        lo@.len() == hi@.len(),
    ensures
        r == chars_match_ci(s@, lo@, hi@),
{
    let n = s.unicode_len();
    if n != lo.unicode_len() {
        return false;
    }
    let mut i: usize = 0;
    while i < n
        invariant
            n == s@.len(),
            n == lo@.len(),
            lo@.len() == hi@.len(),
            0 <= i <= n,
            forall|j: int| 0 <= j < i ==> s@[j] == lo@[j] || s@[j] == hi@[j],
        decreases n - i,
    {
        let c = s.get_char(i);
        let cl = lo.get_char(i);
        let ch = hi.get_char(i);
        if !(c == cl || c == ch) {
            return false;
        }
        i += 1;
    }
    true
}

/// Parses a textual severity name, recognising exactly the five canonical
/// names regardless of case.  Any other text yields `None`, so that a
/// malformed name in configuration can be ignored rather than crash the
/// process.
pub fn parse_level(s: &str) -> (r: Option<Level>)
    ensures
        r == spec_parse_level(s@),
{
    proof {
        reveal_strlit("trace");
        reveal_strlit("TRACE");
        reveal_strlit("debug");
        reveal_strlit("DEBUG");
        reveal_strlit("info");
        reveal_strlit("INFO");
        reveal_strlit("warn");
        reveal_strlit("WARN");
        reveal_strlit("error");
        reveal_strlit("ERROR");
    }
    if matches_ci(s, "trace", "TRACE") {
        Some(Level::Trace)
    } else if matches_ci(s, "debug", "DEBUG") {
        Some(Level::Debug)
    } else if matches_ci(s, "info", "INFO") {
        Some(Level::Info)
    } else if matches_ci(s, "warn", "WARN") {
        Some(Level::Warn)
    } else if matches_ci(s, "error", "ERROR") {
        Some(Level::Error)
    } else {
        None
    }
}

} // verus!
