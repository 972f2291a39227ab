use vstd::prelude::*;
use vstd::string::StrSliceExecFns;
use vstd::string::StringExecFns;

verus! {

/// The severity of a log event, totally ordered from the chattiest
/// (`Trace`) to the most urgent (`Error`). `Off` is a sentinel meant
/// only as a threshold: no event reaches it, so a scope whose
/// threshold is `Off` drops everything.
#[derive(Clone, Copy, Debug, PartialEq, Eq, Structural)]
pub enum LogLevel {
    Trace,
    Debug,
    Info,
    Warn,
    Error,
    Off,
}

impl Default for LogLevel {
    /// The default threshold is `Off`: nothing passes until a caller
    /// configures a level.
    fn default() -> (r: Self)
        ensures
            r == LogLevel::Off,
    {
        LogLevel::Off
    }
}

/// The code point of `c`, with ASCII lowercase letters folded to their
/// uppercase counterparts.
pub open spec fn spec_upper_code(c: char) -> int {
    if 97 <= c as int && c as int <= 122 {
        c as int - 32
    } else {
        c as int
    }
}

/// `s` spells `t` up to ASCII case.
pub open spec fn spec_eq_ignore_case(s: Seq<char>, t: Seq<char>) -> bool {
    &&& s.len() == t.len()
    &&& forall|i: int|
        0 <= i < s.len() ==> spec_upper_code(#[trigger] s[i]) == spec_upper_code(t[i])
}

/// The level that a string denotes: a case-insensitive match against
/// the six level names, and `Off` for anything unrecognized.
pub open spec fn spec_level_from_str(s: Seq<char>) -> LogLevel {
    if spec_eq_ignore_case(s, "TRACE"@) {
        LogLevel::Trace
    } else if spec_eq_ignore_case(s, "DEBUG"@) {
        LogLevel::Debug
    } else if spec_eq_ignore_case(s, "INFO"@) {
        LogLevel::Info
    } else if spec_eq_ignore_case(s, "WARN"@) {
        LogLevel::Warn
    } else if spec_eq_ignore_case(s, "ERROR"@) {
        LogLevel::Error
    } else {
        LogLevel::Off
    }
}

fn upper_code(c: char) -> (r: u32)
    ensures
        r == spec_upper_code(c),
{
    let u = c as u32;
    if 97 <= u && u <= 122 {
        u - 32
    } else {
        u
    }
}

/// Compares two strings up to ASCII case, character by character.
fn eq_ignore_case(s: &str, t: &str) -> (r: bool)
    ensures
        r == spec_eq_ignore_case(s@, t@),
{
    let n = s.unicode_len();
    if n != t.unicode_len() {
        return false;
    }
    let mut i: usize = 0;
    while i < n
        invariant
            n == s@.len(),
            n == t@.len(),
            i <= n,
            forall|j: int|
                0 <= j < i ==> spec_upper_code(#[trigger] s@[j]) == spec_upper_code(t@[j]),
        decreases n - i,
    {
        let a = upper_code(s.get_char(i));
        let b = upper_code(t.get_char(i));
        if a != b {
            return false;
        }
        i = i + 1;
    }
    true
}

impl LogLevel {
    /// Position of this level in the severity order; a larger rank is
    /// more severe, and `Off` outranks every emittable level.
    pub open spec fn spec_rank(self) -> int {
        match self {
            LogLevel::Trace => 0,
            LogLevel::Debug => 1,
            LogLevel::Info => 2,
            LogLevel::Warn => 3,
            LogLevel::Error => 4,
            LogLevel::Off => 5,
        }
    }

    /// An event of severity `self` passes a threshold exactly when it
    /// is at least as severe as the threshold.
    pub open spec fn spec_passes(self, threshold: LogLevel) -> bool {
        self.spec_rank() >= threshold.spec_rank()
    }

    /// Canonical uppercase name of this level.
    pub open spec fn spec_name(self) -> Seq<char> {
        match self {
            LogLevel::Trace => "TRACE"@,
            LogLevel::Debug => "DEBUG"@,
            LogLevel::Info => "INFO"@,
            LogLevel::Warn => "WARN"@,
            LogLevel::Error => "ERROR"@,
            LogLevel::Off => "OFF"@,
        }
    }

    pub fn rank(self) -> (r: u8)
        ensures
            r == self.spec_rank(),
    {
        match self {
            LogLevel::Trace => 0,
            LogLevel::Debug => 1,
            LogLevel::Info => 2,
            LogLevel::Warn => 3,
            LogLevel::Error => 4,
            LogLevel::Off => 5,
        }
    }

    /// Decides whether an event of severity `self` passes `threshold`.
    pub fn passes(self, threshold: LogLevel) -> (r: bool)
        ensures
            r == self.spec_passes(threshold),
    {
        self.rank() >= threshold.rank()
    }

    /// Canonical uppercase name of this level, as a borrowed string.
    pub fn as_str(self) -> (r: &'static str)
        ensures
            r@ == self.spec_name(),
    {
        match self {
            LogLevel::Trace => "TRACE",
            LogLevel::Debug => "DEBUG",
            LogLevel::Info => "INFO",
            LogLevel::Warn => "WARN",
            LogLevel::Error => "ERROR",
            LogLevel::Off => "OFF",
        }
    }

    /// Canonical uppercase name of this level, as an owned string.
    pub fn to_display_string(self) -> (r: String)
        ensures
            r@ == self.spec_name(),
    {
        String::from_str(self.as_str())
    }

    /// Parses a level name case-insensitively; anything unrecognized
    /// yields `Off`, so a bad configuration string silences rather
    /// than fails.
    pub fn from_str(level: &str) -> (r: LogLevel)
        ensures
            r == spec_level_from_str(level@),
    {
        if eq_ignore_case(level, "TRACE") {
            LogLevel::Trace
        } else if eq_ignore_case(level, "DEBUG") {
            LogLevel::Debug
        } else if eq_ignore_case(level, "INFO") {
            LogLevel::Info
        } else if eq_ignore_case(level, "WARN") {
            LogLevel::Warn
        } else if eq_ignore_case(level, "ERROR") {
            LogLevel::Error
        } else {
            LogLevel::Off
        }
    }
}

/// The ordering law: a severity passes a threshold exactly when its
/// rank is at least the threshold's.
pub proof fn lemma_passes_iff_rank(severity: LogLevel, threshold: LogLevel)
    ensures
        severity.spec_passes(threshold) <==> severity.spec_rank() >= threshold.spec_rank(),
{
}

/// A threshold of `Off` accepts no emittable event: every severity an
/// event can carry ranks strictly below `Off`.
pub proof fn lemma_off_threshold_accepts_nothing(level: LogLevel)
    requires
        level != LogLevel::Off,
    ensures
        !level.spec_passes(LogLevel::Off),
{
}

/// Matching up to case carries over: two strings that both spell `a`
/// up to ASCII case spell each other too.
proof fn lemma_eq_ignore_case_transfer(a: Seq<char>, b: Seq<char>, c: Seq<char>)
    requires
        spec_eq_ignore_case(a, b),
        spec_eq_ignore_case(a, c),
    ensures
        spec_eq_ignore_case(b, c),
{
    assert forall|i: int| 0 <= i < b.len() implies spec_upper_code(#[trigger] b[i])
        == spec_upper_code(c[i]) by {
        assert(spec_upper_code(a[i]) == spec_upper_code(b[i]));
        assert(spec_upper_code(a[i]) == spec_upper_code(c[i]));
    }
}

/// Any spelling of a level's canonical name, up to ASCII case, parses
/// back to that level.
pub proof fn lemma_level_parse_case_insensitive(s: Seq<char>, level: LogLevel)
    requires
        spec_eq_ignore_case(s, level.spec_name()),
    ensures
        spec_level_from_str(s) == level,
{
    reveal_strlit("TRACE");
    reveal_strlit("DEBUG");
    reveal_strlit("INFO");
    reveal_strlit("WARN");
    reveal_strlit("ERROR");
    reveal_strlit("OFF");
    match level {
        LogLevel::Trace => {
        },
        LogLevel::Debug => {
            if spec_eq_ignore_case(s, "TRACE"@) {
                lemma_eq_ignore_case_transfer(s, "DEBUG"@, "TRACE"@);
                assert(spec_upper_code("DEBUG"@[0]) == spec_upper_code("TRACE"@[0]));
            }
        },
        LogLevel::Info => {
        },
        LogLevel::Warn => {
            if spec_eq_ignore_case(s, "INFO"@) {
                lemma_eq_ignore_case_transfer(s, "WARN"@, "INFO"@);
                assert(spec_upper_code("WARN"@[0]) == spec_upper_code("INFO"@[0]));
            }
        },
        LogLevel::Error => {
            if spec_eq_ignore_case(s, "TRACE"@) {
                lemma_eq_ignore_case_transfer(s, "ERROR"@, "TRACE"@);
                assert(spec_upper_code("ERROR"@[0]) == spec_upper_code("TRACE"@[0]));
            }
            if spec_eq_ignore_case(s, "DEBUG"@) {
                lemma_eq_ignore_case_transfer(s, "ERROR"@, "DEBUG"@);
                assert(spec_upper_code("ERROR"@[0]) == spec_upper_code("DEBUG"@[0]));
            }
        },
        LogLevel::Off => {
        },
    }
}

/// Parsing the canonical name of a level gives the level back.
pub proof fn lemma_level_name_round_trip(level: LogLevel)
    ensures
        spec_level_from_str(level.spec_name()) == level,
{
    reveal_strlit("TRACE");
    reveal_strlit("DEBUG");
    reveal_strlit("INFO");
    reveal_strlit("WARN");
    reveal_strlit("ERROR");
    reveal_strlit("OFF");
    match level {
        LogLevel::Trace => {
        },
        LogLevel::Debug => {
            assert(spec_upper_code("DEBUG"@[0]) != spec_upper_code("TRACE"@[0]));
        },
        LogLevel::Info => {
        },
        LogLevel::Warn => {
            assert(spec_upper_code("WARN"@[0]) != spec_upper_code("INFO"@[0]));
        },
        LogLevel::Error => {
            assert(spec_upper_code("ERROR"@[0]) != spec_upper_code("TRACE"@[0]));
            assert(spec_upper_code("ERROR"@[0]) != spec_upper_code("DEBUG"@[0]));
        },
        LogLevel::Off => {
        },
    }
}

} // verus!
