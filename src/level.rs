use vstd::prelude::*;

verus! {

/// The level of a message, from the most severe to the most verbose.
#[derive(Clone, Copy, Debug, PartialEq, Eq, Structural)]
pub enum Level {
    Error,
    Warn,
    Info,
    Debug,
    Trace,
}

/// A ceiling on the levels that pass: `Off` lets nothing through, `Trace`
/// lets everything through.
#[derive(Clone, Copy, Debug, PartialEq, Eq, Structural)]
pub enum LevelFilter {
    Off,
    Error,
    Warn,
    Info,
    Debug,
    Trace,
}

impl Level {
    /// Verbosity of the level: `Error` is 1, `Trace` is 5.
    pub open spec fn rank(self) -> nat {
        match self {
            Level::Error => 1,
            Level::Warn => 2,
            Level::Info => 3,
            Level::Debug => 4,
            Level::Trace => 5,
        }
    }

    /// Upper-case name of the level.
    pub open spec fn name(self) -> Seq<char> {
        match self {
            Level::Error => seq!['E', 'R', 'R', 'O', 'R'],
            Level::Warn => seq!['W', 'A', 'R', 'N'],
            Level::Info => seq!['I', 'N', 'F', 'O'],
            Level::Debug => seq!['D', 'E', 'B', 'U', 'G'],
            Level::Trace => seq!['T', 'R', 'A', 'C', 'E'],
        }
    }

    pub open spec fn spec_to_level_filter(self) -> LevelFilter {
        match self {
            Level::Error => LevelFilter::Error,
            Level::Warn => LevelFilter::Warn,
            Level::Info => LevelFilter::Info,
            Level::Debug => LevelFilter::Debug,
            Level::Trace => LevelFilter::Trace,
        }
    }

    /// The filter that lets this level and every more severe one through.
    pub fn to_level_filter(self) -> (r: LevelFilter)
        ensures
            r == self.spec_to_level_filter(),
            r.rank() == self.rank(),
    {
        match self {
            Level::Error => LevelFilter::Error,
            Level::Warn => LevelFilter::Warn,
            Level::Info => LevelFilter::Info,
            Level::Debug => LevelFilter::Debug,
            Level::Trace => LevelFilter::Trace,
        }
    }

    /// Verbosity of the level, as `rank` states it.
    pub fn verbosity(self) -> (r: u8)
        ensures
            r as nat == self.rank(),
    {
        match self {
            Level::Error => 1,
            Level::Warn => 2,
            Level::Info => 3,
            Level::Debug => 4,
            Level::Trace => 5,
        }
    }

    /// The upper-case name of the level.
    pub fn as_str(self) -> (r: &'static str)
        ensures
            r@ == self.name(),
    {
        proof {
            reveal_strlit("ERROR");
            reveal_strlit("WARN");
            reveal_strlit("INFO");
            reveal_strlit("DEBUG");
            reveal_strlit("TRACE");
        }
        match self {
            Level::Error => "ERROR",
            Level::Warn => "WARN",
            Level::Info => "INFO",
            Level::Debug => "DEBUG",
            Level::Trace => "TRACE",
        }
    }
}

impl LevelFilter {
    /// Verbosity of the ceiling: `Off` is 0, `Trace` is 5.
    pub open spec fn rank(self) -> nat {
        match self {
            LevelFilter::Off => 0,
            LevelFilter::Error => 1,
            LevelFilter::Warn => 2,
            LevelFilter::Info => 3,
            LevelFilter::Debug => 4,
            LevelFilter::Trace => 5,
        }
    }

    /// Verbosity of the ceiling, as `rank` states it.
    pub fn verbosity(self) -> (r: u8)
        ensures
            r as nat == self.rank(),
    {
        match self {
            LevelFilter::Off => 0,
            LevelFilter::Error => 1,
            LevelFilter::Warn => 2,
            LevelFilter::Info => 3,
            LevelFilter::Debug => 4,
            LevelFilter::Trace => 5,
        }
    }

    /// The more verbose of two ceilings.
    pub fn max(self, other: LevelFilter) -> (r: LevelFilter)
        ensures
            r == (if self.rank() >= other.rank() { self } else { other }),
    {
        if self.verbosity() >= other.verbosity() {
            self
        } else {
            other
        }
    }
}

/// A character with ASCII upper case folded to lower case.
pub open spec fn ascii_folded(c: char) -> u32 {
    if 'A' <= c && c <= 'Z' {
        (c as u32 + 32) as u32
    } else {
        c as u32
    }
}

/// Two texts that are equal up to the case of ASCII letters.
pub open spec fn eq_ignore_ascii_case(a: Seq<char>, b: Seq<char>) -> bool {
    &&& a.len() == b.len()
    &&& forall|i: int| 0 <= i < a.len() ==> ascii_folded(#[trigger] a[i]) == ascii_folded(b[i])
}

/// The level whose name a text spells, in any ASCII case; `None` for any
/// other text, `"off"` included.
pub open spec fn level_named(s: Seq<char>) -> Option<Level> {
    if eq_ignore_ascii_case(s, Level::Error.name()) {
        Some(Level::Error)
    } else if eq_ignore_ascii_case(s, Level::Warn.name()) {
        Some(Level::Warn)
    } else if eq_ignore_ascii_case(s, Level::Info.name()) {
        Some(Level::Info)
    } else if eq_ignore_ascii_case(s, Level::Debug.name()) {
        Some(Level::Debug)
    } else if eq_ignore_ascii_case(s, Level::Trace.name()) {
        Some(Level::Trace)
    } else {
        None
    }
}

/// Relies on `log::Level::from_str`: it compares the text, ignoring ASCII
/// case, with the five level names and fails on anything else.
#[verifier::external_body]
fn parse_log_level(s: &str) -> (r: Option<Level>)
    ensures
        r == level_named(s@),
{
    match <log::Level as core::str::FromStr>::from_str(s) {
        Ok(log::Level::Error) => Some(Level::Error),
        Ok(log::Level::Warn) => Some(Level::Warn),
        Ok(log::Level::Info) => Some(Level::Info),
        Ok(log::Level::Debug) => Some(Level::Debug),
        Ok(log::Level::Trace) => Some(Level::Trace),
        Err(_) => None,
    }
}

impl Level {
    /// Reads a level name, in any ASCII case; `None` for any other text.
    pub fn parse(s: &str) -> (r: Option<Level>)
        ensures
            r == level_named(s@),
    {
        parse_log_level(s)
    }
}

} // verus!
