use crate::level::Level;
use vstd::prelude::*;
use vstd::string::*;

verus! {

/// The escape character that opens an ANSI sequence.
pub open spec fn esc() -> char {
    '\u{1b}'
}

/// `s` holds no escape character.
pub open spec fn escape_free(s: Seq<char>) -> bool {
    forall|i: int| 0 <= i < s.len() ==> s[i] != esc()
}

/// `s` between the ANSI sequence that sets foreground colour `code` and the
/// sequence that resets all attributes.
pub open spec fn painted(code: Seq<char>, s: Seq<char>) -> Seq<char> {
    seq![esc(), '['] + code + seq!['m'] + s + seq![esc(), '[', '0', 'm']
}

/// The foreground colour code of a level: red, yellow, cyan, magenta; none
/// for `Trace`.
pub open spec fn color_code(level: Level) -> Option<Seq<char>> {
    match level {
        Level::Error => Some(seq!['3', '1']),
        Level::Warn => Some(seq!['3', '3']),
        Level::Info => Some(seq!['3', '6']),
        Level::Debug => Some(seq!['3', '5']),
        Level::Trace => None,
    }
}

/// What colouring `s` with `code` may give: `colored` leaves the text plain
/// where the environment or the output turns colours off.
pub open spec fn paint_outcome(code: Seq<char>, s: Seq<char>, r: Seq<char>) -> bool {
    r == s || r == painted(code, s)
}

/// The level name, padded with spaces on the right to five characters.
pub open spec fn padded_name(level: Level) -> Seq<char> {
    if level.name().len() < 5 {
        level.name() + seq![' ']
    } else {
        level.name()
    }
}

/// What the level column may hold: the padded name, and where colours are on,
/// possibly that name in the level's colour.
pub open spec fn is_level_tag(colors: bool, level: Level, tag: Seq<char>) -> bool {
    match color_code(level) {
        Some(code) if colors => paint_outcome(code, padded_name(level), tag),
        _ => tag == padded_name(level),
    }
}

/// Relies on `colored::Colorize::red`: when colours are on, the text between
/// the sequences for red and for reset; else the text as it is. A text
/// without escapes is copied unchanged.
#[verifier::external_body]
fn paint_red(s: &str) -> (r: String)
    requires
        escape_free(s@),
    ensures
        paint_outcome(seq!['3', '1'], s@, r@),
{
    colored::Colorize::red(s).to_string()
}

/// Relies on `colored::Colorize::yellow`, as `paint_red` does on red.
#[verifier::external_body]
fn paint_yellow(s: &str) -> (r: String)
    requires
        escape_free(s@),
    ensures
        paint_outcome(seq!['3', '3'], s@, r@),
{
    colored::Colorize::yellow(s).to_string()
}

/// Relies on `colored::Colorize::cyan`, as `paint_red` does on red.
#[verifier::external_body]
fn paint_cyan(s: &str) -> (r: String)
    requires
        escape_free(s@),
    ensures
        paint_outcome(seq!['3', '6'], s@, r@),
{
    colored::Colorize::cyan(s).to_string()
}

/// Relies on `colored::Colorize::purple`, which sets magenta, as `paint_red`
/// does on red.
#[verifier::external_body]
fn paint_purple(s: &str) -> (r: String)
    requires
        escape_free(s@),
    ensures
        paint_outcome(seq!['3', '5'], s@, r@),
{
    colored::Colorize::purple(s).to_string()
}

/// Relies on `colored::Colorize::normal`: it clears every colour and style,
/// and a string with none is written as it is.
#[verifier::external_body]
fn paint_normal(s: &str) -> (r: String)
    ensures
        r@ == s@,
{
    colored::Colorize::normal(s).to_string()
}

/// The level name padded to five characters.
pub fn padded_label(level: Level) -> (r: String)
    ensures
        r@ == padded_name(level),
        escape_free(r@),
{
    let mut s = String::from_str(level.as_str());
    if s.as_str().unicode_len() < 5 {
        s.append(" ");
    }
    proof {
        reveal_strlit(" ");
    }
    s
}

/// The level column of a line: the padded name, coloured by level where
/// `colors` is on.
pub fn level_tag(level: Level, colors: bool) -> (r: String)
    ensures
        is_level_tag(colors, level, r@),
{
    let label = padded_label(level);
    if !colors {
        return label;
    }
    match level {
        Level::Error => paint_red(label.as_str()),
        Level::Warn => paint_yellow(label.as_str()),
        Level::Info => paint_cyan(label.as_str()),
        Level::Debug => paint_purple(label.as_str()),
        Level::Trace => paint_normal(label.as_str()),
    }
}

} // verus!
