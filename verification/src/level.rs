use vstd::prelude::*;

verus! {

/// Severity of a log record, ranked by urgency: `Error` is the most urgent,
/// `Trace` the least.
#[derive(Clone, Copy, PartialEq, Eq, Structural, Debug)]
pub enum Level {
    Error,
    Warn,
    Info,
    Debug,
    Trace,
}

/// Foreground colors of the firmware text console. `LightGray` is the
/// customary resting color of such a console before anyone recolors it.
#[derive(Clone, Copy, PartialEq, Eq, Structural, Debug)]
pub enum Color {
    Black,
    Blue,
    Green,
    Cyan,
    Red,
    Magenta,
    Yellow,
    LightGray,
    White,
}

/// The fixed color assignment: a total mapping that gives every severity
/// exactly one console color.
pub open spec fn color_spec(level: Level) -> Color {
    match level {
        Level::Error => Color::Red,
        Level::Warn => Color::Yellow,
        Level::Info => Color::Green,
        Level::Debug => Color::Blue,
        Level::Trace => Color::Magenta,
    }
}

/// Looks up the color in which a record of severity `level` is rendered.
pub fn color_for(level: Level) -> (c: Color)
    ensures
        c == color_spec(level),
{
    match level {
        Level::Error => Color::Red,
        Level::Warn => Color::Yellow,
        Level::Info => Color::Green,
        Level::Debug => Color::Blue,
        Level::Trace => Color::Magenta,
    }
}

/// No two severities share a color: within the fixed table, the color alone
/// identifies the severity of the record it frames.
pub proof fn lemma_color_assignment_injective(a: Level, b: Level)
    ensures
        color_spec(a) == color_spec(b) ==> a == b,
{
}

} // verus!
