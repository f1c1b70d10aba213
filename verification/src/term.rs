//! How terminal messages and received entries are labelled and coloured.

use crate::cli::LogLevel;
use crate::text::str_equals;
use vstd::prelude::*;

verus! {

/// Terminal colours used by the client.
#[derive(Clone, Copy, Debug, PartialEq, Eq, Structural)]
pub enum TermColor {
    Black,
    Red,
    Green,
    Yellow,
    Blue,
    White,
    BrightBlack,
}

/// The bold label that starts a status line of the client, with its colours.
#[derive(Clone, Copy, Debug, PartialEq, Eq)]
pub struct Badge {
    pub label: &'static str,
    pub background: TermColor,
    pub foreground: TermColor,
}

/// Separator that starts each received entry shown as text.
pub const ENTRY_MARK: &'static str = "│";

/// Colour of the separator of entries shown as text.
pub const ENTRY_MARK_COLOR: TermColor = TermColor::BrightBlack;

/// The badge of a status line for a level name: INFO, SUCCESS and ERROR have
/// their own badges, every other name a neutral one.
pub open spec fn badge_for(level: Seq<char>) -> (Seq<char>, TermColor, TermColor) {
    if level == "INFO"@ {
        (" INFO "@, TermColor::Blue, TermColor::White)
    } else if level == "SUCCESS"@ {
        (" DONE "@, TermColor::Green, TermColor::White)
    } else if level == "ERROR"@ {
        (" FAIL "@, TermColor::Red, TermColor::White)
    } else {
        (" LOG  "@, TermColor::White, TermColor::Black)
    }
}

/// The badge of a status line of the given level name.
pub fn term_badge(level: &str) -> (b: Badge)
    ensures
        (b.label@, b.background, b.foreground) == badge_for(level@),
{
    if str_equals(level, "INFO") {
        Badge { label: " INFO ", background: TermColor::Blue, foreground: TermColor::White }
    } else if str_equals(level, "SUCCESS") {
        Badge { label: " DONE ", background: TermColor::Green, foreground: TermColor::White }
    } else if str_equals(level, "ERROR") {
        Badge { label: " FAIL ", background: TermColor::Red, foreground: TermColor::White }
    } else {
        Badge { label: " LOG  ", background: TermColor::White, foreground: TermColor::Black }
    }
}

/// The name and colour a received entry of `level` is shown with.
pub open spec fn level_style_of(level: LogLevel) -> (Seq<char>, TermColor) {
    match level {
        LogLevel::ERROR => ("ERROR"@, TermColor::Red),
        LogLevel::WARN => ("WARN"@, TermColor::Yellow),
        LogLevel::INFO => ("INFO"@, TermColor::Green),
        LogLevel::DEBUG => ("DEBUG"@, TermColor::Blue),
        LogLevel::TRACE => ("TRACE"@, TermColor::White),
    }
}

/// The name and colour a received entry of `level` is shown with.
pub fn level_style(level: LogLevel) -> (r: (&'static str, TermColor))
    ensures
        (r.0@, r.1) == level_style_of(level),
{
    match level {
        LogLevel::ERROR => ("ERROR", TermColor::Red),
        LogLevel::WARN => ("WARN", TermColor::Yellow),
        LogLevel::INFO => ("INFO", TermColor::Green),
        LogLevel::DEBUG => ("DEBUG", TermColor::Blue),
        LogLevel::TRACE => ("TRACE", TermColor::White),
    }
}

} // verus!
