//! The severity that a line of process output is given.

use crate::cli::LogLevel;
use crate::text::{chars_of, contains_chars, has_infix, occurs_at};
use vstd::prelude::*;
use vstd::utf8::is_ascii_chars;

verus! {

/// What `str::to_lowercase` of std returns for a string: its lowercase
/// equivalent by the Unicode `Lowercase` property.
pub uninterp spec fn lowercased(s: Seq<char>) -> Seq<char>;

/// An ASCII character with the letters A to Z made lowercase.
pub open spec fn ascii_lower_char(c: char) -> char {
    if 'A' <= c <= 'Z' {
        ((c as int) + 32) as char
    } else {
        c
    }
}

/// An ASCII character with the letters a to z made uppercase.
pub open spec fn ascii_upper_char(c: char) -> char {
    if 'a' <= c <= 'z' {
        ((c as int) - 32) as char
    } else {
        c
    }
}

/// A string with the ASCII letters A to Z made lowercase.
pub open spec fn ascii_lower(s: Seq<char>) -> Seq<char> {
    s.map_values(|c: char| ascii_lower_char(c))
}

/// A string with the ASCII letters a to z made uppercase.
pub open spec fn ascii_upper(s: Seq<char>) -> Seq<char> {
    s.map_values(|c: char| ascii_upper_char(c))
}

/// Calls `str::to_lowercase` of std. Claimed: the result is a function of the
/// characters of `s` alone, named `lowercased`; and for an ASCII string, whose
/// characters each map on their own, it is the string with A to Z made a to z.
/// Nothing is stated of other strings.
#[verifier::external_body]
fn to_lowercase(s: &str) -> (r: String)
    ensures
        r@ == lowercased(s@),
        is_ascii_chars(s@) ==> r@ == ascii_lower(s@),
{
    s.to_lowercase()
}

/// The severity a lowercased line is given by its keywords: "error" before
/// "warn" before "debug", and INFO when none occurs.
pub open spec fn level_of_lowercase(l: Seq<char>) -> LogLevel {
    if has_infix(l, "error"@) {
        LogLevel::ERROR
    } else if has_infix(l, "warn"@) {
        LogLevel::WARN
    } else if has_infix(l, "debug"@) {
        LogLevel::DEBUG
    } else {
        LogLevel::INFO
    }
}

/// The severity of a line of standard output, once lowercased.
pub fn level_from_lowercase(l: &str) -> (r: LogLevel)
    ensures
        r == level_of_lowercase(l@),
        (exists|i: int| occurs_at(l@, "error"@, i)) ==> r == LogLevel::ERROR,
        !(exists|i: int| occurs_at(l@, "error"@, i)) && (exists|i: int|
            occurs_at(l@, "warn"@, i)) ==> r == LogLevel::WARN,
        !(exists|i: int| occurs_at(l@, "error"@, i)) && !(exists|i: int|
            occurs_at(l@, "warn"@, i)) && (exists|i: int| occurs_at(l@, "debug"@, i)) ==> r
            == LogLevel::DEBUG,
        !(exists|i: int| occurs_at(l@, "error"@, i)) && !(exists|i: int|
            occurs_at(l@, "warn"@, i)) && !(exists|i: int| occurs_at(l@, "debug"@, i)) ==> r
            == LogLevel::INFO,
        r != LogLevel::TRACE,
{
    proof {
        law_level_keywords(l@);
    }
    let chars = chars_of(l);
    if contains_chars(&chars, &chars_of("error")) {
        LogLevel::ERROR
    } else if contains_chars(&chars, &chars_of("warn")) {
        LogLevel::WARN
    } else if contains_chars(&chars, &chars_of("debug")) {
        LogLevel::DEBUG
    } else {
        LogLevel::INFO
    }
}

/// The severity of a line of output: every line of standard error is an
/// ERROR; a line of standard output is judged by its keywords, case aside.
pub fn infer_level(line: &str, is_stderr: bool) -> (r: LogLevel)
    ensures
        is_stderr ==> r == LogLevel::ERROR,
        !is_stderr ==> r == level_of_lowercase(lowercased(line@)),
        !is_stderr && is_ascii_chars(line@) ==> r == level_of_lowercase(ascii_lower(line@)),
        !is_stderr ==> ((r == LogLevel::ERROR) <==> exists|i: int|
            occurs_at(lowercased(line@), "error"@, i)),
        !is_stderr ==> ((r == LogLevel::WARN) <==> !(exists|i: int|
            occurs_at(lowercased(line@), "error"@, i)) && exists|i: int|
            occurs_at(lowercased(line@), "warn"@, i)),
        !is_stderr ==> ((r == LogLevel::DEBUG) <==> !(exists|i: int|
            occurs_at(lowercased(line@), "error"@, i)) && !(exists|i: int|
            occurs_at(lowercased(line@), "warn"@, i)) && exists|i: int|
            occurs_at(lowercased(line@), "debug"@, i)),
        r != LogLevel::TRACE,
{
    if is_stderr {
        return LogLevel::ERROR;
    }
    let l = to_lowercase(line);
    proof {
        law_level_keywords(lowercased(line@));
    }
    level_from_lowercase(l.as_str())
}

/// How a lowercased line of standard output gets its level: ERROR exactly when
/// "error" occurs in it anywhere (inside a word too); else WARN exactly when
/// "warn" occurs; else DEBUG exactly when "debug" occurs; else INFO. No line
/// of standard output is ever TRACE.
pub proof fn law_level_keywords(l: Seq<char>)
    ensures
        (level_of_lowercase(l) == LogLevel::ERROR) <==> (exists|i: int| occurs_at(l, "error"@, i)),
        (level_of_lowercase(l) == LogLevel::WARN) <==> (!(exists|i: int|
            occurs_at(l, "error"@, i)) && exists|i: int| occurs_at(l, "warn"@, i)),
        (level_of_lowercase(l) == LogLevel::DEBUG) <==> (!(exists|i: int|
            occurs_at(l, "error"@, i)) && !(exists|i: int| occurs_at(l, "warn"@, i)) && exists|
            i: int,
        | occurs_at(l, "debug"@, i)),
        (level_of_lowercase(l) == LogLevel::INFO) <==> (!(exists|i: int|
            occurs_at(l, "error"@, i)) && !(exists|i: int| occurs_at(l, "warn"@, i)) && !(exists|
            i: int,
        | occurs_at(l, "debug"@, i))),
        level_of_lowercase(l) != LogLevel::TRACE,
{
}


/// The level of an ASCII line of standard output does not depend on the case
/// of its letters: the line, its uppercase form and its lowercase form are
/// all ASCII and lowercase to the same string, so they get the same level.
pub proof fn law_level_ignores_ascii_case(s: Seq<char>)
    requires
        is_ascii_chars(s),
    ensures
        is_ascii_chars(ascii_upper(s)),
        is_ascii_chars(ascii_lower(s)),
        ascii_lower(ascii_upper(s)) == ascii_lower(s),
        ascii_lower(ascii_lower(s)) == ascii_lower(s),
        level_of_lowercase(ascii_lower(ascii_upper(s))) == level_of_lowercase(ascii_lower(s)),
        level_of_lowercase(ascii_lower(ascii_lower(s))) == level_of_lowercase(ascii_lower(s)),
{
    assert forall|i: int| 0 <= i < s.len() implies '\0' <= #[trigger] ascii_upper(s)[i] <= '\u{7f}'
        && '\0' <= ascii_lower(s)[i] <= '\u{7f}'
        && ascii_lower_char(ascii_upper(s)[i]) == ascii_lower_char(s[i])
        && ascii_lower_char(ascii_lower(s)[i]) == ascii_lower_char(s[i]) by {
        let c = s[i];
        assert('\0' <= c <= '\u{7f}');
    }
    assert(ascii_lower(ascii_upper(s)) =~= ascii_lower(s));
    assert(ascii_lower(ascii_lower(s)) =~= ascii_lower(s));
}

} // verus!
