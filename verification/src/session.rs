//! The decisions of a publish, subscribe or scan session that do not touch
//! the outside world.

use crate::cli::{LogEntry, LogLevel, WireMessage};
use crate::level::{infer_level, level_of_lowercase, lowercased};
use vstd::prelude::*;

verus! {

/// Address a subscriber gives the broker when none is given or found.
pub const LOOPBACK_IP: &'static str = "127.0.0.1";

/// The entry that a line of output of the published process becomes, stamped
/// with `ts`: lines of standard error are errors, other lines get the level
/// their keywords give.
pub fn log_entry_for_line(line: String, is_stderr: bool, ts: u64) -> (e: LogEntry)
    ensures
        e.ts == ts,
        e.message == line,
        e.level == if is_stderr {
            LogLevel::ERROR
        } else {
            level_of_lowercase(lowercased(line@))
        },
{
    let level = infer_level(line.as_str(), is_stderr);
    LogEntry { ts, level, message: line }
}

/// The address a subscriber registers: the one given on the command line,
/// else the one found for this machine, else the loopback address.
pub fn subscriber_ip(ip: Option<String>, detected: Option<String>) -> (r: String)
    ensures
        r@ == match ip {
            Some(i) => i@,
            None => match detected {
                Some(d) => d@,
                None => LOOPBACK_IP@,
            },
        },
{
    match ip {
        Some(i) => i,
        None => match detected {
            Some(d) => d,
            None => LOOPBACK_IP.to_owned(),
        },
    }
}

/// What a subscriber does with a received message: a log entry is shown and
/// the subscriber reads on; any other message ends the subscription.
pub fn entry_to_show(msg: WireMessage) -> (r: Option<LogEntry>)
    ensures
        r == match msg {
            WireMessage::Log { log } => Some(log),
            _ => None,
        },
{
    match msg {
        WireMessage::Log { log } => Some(log),
        _ => None,
    }
}

/// The topics a scan reply lists, in order; none for any other reply.
pub fn scan_topics(msg: WireMessage) -> (r: Vec<String>)
    ensures
        r@ == match msg {
            WireMessage::Scan { topics: Some(t) } => t@,
            _ => Seq::empty(),
        },
{
    match msg {
        WireMessage::Scan { topics: Some(t) } => t,
        _ => Vec::new(),
    }
}

} // verus!
