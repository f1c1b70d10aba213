//! The values a command line and the wire protocol carry.

use vstd::prelude::*;

verus! {

/// Port that publishers and subscribers use when none is given.
pub const DEFAULT_PORT: u16 = 60759;

/// Quality of service a publisher asks for.
#[allow(non_camel_case_types)]
#[derive(Clone, Copy, Debug, PartialEq, Eq, Structural)]
pub enum Qos {
    high,
    auto,
    poor,
}

/// Frequency of service a subscriber asks for.
#[allow(non_camel_case_types)]
#[derive(Clone, Copy, Debug, PartialEq, Eq, Structural)]
pub enum Fos {
    sync,
    auto,
}

/// How a subscriber shows the entries it receives.
#[derive(Clone, Copy, Debug, PartialEq, Eq, Structural)]
pub enum LogFormat {
    Json,
    Text,
    Pretty,
}

/// A parsed command line.
#[derive(Clone, Debug, PartialEq, Eq)]
pub struct Cli {
    pub command: Commands,
}

/// The three modes of operation.
#[allow(inconsistent_fields)]
#[derive(Clone, Debug, PartialEq, Eq)]
pub enum Commands {
    /// Publish the output of a process under a topic.
    Pub {
        topic: Option<String>,
        port: u16,
        qos: Qos,
        auth: Option<String>,
        persist: bool,
        executable: String,
        child_args: Vec<String>,
    },
    /// Subscribe to a topic.
    Sub { topic: String, port: u16, fos: Fos, format: LogFormat, ip: Option<String> },
    /// List the active topics.
    Scan,
}

/// Severity of a log entry.
#[derive(Clone, Copy, Debug, PartialEq, Eq, Structural)]
pub enum LogLevel {
    TRACE,
    DEBUG,
    INFO,
    WARN,
    ERROR,
}

/// One line of output of a published process.
#[derive(Clone, Debug, PartialEq, Eq)]
pub struct LogEntry {
    /// Seconds since the Unix epoch.
    pub ts: u64,
    pub level: LogLevel,
    pub message: String,
}

/// A message between a client and the broker.
#[derive(Clone, Debug, PartialEq, Eq)]
pub enum WireMessage {
    Pub { topic: String, port: u16, qos: Qos, auth: Option<String>, persist: bool },
    Sub { topic: String, port: u16, fos: Fos, ip: String },
    Log { log: LogEntry },
    Scan { topics: Option<Vec<String>> },
    Ping,
    Close,
}

} // verus!
