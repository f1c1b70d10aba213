//! Verified core of a publish/subscribe log streaming client.

pub mod cli;
pub mod connect;
pub mod frame;
pub mod level;
pub mod text;
pub mod topic;
pub mod reply;
pub mod server;
pub mod term;
pub mod session;
