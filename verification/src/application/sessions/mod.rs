//! Session management: the session book, connection parameters, and server
//! information parsing.

pub mod book;
pub mod laws;
pub mod server_info;

pub use book::{AuthPlan, QuickConnectSpec, SessionError, SessionInfo, SshConnectParams};
pub use server_info::ServerInfo;
