//! Verified core of the shelx SSH client: connection and group management,
//! credential orchestration, state machines, path and text rules.

pub mod text;
pub mod codec;
pub mod domain;
pub mod application;
pub mod commands;
pub mod ipc;
