//! Command layer: boundary validation and error mapping of the IPC commands.

pub mod connections;
pub mod greet;
pub mod migration;
pub mod monitor;
pub mod sessions;
pub mod settings;
pub mod sftp;
pub mod terminals;
