//! Application layer: use cases, their orchestration rules and the ports
//! (traits) through which they reach storage.

pub mod connections;
pub mod greet;
pub mod json_tree;
pub mod migration;
pub mod monitoring;
pub mod ports;
pub mod prompt;
pub mod secret_cache;
pub mod settings;
pub mod test_support;
pub mod update;
pub mod sessions;
pub mod sftp;
pub mod terminals;
pub mod transfers;
