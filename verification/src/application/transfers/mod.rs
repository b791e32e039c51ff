//! Transfer engine: the task book (queue, conflict decisions, cancel, retry,
//! clear), the decisions of one task's run, and the path rules they use.

pub mod book;
pub mod commit;
pub mod engine;
pub mod keyed;
pub mod laws;
pub mod paths;
pub mod prepare;
pub mod walk;

pub use book::{ConflictDecision, ConflictPolicy, TransferBook, TransferTask};
