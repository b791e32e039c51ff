//! Domain layer: identities, entities, state machines and domain errors.
//! Pure values with no I/O; every rule here is verified.

pub mod connection;
pub mod error;
pub mod group;
pub mod hostkey;
pub mod session;
pub mod transfer;
