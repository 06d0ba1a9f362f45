//! Binding generation between a host language and a native object framework:
//! identifier derivation, artifact generation, value-type layout binding and
//! the connection registry of emitted signals.

pub mod casing;
pub mod connection;
pub mod generator;
pub mod gui;
pub mod identifier;
pub mod layout;
pub mod parser;
