//! The three actors of the engine, each as the decisions it takes.

pub mod client;
pub mod collection;
pub mod guarantees;
pub mod sinkron;
