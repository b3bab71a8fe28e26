//! Sinkron's synchronization engine as a sans-IO core.
//!
//! Every decision the server takes about a collaborative collection lives
//! here as a verified function from plain values to plain values: the
//! permission rule, the colrev catch-up rule, the mutation pipeline, the
//! subscriber roster, the per-client session and the root directory.  A driver
//! around this crate owns the sockets, the database and the timers; it performs
//! what the actors ask for and hands the outcome back.

pub mod actors;
pub mod crdt;
pub mod db;
pub mod encoding;
pub mod error;
pub mod groups;
pub mod models;
pub mod permissions;
pub mod protocol;
pub mod sinkron;
pub mod types;
