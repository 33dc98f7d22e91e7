//! A shared cache of a host's process list, with change notification for
//! live subscribers.
//!
//! The cache keeps one snapshot of process records. A refresh replaces the
//! snapshot wholesale; while at least one subscriber is listening, it also
//! broadcasts the records that the new snapshot adds to the old one.

pub mod cache;
mod channel;
pub mod laws;
pub mod query;
pub mod record;
pub mod snapshot;
pub mod stream;
