//! The requests that the remote service understands.

pub mod collect;
