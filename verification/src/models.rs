//! The data model: message envelopes, their payloads, and service responses.

pub mod message;
pub mod response;
