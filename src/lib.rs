//! Session and streaming state for a conversational client: the current
//! conversation, its persisted mirror, staged attachments and the
//! reconciliation of streamed replies.

pub mod message;
pub mod attachments;
pub mod store;
pub mod stream;
mod ids;
pub mod session;
pub mod laws;
pub mod config;
