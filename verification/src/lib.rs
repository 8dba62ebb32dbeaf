//! Levin message framing for a CryptoNote peer-to-peer link: the fixed-size
//! header codec, the message-type classifier, the command payload registry
//! and the coercion of dynamically-typed section entries into typed fields.

pub mod handshake;
pub mod msg;
pub mod raw_header;
pub mod section;
pub mod support_flags;
pub mod timed_sync;
