//! The wire protocol: error codes, envelopes and domain messages.

pub mod error;
pub mod jsonrpc;
pub mod mcp;
