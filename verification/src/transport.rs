//! What the transport decides around a dispatch.

pub mod handler;
pub mod sse;
