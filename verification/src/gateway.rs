//! The dispatcher.

pub mod router;
