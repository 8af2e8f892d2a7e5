//! Sessions and the store that keeps them.

pub mod manager;
pub mod state;
