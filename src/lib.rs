//! A local companion server's verified core: the JSON tree that state frames
//! carry, the wire codec of the state protocol, the shared state store with its
//! coalescing cursors, the per-session decisions, and filename sanitising.

pub mod codec;
pub mod config;
pub mod content;
pub mod json;
pub mod proxy;
pub mod session;
pub mod state;
pub mod store;
pub mod text;
