//! A small multi-client session service: a user/token directory, a registry
//! of authenticated connections for broadcast fan-out, and the per-connection
//! protocol logic that ties them together.

pub mod console;
pub mod directory;
pub mod handler;
pub mod laws;
pub mod message;
pub mod registry;
