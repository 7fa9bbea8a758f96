//! Terminal sessions: which exist, how one is opened, fed, resized and
//! closed, and what its reader publishes.

pub mod cwd;
pub mod error;
pub mod event;
pub mod laws;
pub mod open;
pub mod reader;
pub mod registry;
pub mod shell;
