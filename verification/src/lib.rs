//! The session core of a desktop terminal: which sessions exist, what each
//! call on them decides, what their readers publish, and what the answers
//! of the version-control tool mean.
//!
//! The library decides and the host acts. Nothing here opens a terminal,
//! starts a process or reads a file: the host does that, hands in what it
//! saw, and is told what follows.

pub mod decode;
pub mod git;
pub mod number;
pub mod search;
pub mod terminal;
pub mod text;
