//! The boundary to the version-control tool: what to run, and what its
//! answers mean.

pub mod branches;
pub mod flow;
pub mod root;
pub mod run;
pub mod status;
pub mod types;
