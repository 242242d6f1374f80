//! Verified core of a tool that gathers pull-request review bundles: the
//! decisions, parsing and rendering, with the commands and file writes they
//! call for returned as values.

pub mod artifacts;
pub mod context;
pub mod error;
pub mod gh;
pub mod jj;
pub mod layout;
pub mod manifest;
pub mod paths;
pub mod plan;
pub mod process;
pub mod range;
pub mod repo;
pub mod session;
pub mod text;
pub mod workspace;
