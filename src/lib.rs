//! Scaffolding of a multi-crate workspace: validation of the requested
//! members, resolution of the target path, the decisions taken on the target
//! directory and its files, and the merge of the workspace manifest.

pub mod error;
pub mod members;
pub mod paths;
pub mod target;
pub mod manifest;
pub mod extras;
pub mod cli;
pub mod session;
