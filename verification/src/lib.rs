//! Decision logic of a sandbox node.

pub mod api;
pub mod digest;
pub mod disk_branch;
pub mod ids;
pub mod json;
pub mod object_store;
pub mod orchestrator;
pub mod path_order;
pub mod paths;
pub mod sandbox;
pub mod text;
