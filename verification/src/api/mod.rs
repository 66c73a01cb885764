//! What the control plane is answered.

pub mod auth;
pub mod disk_branch;
pub mod host_interaction;
pub mod preservation;
pub mod reboot;
pub mod recovery;
pub mod refusal;
