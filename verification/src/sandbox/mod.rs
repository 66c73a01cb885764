//! Checkpoints of sandboxes: what they need, what they refer to, and how they are booted again.

pub mod checkpoint_capacity;
pub mod checkpoint_references;
pub mod cold_boot;
