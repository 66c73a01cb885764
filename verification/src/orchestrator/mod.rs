//! Lifecycle decisions for the sandboxes of one node.

pub mod capture;
pub mod create;
pub mod create_idempotency;
pub mod delete;
pub mod error;
pub mod fork;
pub mod launch;
pub mod lifecycle;
pub mod listing;
pub mod metadata;
pub mod metrics;
pub mod pause;
pub mod persistence;
pub mod proxy;
pub mod resources;
pub mod restore;
pub mod resume;
pub mod running;
pub mod shutdown;
pub mod startup;
pub mod types;
