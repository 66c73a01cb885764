//! Durable records of paused sandboxes.

pub mod codecs;
pub mod deletion;
pub mod durable_storage;
pub mod error;
pub mod index_reconciliation;
pub mod journal;
pub mod loading;
pub mod managed_paths;
pub mod manifests;
pub mod paused_transactions;
pub mod persister;
pub mod publication;
pub mod quarantine;
pub mod reconciliation;
pub mod reconciliation_run;
pub mod retention;
