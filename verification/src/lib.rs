//! Bulk object transfers between local storage and a remote key/blob store:
//! path derivation, per-item transfer steps, bounded fan-out scheduling and
//! result aggregation, with every rule stated as a contract.

pub mod decimal;
pub mod error;
pub mod path;
pub mod outcome;
pub mod results;
pub mod coordinator;
pub mod transfer;
pub mod batch;
