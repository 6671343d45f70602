//! Event ingestion and persistence engine for chain execution outcomes.
//!
//! The engine filters execution outcomes against an allowlist of account
//! identifiers, decodes the structured log records each eligible outcome
//! carries, and routes every record to a namespaced document-store write:
//! an unconditional insert, or an upsert keyed on the record's `cap_id`.

pub mod capacitor;
pub mod clock;
pub mod json;
pub mod outcome;
pub mod record;
pub mod route;
pub mod store;
