//! A verified core for a CRUD service over two document collections,
//! accounts and projects.
//!
//! Entities are validated, timestamped and stored in per-collection
//! repositories keyed by generated identifiers; failures are classified
//! into an error taxonomy with a fixed HTTP status mapping.

pub mod clock;
pub mod error;
pub mod id;
pub mod models;
pub mod repository;
pub mod service;
pub mod handlers;
