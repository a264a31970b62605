//! Per-collection stores of entities keyed by generated identifiers.

pub mod account_repository;
pub mod project_repository;
