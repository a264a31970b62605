//! Validation and timestamping in front of the collections.

pub mod account_service;
pub mod project_service;
