//! Domain entities: accounts and projects.

pub mod account;
pub mod project;
