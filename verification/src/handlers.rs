//! Request boundary: identifier parsing in front of the services.

pub mod account_handler;
pub mod project_handler;
