//! One module per route of the service.

pub mod health;
pub mod version;
