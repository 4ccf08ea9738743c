//! Path-parameter validation and rejection classification for a small
//! version-compatibility service.
//!
//! The crate holds the rules of the service: the grammar of a game version,
//! the allow-list of module names, the validation of decoded path parameters,
//! and the mapping of every failure to a status code and a body. The server
//! around it hands in plain values and sends out what comes back.

pub mod display;
pub mod pattern;
pub mod rejection;
pub mod routes;
pub mod status;
pub mod text;
pub mod validation;
