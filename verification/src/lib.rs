//! Request validation, configuration and listing logic for a Zanzibar-style
//! authorization extension.

pub mod errors;
pub mod expand;
pub mod guc;
pub mod laws;
pub mod listing;
pub mod log_format;
pub mod matrix;
pub mod model;
pub mod ordering;
pub mod policy;
pub mod relationship;
pub mod requests;
pub mod revision;
pub mod semantics;
pub mod text;
pub mod validation;
