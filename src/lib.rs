//! Handle registry and uniform query pipeline over a columnar/vector dataset engine.
//!
//! The engine itself is an outside collaborator: this crate decides which
//! queries to issue, how to page and merge what comes back, and how results
//! are framed for transport.

pub mod domain;
pub mod encoder;
pub mod ipc;
pub mod merge;
pub mod paging;
pub mod query;
pub mod registry;
pub mod schema;
pub mod service;
pub mod text;
pub mod validate;
