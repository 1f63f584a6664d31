//! Typed query construction for the VNDB HTTP API.
//!
//! The crate builds validated, resource-tagged queries (filters, field
//! selection, sort, pagination, response-shaping flags), list patches and
//! their wire-format JSON bodies.  Transport is left to the caller: every
//! function here is pure value construction.

pub mod auth;
pub mod fields;
pub mod filter;
pub mod producer;
pub mod query;
pub mod reading;
pub mod release;
pub mod response;
pub mod rlist;
pub mod schema;
pub mod staff;
pub mod stats;
pub mod tag;
pub mod traits;
pub mod ulist;
pub mod user;
pub mod wire;
