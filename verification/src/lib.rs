//! Metadata catalog for a data-sharing server.
//!
//! The catalog answers which shares, schemas and tables exist and which of
//! them a given recipient may see. Every listing operation applies the same
//! access-control filter and pagination protocol, so that any backend serving
//! the catalog interface behaves identically towards the protocol layer.

pub mod auth;
pub mod text;
pub mod catalog;
