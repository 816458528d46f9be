//! A personal triage library for a code-hosting platform's issue / pull-request
//! search: it turns structured filters into a deterministic search-query
//! string, resolves an access token from plain environment values, decides
//! which returned items to suppress, and drives a cursor-based pagination
//! loop to exhaustion. All decision logic is verified; the surrounding
//! network, environment and file-system plumbing lives outside the library
//! and hands in plain values.

pub mod auth;
pub mod date;
pub mod error;
pub mod filter;
pub mod model;
pub mod pagination;
pub mod query;
pub mod scan;
pub mod text;
