//! A small OAuth2 demonstration service, verified with Verus.
//!
//! The library holds the protocol core: resolved configuration and the
//! URLs derived from it, the authorization-code-for-token exchange, the
//! two-call data aggregation with its failure handling, the decoding of
//! the providers' JSON responses, and the mapping of outcomes to HTTP
//! status codes.  Network transport and base64 encoding are reached
//! through a few trusted wrappers around outside crates; everything
//! decided from their results is verified.

pub mod aggregate;
pub mod config;
pub mod http;
pub mod json;
pub mod oauth;
pub mod router;
