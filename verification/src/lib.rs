//! Policy-gated retrieval and local caching of OCI artifacts.
//!
//! The crate holds the decisions of a fetch: how a reference is normalized
//! and checked against policy, where its cached copy lives, when that copy is
//! still current, which transport a registry is reached over, and whether
//! pulled content is acceptable. Network and filesystem work is left to the
//! caller, which performs one action at a time and reports what came of it.

pub mod text;
pub mod error;
pub mod reference;
pub mod cache;
pub mod transport;
pub mod artifact;
pub mod fetcher;
pub mod session;
pub mod model;
pub mod policy;
pub mod host_config;
