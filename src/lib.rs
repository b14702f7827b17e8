//! Resolves search requests against a content platform: tells navigation shortcuts
//! from searches, plans the upstream requests, and filters what comes back.

pub mod aggregate;
pub mod community;
pub mod error;
pub mod fetch;
pub mod filter;
pub mod plan;
pub mod query;
pub mod text;
