//! Authenticated protocol gateway core: bearer-token validation against a
//! published key set, OAuth discovery metadata, and an authenticated
//! tool-dispatch surface over a tenant-scoped memory store.

pub mod keys;
pub mod token;
pub mod auth;
pub mod memory;
pub mod text;
pub mod service;
pub mod json;
pub mod discovery;
pub mod embeddings;
pub mod summarizer;
pub mod paths;
pub mod scrape;
pub mod session;
