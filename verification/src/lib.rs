//! A verified core for a content-addressed media relay.
//!
//! Uploaded bytes are stored under a content-derived identity
//! `<hex-digest>.<extension>`; downloads are served through a two-tier local
//! cache (raw and optimized) backed by a remote durable store. This crate
//! holds the verified logic of that pipeline: identity derivation, filename
//! and metadata sanitization, content-type resolution, and the cache and
//! upload decision rules. The unverified shell (HTTP routing, disk and
//! network I/O, the external codec) lives outside and drives these functions.

pub mod text;
pub mod filename;
pub mod content_type;
pub mod identity;
pub mod store;
pub mod cache;
pub mod transcode;
pub mod upload;

