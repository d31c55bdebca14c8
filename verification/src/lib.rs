//! Resilient encrypted upload engine.
//!
//! The library covers the logic of delivering an encrypted binary payload to
//! one of several candidate blob-storage endpoints: payload encryption,
//! chunked progress-observable transport, per-attempt authorization, stall
//! detection, bounded retry, and ordered multi-server failover.  Network I/O
//! itself is left to the embedding application; every decision the engine
//! makes is stated in a contract and verified.

pub mod attachment;
pub mod auth;
pub mod chunking;
pub mod crypto;
pub mod digits;
pub mod failover;
pub mod hashing;
pub mod hexcode;
pub mod metadata;
pub mod progress;
pub mod response;
pub mod retry;
pub mod upload;
pub mod urls;

pub use attachment::{AttachmentFile, ImageMetadata};
pub use hashing::calculate_file_hash;
