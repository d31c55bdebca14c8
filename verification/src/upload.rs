//! Configuration of the upload client and of one upload run.

use vstd::prelude::*;

verus! {

/// Configuration options for the upload client.  Timeouts are in
/// milliseconds.
#[derive(Debug, Clone)]
pub struct UploadConfig {
    /// Connection timeout, in milliseconds.
    pub connect_timeout: u64,
    /// Idle pool timeout, in milliseconds.
    pub pool_idle_timeout: u64,
    /// Maximum idle connections per host.
    pub pool_max_idle_per_host: usize,
    /// Stall detection threshold, in 100 ms samples.
    pub stall_threshold: u32,
}

impl Default for UploadConfig {
    /// A 5 s connect timeout, a 90 s idle pool timeout, two idle
    /// connections per host, and a stall threshold of 200 samples (20 s).
    fn default() -> (c: Self)
        ensures
            c.connect_timeout == 5000,
            c.pool_idle_timeout == 90000,
            c.pool_max_idle_per_host == 2,
            c.stall_threshold == 200,
    {
        UploadConfig {
            connect_timeout: 5000,
            pool_idle_timeout: 90000,
            pool_max_idle_per_host: 2,
            stall_threshold: 200,
        }
    }
}

/// Upload configuration with retry settings.
#[derive(Debug, Clone)]
pub struct UploadParams {
    /// Number of retry attempts.
    pub retry_count: u32,
    /// Delay between retry attempts, in milliseconds.
    pub retry_spacing: u64,
    /// Chunk size for streaming.
    pub chunk_size: usize,
}

impl Default for UploadParams {
    /// Three retries, two seconds apart, on 64 KiB chunks.
    fn default() -> (p: Self)
        ensures
            p.retry_count == 3,
            p.retry_spacing == 2000,
            p.chunk_size == 65536,
    {
        UploadParams { retry_count: 3, retry_spacing: 2000, chunk_size: 65536 }
    }
}

} // verus!
