//! Bounded retry of upload attempts.
//!
//! One upload against one server is attempted up to `retry_count + 1` times,
//! with a fixed spacing between attempts.  Every failure is recorded; when
//! the budget is spent, the last recorded failure is what the caller sees.

use vstd::prelude::*;

verus! {

use vstd::string::StringExecFns;

/// Errors that can occur during upload operations.
#[derive(Debug, Clone, PartialEq, Eq)]
pub enum UploadError {
    /// A malformed server URL or mime string.
    ValidationError(String),
    /// The signing capability failed.
    AuthorizationError(String),
    /// A connection or timeout failure from the HTTP layer.
    TransportError(String),
    /// A non-success status or a malformed response body.
    ProtocolError(String),
    /// No byte progress within the stall threshold while mid-transfer.
    StallError,
    /// The progress observer signalled failure.
    CallbackAbort(String),
}

/// The retry ledger for one server: how many attempts were made and what
/// the last one died of.
pub struct RetryRun {
    /// How many retries follow the first attempt.
    pub retry_count: u32,
    /// Milliseconds to wait between attempts.
    pub retry_spacing_ms: u64,
    /// Attempts made so far.
    pub attempts_made: u32,
    /// The most recent failure.
    pub last_error: Option<UploadError>,
}

impl RetryRun {
    /// A fresh ledger: no attempt made yet.
    pub fn new(retry_count: u32, retry_spacing_ms: u64) -> (r: Self)
        ensures
            r.retry_count == retry_count,
            r.retry_spacing_ms == retry_spacing_ms,
            r.attempts_made == 0,
            r.last_error is None,
    {
        RetryRun { retry_count, retry_spacing_ms, attempts_made: 0, last_error: None }
    }

    /// Whether another attempt is owed: exactly `retry_count + 1` attempts
    /// in all.
    pub fn should_attempt(&self) -> (b: bool)
        ensures
            b == (self.attempts_made <= self.retry_count),
    {
        self.attempts_made <= self.retry_count
    }

    /// Whether the next attempt is a retry, which waits the spacing first.
    pub fn wait_before(&self) -> (b: bool)
        ensures
            b == (self.attempts_made > 0),
    {
        self.attempts_made > 0
    }

    /// Record one failed attempt.
    pub fn record_failure(&mut self, e: UploadError)
        requires
            old(self).attempts_made < u32::MAX,
        ensures
            final(self).attempts_made == old(self).attempts_made + 1,
            final(self).last_error == Some(e),
            final(self).retry_count == old(self).retry_count,
            final(self).retry_spacing_ms == old(self).retry_spacing_ms,
    {
        self.attempts_made = self.attempts_made + 1;
        self.last_error = Some(e);
    }

    /// The error a spent budget surfaces: the last recorded failure, or a
    /// transport error naming the absence of attempts.
    pub fn give_up(self) -> (e: UploadError)
        ensures
            self.last_error matches Some(last) ==> e == last,
            self.last_error is None ==> (e matches UploadError::TransportError(m) && m@
                == "No upload attempts were made"@),
    {
        match self.last_error {
            Some(e) => e,
            None => UploadError::TransportError(String::from_str("No upload attempts were made")),
        }
    }
}

} // verus!
