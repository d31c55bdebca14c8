//! Ordered multi-server failover.
//!
//! Candidate servers are tried in list order.  A server whose URL does not
//! parse is recorded as a validation failure and skipped without retries; a
//! valid one gets a full retried upload.  The first success ends the walk;
//! when every server has failed, the last failure is what the caller sees.

use vstd::prelude::*;

use crate::retry::UploadError;
use crate::urls::{parse_server_url, spec_url_normalized};

verus! {

use vstd::string::StringExecFns;

/// What the failover walk says to do next.
pub enum FailoverStep {
    /// Run a retried upload against this server, named by its normalized
    /// URL.  The caller resets the observer's progress to 0% before it
    /// starts, so no stale percentage from a failed server survives.
    TryServer(String),
    /// The next server's URL was invalid: recorded, not retried.
    SkipInvalid,
    /// Every server has been tried.
    Exhausted,
}

/// The failover walk over an ordered server list.
pub struct FailoverPlan {
    servers: Vec<String>,
    index: usize,
    last_error: Option<UploadError>,
}

impl FailoverPlan {
    /// The server list being walked, in priority order.
    pub closed spec fn servers_seq(&self) -> Seq<Seq<char>> {
        self.servers@.map_values(|s: String| s@)
    }

    /// How many servers have been taken up.
    pub closed spec fn idx(&self) -> int {
        self.index as int
    }

    /// The most recent failure, of a skipped URL or a spent retry budget.
    pub closed spec fn last_err(&self) -> Option<UploadError> {
        self.last_error
    }

    /// The walk never runs past the list.
    pub closed spec fn wf(&self) -> bool {
        self.index <= self.servers.len()
    }

    /// A walk at the head of the list, with nothing failed yet.
    pub fn new(servers: Vec<String>) -> (p: Self)
        ensures
            p.wf(),
            p.servers_seq() == servers@.map_values(|s: String| s@),
            p.idx() == 0,
            p.last_err() is None,
    {
        FailoverPlan { servers, index: 0, last_error: None }
    }

    /// Take up the next server: its normalized URL when it parses, a
    /// recorded skip when it does not, or exhaustion at the end of the
    /// list.
    pub fn advance(&mut self) -> (step: FailoverStep)
        requires
            old(self).wf(),
        ensures
            final(self).wf(),
            final(self).servers_seq() == old(self).servers_seq(),
            old(self).idx() == old(self).servers_seq().len() ==> step is Exhausted && *final(self)
                == *old(self),
            old(self).idx() < old(self).servers_seq().len() ==> final(self).idx() == old(self).idx()
                + 1,
            old(self).idx() < old(self).servers_seq().len() && spec_url_normalized(
                old(self).servers_seq()[old(self).idx()],
            ) is Some ==> (step matches FailoverStep::TryServer(u) && Some(u@)
                == spec_url_normalized(old(self).servers_seq()[old(self).idx()])
                && final(self).last_err() == old(self).last_err()),
            old(self).idx() < old(self).servers_seq().len() && spec_url_normalized(
                old(self).servers_seq()[old(self).idx()],
            ) is None ==> (step is SkipInvalid && (final(self).last_err() matches Some(
                UploadError::ValidationError(m),
            ) && m@ == "Invalid server URL"@)),
    {
        if self.index >= self.servers.len() {
            return FailoverStep::Exhausted;
        }
        let i = self.index;
        self.index = self.index + 1;
        match parse_server_url(self.servers[i].as_str()) {
            Some(u) => FailoverStep::TryServer(u),
            None => {
                self.last_error = Some(
                    UploadError::ValidationError(String::from_str("Invalid server URL")),
                );
                FailoverStep::SkipInvalid
            },
        }
    }

    /// Record that the server just tried failed with `e` after its whole
    /// retry budget.
    pub fn record_failure(&mut self, e: UploadError)
        ensures
            final(self).wf() == old(self).wf(),
            final(self).servers_seq() == old(self).servers_seq(),
            final(self).idx() == old(self).idx(),
            final(self).last_err() == Some(e),
    {
        self.last_error = Some(e);
    }

    /// The error an exhausted walk surfaces: the last recorded failure, or
    /// a validation error naming the absence of servers.
    pub fn exhausted_error(self) -> (e: UploadError)
        ensures
            self.last_err() matches Some(last) ==> e == last,
            self.last_err() is None ==> (e matches UploadError::ValidationError(m) && m@
                == "No servers available"@),
    {
        match self.last_error {
            Some(e) => e,
            None => UploadError::ValidationError(String::from_str("No servers available")),
        }
    }
}

} // verus!
