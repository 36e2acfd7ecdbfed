//! The pipeline's failure taxonomy and propagation policy: an error
//! local to one entry never stops the feed's cycle, an error local to
//! one feed's cycle never stops the feed's task, and only a storage
//! failure stops a task.

use vstd::prelude::*;

verus! {

/// Why a step of one feed's cycle failed. Fetch failures carry the URL
/// and, for a status failure, the status code, for diagnosis.
#[derive(Debug)]
pub enum PipelineError {
    /// Network failure while fetching the feed itself.
    FeedTransport { feed_url: String },
    /// The feed endpoint answered with a non-success status.
    UpstreamStatus { feed_url: String, status: u16 },
    /// The feed bytes did not parse as a feed.
    FeedParse { feed_url: String },
    /// Network failure while fetching one entry's linked page.
    PageFetch { url: String },
    /// The external publish capability failed for one entry.
    Publish { url: String },
    /// The deduplication store is unavailable or corrupt.
    Storage,
}

/// How far a failure reaches.
#[derive(Clone, Copy, Debug, PartialEq, Eq, Structural)]
pub enum FailureScope {
    /// Abandon the whole cycle; the next scheduled cycle retries.
    AbortCycle,
    /// Skip this one entry, unrecorded, and continue with the next.
    SkipEntry,
    /// Stop this feed's task: without reliable deduplication the bot
    /// risks duplicate posts indefinitely.
    StopFeedTask,
}

/// The propagation policy: feed-level failures abandon the cycle,
/// entry-level failures skip the entry, storage failures stop the
/// task.
pub open spec fn spec_disposition(e: PipelineError) -> FailureScope {
    match e {
        PipelineError::FeedTransport { .. } => FailureScope::AbortCycle,
        PipelineError::UpstreamStatus { .. } => FailureScope::AbortCycle,
        PipelineError::FeedParse { .. } => FailureScope::AbortCycle,
        PipelineError::PageFetch { .. } => FailureScope::SkipEntry,
        PipelineError::Publish { .. } => FailureScope::SkipEntry,
        PipelineError::Storage => FailureScope::StopFeedTask,
    }
}

/// Decides how far a failure reaches.
pub fn error_disposition(e: &PipelineError) -> (d: FailureScope)
    ensures
        d == spec_disposition(*e),
{
    match e {
        PipelineError::FeedTransport { .. } => FailureScope::AbortCycle,
        PipelineError::UpstreamStatus { .. } => FailureScope::AbortCycle,
        PipelineError::FeedParse { .. } => FailureScope::AbortCycle,
        PipelineError::PageFetch { .. } => FailureScope::SkipEntry,
        PipelineError::Publish { .. } => FailureScope::SkipEntry,
        PipelineError::Storage => FailureScope::StopFeedTask,
    }
}

/// Whether an HTTP status code counts as success.
pub open spec fn spec_status_success(status: u16) -> bool {
    200 <= status < 300
}

/// Accepts a feed response's status code, or rejects it with an error
/// carrying the feed URL and the code. Success is owed exactly on the
/// successful status range.
pub fn check_feed_status(feed_url: &String, status: u16) -> (r: Result<(), PipelineError>)
    ensures
        r is Ok <==> spec_status_success(status),
        r matches Err(e) ==> e matches PipelineError::UpstreamStatus {
            feed_url: fu,
            status: st,
        } && fu@ == feed_url@ && st == status,
{
    if 200 <= status && status < 300 {
        Ok(())
    } else {
        Err(PipelineError::UpstreamStatus { feed_url: feed_url.clone(), status })
    }
}

} // verus!
