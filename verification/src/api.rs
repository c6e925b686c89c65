//! The gRPC feed service.

use vstd::prelude::*;

verus! {

/// Answers the feed service's calls.
#[derive(Clone, Copy, Debug, Default)]
pub struct FeedService;

/// The answer to a creation call.
#[derive(Clone, Copy, Debug)]
pub struct CreateFeedResponse {
    pub success: bool,
}

/// The answer to a listing call.
#[derive(Clone, Copy, Debug)]
pub struct ListFeedsResponse {
    pub success: bool,
}

impl FeedService {
    /// A creation call is acknowledged as successful.
    pub fn create(&self) -> (res: CreateFeedResponse)
        ensures
            res.success,
    {
        CreateFeedResponse { success: true }
    }

    /// A listing call is acknowledged as successful.
    pub fn list(&self) -> (res: ListFeedsResponse)
        ensures
            res.success,
    {
        ListFeedsResponse { success: true }
    }
}

} // verus!
