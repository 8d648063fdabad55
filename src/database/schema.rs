use vstd::prelude::*;

verus! {

/// Whether the queue is open, and since when.
#[derive(Debug, Clone, Copy, PartialEq, Eq)]
pub struct QueueStatus {
    pub timestamp: u32,
    pub open: bool,
}

/// How many maps a user has requested this session.
#[derive(Debug, Clone)]
pub struct SessionRequests {
    pub user: String,
    pub requests: i32,
}

} // verus!
