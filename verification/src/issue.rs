use vstd::prelude::*;

verus! {

/// Whether a tracker issue is still open or has been closed.
#[derive(Clone, Copy, Debug, PartialEq, Eq, Structural)]
pub enum IssueState {
    Open,
    Closed,
}

/// One immutable tracker record. The session fetches a sequence of these
/// once, before the interactive loop starts, and never mutates them.
#[derive(Clone, Debug, PartialEq, Eq)]
pub struct Issue {
    pub number: u64,
    pub title: String,
    pub body: Option<String>,
    pub state: IssueState,
    pub author: String,
    pub created_at: String,
}

} // verus!
