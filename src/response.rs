//! The decoded shape of one page of the repository query.
//!
//! Every level that the service may leave out is an `Option`; lists of edges
//! may hold absent entries as well.
use vstd::prelude::*;

verus! {

/// The `data` part of one response.
#[derive(Debug, Clone)]
pub struct ResponseData {
    pub repository: Option<Repository>,
    pub rate_limit: Option<RateLimit>,
}

/// The service's report of the remaining request budget.
#[derive(Debug, Clone)]
pub struct RateLimit {
    pub remaining: i64,
    /// When the budget is refilled, as an RFC 3339 timestamp.
    pub reset_at: String,
}

#[derive(Debug, Clone)]
pub struct Repository {
    pub name_with_owner: String,
    pub pull_requests: PullRequests,
}

/// One page of the repository's pull-request connection.
#[derive(Debug, Clone)]
pub struct PullRequests {
    pub page_info: PageInfo,
    pub edges: Option<Vec<Option<PullRequestEdge>>>,
}

#[derive(Debug, Clone)]
pub struct PageInfo {
    pub has_next_page: bool,
}

#[derive(Debug, Clone)]
pub struct PullRequestEdge {
    pub cursor: String,
    pub node: Option<PullRequest>,
}

#[derive(Debug, Clone)]
pub struct PullRequest {
    pub created_at: String,
    pub title: String,
    pub participants: Participants,
}

#[derive(Debug, Clone)]
pub struct Participants {
    pub edges: Option<Vec<Option<ParticipantEdge>>>,
}

#[derive(Debug, Clone)]
pub struct ParticipantEdge {
    pub node: Option<User>,
}

#[derive(Debug, Clone)]
pub struct User {
    pub login: String,
    pub location: Option<String>,
    pub company: Option<String>,
    pub organizations: Organizations,
}

#[derive(Debug, Clone)]
pub struct Organizations {
    pub nodes: Option<Vec<Option<Organization>>>,
}

#[derive(Debug, Clone)]
pub struct Organization {
    pub login: String,
}

} // verus!
