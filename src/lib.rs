//! Paginated retrieval of pull-request participants from a GraphQL service.
//!
//! The library holds the logic of a scrape: building queries from
//! `owner/name` arguments, choosing the next page's cursor, deciding how long
//! to wait for the rate limit, driving pagination as a state machine, and
//! flattening the nested responses into one record per participant.
//! Network, environment and file access live with the caller.

pub mod args;
pub mod error;
pub mod nodes;
pub mod pagination;
pub mod repoview;
pub mod response;
