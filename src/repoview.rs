//! The repository query: its variables, the choice of the next cursor, and
//! the wait that the rate limit asks for between requests.
use vstd::prelude::*;
use crate::response::{RateLimit, ResponseData};

verus! {

/// The most nodes the service hands out for one connection in one request.
pub const MAX_NODES: i64 = 100;

/// The wait, in milliseconds, when a response carries no rate-limit report.
pub const DEFAULT_WAIT_MS: u64 = 10_000;

/// The wait, in milliseconds, when the budget is spent and its reset time
/// cannot be used: fifteen minutes.
pub const SLEEP_MS: u64 = 900_000;

/// The variables of the repository query.
#[derive(Debug, Clone)]
pub struct Variables {
    pub owner: String,
    pub name: String,
    pub nnodes: i64,
    pub pullcursor: Option<String>,
}

/// One request of the repository query.
#[derive(Debug, Clone)]
pub struct RepoQuery {
    pub variables: Variables,
}

/// Marker for the repository query, which the query-specific traits are
/// implemented for.
pub struct RepoView;

pub open spec fn option_view(o: Option<String>) -> Option<Seq<char>> {
    match o {
        Some(s) => Some(s@),
        None => None,
    }
}

/// The cursor to continue from: that of the last pull-request edge, where the
/// page reports a next page and that edge is present.
pub open spec fn next_cursor(response: ResponseData) -> Option<Seq<char>> {
    match response.repository {
        Some(repo) => if repo.pull_requests.page_info.has_next_page {
            match repo.pull_requests.edges {
                Some(edges) => if edges@.len() > 0 {
                    match edges@.last() {
                        Some(edge) => Some(edge.cursor@),
                        None => None,
                    }
                } else {
                    None
                },
                None => None,
            }
        } else {
            None
        },
        None => None,
    }
}

/// The wait once the budget is spent, from the parsed reset time and the
/// current time (both in milliseconds since the Unix epoch): until the reset
/// when both are known and the reset is not past, fifteen minutes otherwise.
pub open spec fn exhausted_wait(reset_at: Option<i64>, now: Option<i64>) -> int {
    match (reset_at, now) {
        (Some(t), Some(n)) => if t >= n {
            t - n
        } else {
            SLEEP_MS as int
        },
        _ => SLEEP_MS as int,
    }
}

/// The wait before the next request: the default without a report, none
/// while budget remains, and until the reset time once it is spent.
pub open spec fn rate_limit_wait(
    rate_limit: Option<RateLimit>,
    reset_at: Option<i64>,
    now: Option<i64>,
) -> int {
    match rate_limit {
        None => DEFAULT_WAIT_MS as int,
        Some(rl) => if rl.remaining == 0 {
            exhausted_wait(reset_at, now)
        } else {
            0
        },
    }
}

/// What an RFC 3339 timestamp denotes, in milliseconds since the Unix epoch;
/// `None` where the text is not such a timestamp.
pub uninterp spec fn rfc3339_millis(s: Seq<char>) -> Option<i64>;

/// The reset time of a report, as far as it parses.
pub open spec fn reset_millis(rate_limit: Option<RateLimit>) -> Option<i64> {
    match rate_limit {
        Some(rl) => rfc3339_millis(rl.reset_at@),
        None => None,
    }
}

/// Relies on chrono's `DateTime::parse_from_rfc3339` to read the timestamp and
/// on `DateTime::timestamp_millis` to express it in milliseconds.
#[verifier::external_body]
fn parse_rfc3339_millis(s: &str) -> (r: Option<i64>)
    ensures
        r == rfc3339_millis(s@),
{
    chrono::DateTime::parse_from_rfc3339(s).ok().map(|t| t.timestamp_millis())
}

/// Relies on std's `SystemTime::now` and `SystemTime::duration_since` for the
/// current time in milliseconds since the Unix epoch: `None` when the clock
/// reads before the epoch or beyond what an `i64` holds. The value itself is
/// whatever the clock says.
#[verifier::external_body]
fn now_millis() -> (r: Option<i64>)
    ensures
        r matches Some(t) ==> t >= 0,
{
    std::time::SystemTime::now()
        .duration_since(std::time::UNIX_EPOCH)
        .ok()
        .and_then(|d| i64::try_from(d.as_millis()).ok())
}

/// Builds one request of the repository query.
pub fn repoview_request(owner: &str, name: &str, nnodes: i64, pullcursor: Option<String>) -> (q:
    RepoQuery)
    requires
        nnodes <= MAX_NODES,
    ensures
        q.variables.owner@ == owner@,
        q.variables.name@ == name@,
        q.variables.nnodes == nnodes,
        q.variables.pullcursor == pullcursor,
{
    RepoQuery {
        variables: Variables {
            owner: owner.to_owned(),
            name: name.to_owned(),
            nnodes,
            pullcursor,
        },
    }
}

/// Reading the position to continue from out of a response.
pub trait Cursor {
    fn cursor(response: &ResponseData) -> Option<String>;
}

/// Reading the wait before the next request, in milliseconds, out of a
/// response.
pub trait BackoffTimer {
    fn backoff(response: &ResponseData) -> u64;
}

impl RepoView {
    /// The cursor of the last pull-request edge when the page reports a next
    /// page, and `None` when pagination is over.
    pub fn next_cursor(response: &ResponseData) -> (r: Option<String>)
        ensures
            option_view(r) == next_cursor(*response),
    {
        match &response.repository {
            Some(repo) => {
                if repo.pull_requests.page_info.has_next_page {
                    match &repo.pull_requests.edges {
                        Some(edges) => {
                            if edges.len() > 0 {
                                match &edges[edges.len() - 1] {
                                    Some(edge) => Some(edge.cursor.clone()),
                                    None => None,
                                }
                            } else {
                                None
                            }
                        },
                        None => None,
                    }
                } else {
                    None
                }
            },
            None => None,
        }
    }

    /// The wait in milliseconds for a rate-limit report, given the report's
    /// reset time as parsed and the current time.
    pub fn wait_from_snapshot(
        rate_limit: &Option<RateLimit>,
        reset_at: Option<i64>,
        now: Option<i64>,
    ) -> (r: u64)
        ensures
            r == rate_limit_wait(*rate_limit, reset_at, now),
    {
        match rate_limit {
            None => DEFAULT_WAIT_MS,
            Some(rl) => {
                if rl.remaining == 0 {
                    match (reset_at, now) {
                        (Some(t), Some(n)) => {
                            if t >= n {
                                let d: i128 = t as i128 - n as i128;
                                d as u64
                            } else {
                                SLEEP_MS
                            }
                        },
                        _ => SLEEP_MS,
                    }
                } else {
                    0
                }
            },
        }
    }

    /// The wait in milliseconds before the request after this response. The
    /// reset time and the clock are read only once the budget is spent; the
    /// current time is whatever the clock says, and a clock that cannot be
    /// read gives the fifteen-minute wait.
    pub fn compute_wait(response: &ResponseData) -> (r: u64)
        ensures
            exists|now: Option<i64>|
                r == #[trigger] rate_limit_wait(
                    response.rate_limit,
                    reset_millis(response.rate_limit),
                    now,
                ),
            response.rate_limit is None ==> r == DEFAULT_WAIT_MS,
            response.rate_limit is Some && response.rate_limit->0.remaining != 0 ==> r == 0,
            response.rate_limit matches Some(rl) && rl.remaining == 0 && rfc3339_millis(
                rl.reset_at@,
            ) is None ==> r == SLEEP_MS,
    {
        match &response.rate_limit {
            Some(rl) => {
                if rl.remaining == 0 {
                    let reset_at = parse_rfc3339_millis(rl.reset_at.as_str());
                    let now = now_millis();
                    let r = RepoView::wait_from_snapshot(&response.rate_limit, reset_at, now);
                    assert(r == rate_limit_wait(
                        response.rate_limit,
                        reset_millis(response.rate_limit),
                        now,
                    ));
                    r
                } else {
                    let r = RepoView::wait_from_snapshot(&response.rate_limit, None, None);
                    assert(r == rate_limit_wait(
                        response.rate_limit,
                        reset_millis(response.rate_limit),
                        None,
                    ));
                    r
                }
            },
            None => {
                let r = RepoView::wait_from_snapshot(&response.rate_limit, None, None);
                assert(r == rate_limit_wait(
                    response.rate_limit,
                    reset_millis(response.rate_limit),
                    None,
                ));
                r
            },
        }
    }
}

/// The wait after a request: that of the response's data when it has any,
/// and the default otherwise.
pub fn wait_after_response(data: &Option<ResponseData>) -> (r: u64)
    ensures
        data is None ==> r == DEFAULT_WAIT_MS,
        data matches Some(d) ==> exists|now: Option<i64>|
            r == #[trigger] rate_limit_wait(d.rate_limit, reset_millis(d.rate_limit), now),
{
    match data {
        Some(d) => RepoView::compute_wait(d),
        None => DEFAULT_WAIT_MS,
    }
}

impl Cursor for RepoView {
    fn cursor(response: &ResponseData) -> (r: Option<String>)
        ensures
            option_view(r) == next_cursor(*response),
    {
        RepoView::next_cursor(response)
    }
}

impl BackoffTimer for RepoView {
    fn backoff(response: &ResponseData) -> (r: u64)
        ensures
            exists|now: Option<i64>|
                r == #[trigger] rate_limit_wait(
                    response.rate_limit,
                    reset_millis(response.rate_limit),
                    now,
                ),
            response.rate_limit is None ==> r == DEFAULT_WAIT_MS,
            response.rate_limit is Some && response.rate_limit->0.remaining != 0 ==> r == 0,
            response.rate_limit matches Some(rl) && rl.remaining == 0 && rfc3339_millis(
                rl.reset_at@,
            ) is None ==> r == SLEEP_MS,
    {
        RepoView::compute_wait(response)
    }
}

/// Once the budget is spent, a reset time that lies `ms` milliseconds after
/// the current time is waited for exactly: a reset five minutes ahead gives a
/// wait of five minutes.
pub proof fn lemma_wait_until_reset(rate_limit: RateLimit, now: i64, ms: i64)
    requires
        rate_limit.remaining == 0,
        ms >= 0,
        now + ms <= i64::MAX,
        rfc3339_millis(rate_limit.reset_at@) == Some((now + ms) as i64),
    ensures
        rate_limit_wait(Some(rate_limit), reset_millis(Some(rate_limit)), Some(now)) == ms,
{
}

/// Once the budget is spent, a reset time that does not parse gives the
/// fifteen-minute wait, whatever the clock reads.
pub proof fn lemma_unparsable_reset(rate_limit: RateLimit, now: Option<i64>)
    requires
        rate_limit.remaining == 0,
        rfc3339_millis(rate_limit.reset_at@) is None,
    ensures
        rate_limit_wait(Some(rate_limit), reset_millis(Some(rate_limit)), now) == SLEEP_MS,
{
}

} // verus!
