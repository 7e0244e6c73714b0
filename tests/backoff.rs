use gh_participants::repoview::{
    wait_after_response, BackoffTimer, RepoView, DEFAULT_WAIT_MS, SLEEP_MS,
};
use gh_participants::response::{RateLimit, ResponseData};

fn with_limit(remaining: i64, reset_at: &str) -> ResponseData {
    ResponseData {
        repository: None,
        rate_limit: Some(RateLimit { remaining, reset_at: reset_at.to_string() }),
    }
}

#[test]
fn wait_until_reset_from_snapshot() {
    let rl = Some(RateLimit { remaining: 0, reset_at: String::new() });
    let now = 1_600_000_000_000;
    assert_eq!(RepoView::wait_from_snapshot(&rl, Some(now + 300_000), Some(now)), 300_000);
    assert_eq!(RepoView::wait_from_snapshot(&rl, Some(now), Some(now)), 0);
    assert_eq!(RepoView::wait_from_snapshot(&rl, Some(now - 1), Some(now)), SLEEP_MS);
    assert_eq!(RepoView::wait_from_snapshot(&rl, None, Some(now)), SLEEP_MS);
    assert_eq!(RepoView::wait_from_snapshot(&rl, Some(i64::MAX), Some(i64::MIN)), u64::MAX);
}

#[test]
fn unreadable_clock_uses_long_default() {
    let rl = Some(RateLimit { remaining: 0, reset_at: String::new() });
    assert_eq!(RepoView::wait_from_snapshot(&rl, Some(300_000), None), SLEEP_MS);
}

#[test]
fn wait_without_snapshot_or_with_budget() {
    assert_eq!(RepoView::wait_from_snapshot(&None, None, Some(0)), DEFAULT_WAIT_MS);
    assert_eq!(RepoView::wait_from_snapshot(&None, None, None), DEFAULT_WAIT_MS);
    let rl = Some(RateLimit { remaining: 12, reset_at: String::new() });
    assert_eq!(RepoView::wait_from_snapshot(&rl, Some(1_000), Some(0)), 0);
}

#[test]
fn five_minutes_to_reset() {
    let reset = (chrono::Utc::now() + chrono::Duration::minutes(5)).to_rfc3339();
    let wait = RepoView::compute_wait(&with_limit(0, &reset));
    assert!(wait <= 300_000, "{}", wait);
    assert!(wait >= 298_000, "{}", wait);
    let via_trait = RepoView::backoff(&with_limit(0, &reset));
    assert!((298_000..=300_000).contains(&via_trait), "{}", via_trait);
}

#[test]
fn unparsable_reset_uses_long_default() {
    assert_eq!(RepoView::compute_wait(&with_limit(0, "not a date")), 900_000);
    assert_eq!(RepoView::compute_wait(&with_limit(0, "2000-01-01T00:00:00Z")), 900_000);
}

#[test]
fn budget_left_means_no_wait() {
    assert_eq!(RepoView::compute_wait(&with_limit(4999, "not a date")), 0);
}

#[test]
fn no_report_or_no_data_waits_default() {
    let none = ResponseData { repository: None, rate_limit: None };
    assert_eq!(RepoView::compute_wait(&none), 10_000);
    assert_eq!(wait_after_response(&Some(none.clone())), 10_000);
    assert_eq!(wait_after_response(&None), 10_000);
    assert_eq!(RepoView::backoff(&none), DEFAULT_WAIT_MS);
    assert_eq!(RepoView::backoff(&with_limit(3, "not a date")), 0);
    assert_eq!(RepoView::backoff(&with_limit(0, "not a date")), SLEEP_MS);
}
