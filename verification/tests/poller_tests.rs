use vinted_poller::db::ItemsFilters;
use vinted_poller::errors::FailureKind;
use vinted_poller::errors::PoolExhausted;
use vinted_poller::errors::ProxyError;
use vinted_poller::errors::SessionError;
use vinted_poller::poller::pace_seconds;
use vinted_poller::poller::FetchOutcome;
use vinted_poller::poller::Pace;
use vinted_poller::poller::Poller;
use vinted_poller::poller::SessionFailureAction;
use vinted_poller::poller::COOLDOWN_SECS;
use vinted_poller::poller::POLL_INTERVAL_SECS;
use vinted_poller::types::Item;
use vinted_poller::types::Pagination;

const BOOTSTRAP_BODY: &str = "<meta name=\"csrf-token\" content=\"cycle-token\" />";

fn poller_with(proxies: &[&str]) -> Poller {
    Poller::new(
        ItemsFilters::default(),
        proxies.iter().map(|p| p.to_string()).collect(),
    )
}

fn sample_item(id: i64) -> Item {
    Item {
        id,
        title: format!("item {id}"),
        price: "15.0".to_string(),
        currency: "EUR".to_string(),
        brand_title: "Sandro".to_string(),
    }
}

fn page_of(ids: &[i64]) -> FetchOutcome {
    FetchOutcome::Success(
        ids.iter().map(|id| sample_item(*id)).collect(),
        Pagination { current_page: 1, per_page: 10, total_entries: ids.len() as u32, total_pages: 1 },
    )
}

#[test]
fn fresh_poller_needs_a_session() {
    let poller = poller_with(&["http:a:1"]);
    assert!(poller.needs_refresh());
    assert_eq!(poller.current_token(), "");
}

#[test]
fn refresh_session_installs_the_token() {
    let mut poller = poller_with(&["http:a:1"]);
    let token = poller.refresh_session(BOOTSTRAP_BODY).expect("refresh must succeed");
    assert_eq!(token, "cycle-token");
    assert!(!poller.needs_refresh());
    assert_eq!(poller.current_token(), "cycle-token");
}

#[test]
fn unauthorized_clears_the_token_and_forces_a_refresh() {
    let mut poller = poller_with(&["http:a:1"]);
    poller.refresh_session(BOOTSTRAP_BODY).expect("refresh must succeed");
    assert!(!poller.needs_refresh());
    poller.start_cycle(0).expect("a proxy must be available");
    let report = poller.finish_cycle(FetchOutcome::Failure(FailureKind::Unauthorized));
    assert_eq!(report.failure, Some(FailureKind::Unauthorized));
    assert_eq!(report.pace, Pace::Normal);
    assert!(report.new_items.is_empty());
    assert!(poller.needs_refresh());
}

#[test]
fn proxy_unreachable_evicts_the_selected_proxy() {
    let mut poller = poller_with(&["http:a:1", "http:b:2"]);
    let picked = poller.start_cycle(0).expect("a proxy must be available");
    assert_eq!(picked, "http:a:1");
    let report = poller.finish_cycle(FetchOutcome::Failure(FailureKind::ProxyUnreachable));
    assert_eq!(report.pace, Pace::Immediate);
    for entropy in 0..20u64 {
        let again = poller.start_cycle(entropy).expect("one proxy must remain");
        assert_eq!(again, "http:b:2");
        poller.finish_cycle(FetchOutcome::Failure(FailureKind::Malformed));
    }
}

#[test]
fn evicting_the_last_proxy_exhausts_the_pool() {
    let mut poller = poller_with(&["http:a:1"]);
    poller.start_cycle(7).expect("a proxy must be available");
    poller.finish_cycle(FetchOutcome::Failure(FailureKind::ProxyUnreachable));
    assert_eq!(poller.start_cycle(0), Err(PoolExhausted));
}

#[test]
fn rate_limit_cools_down_without_evicting() {
    let mut poller = poller_with(&["http:a:1"]);
    poller.start_cycle(0).expect("a proxy must be available");
    let report = poller.finish_cycle(FetchOutcome::Failure(FailureKind::RateLimited));
    assert_eq!(report.pace, Pace::Cooldown);
    assert_eq!(poller.start_cycle(1).expect("proxy must not be evicted"), "http:a:1");
}

#[test]
fn auth_failures_never_evict_the_proxy() {
    let mut poller = poller_with(&["http:a:1"]);
    poller.start_cycle(0).expect("a proxy must be available");
    poller.finish_cycle(FetchOutcome::Failure(FailureKind::Unauthorized));
    assert_eq!(poller.start_cycle(2).expect("proxy must not be evicted"), "http:a:1");
}

#[test]
fn transport_and_malformed_change_nothing() {
    let mut poller = poller_with(&["http:a:1"]);
    poller.refresh_session(BOOTSTRAP_BODY).expect("refresh must succeed");
    poller.start_cycle(0).expect("a proxy must be available");
    let transport = poller.finish_cycle(FetchOutcome::Failure(FailureKind::Transport(500)));
    assert_eq!(transport.failure, Some(FailureKind::Transport(500)));
    assert_eq!(transport.pace, Pace::Normal);
    assert_eq!(poller.current_token(), "cycle-token");
    poller.start_cycle(0).expect("proxy must not be evicted");
    let malformed = poller.finish_cycle(FetchOutcome::Failure(FailureKind::Malformed));
    assert_eq!(malformed.failure, Some(FailureKind::Malformed));
    assert_eq!(malformed.pace, Pace::Normal);
    assert_eq!(poller.current_token(), "cycle-token");
}

#[test]
fn successful_cycles_report_new_items_in_order() {
    let mut poller = poller_with(&["http:a:1"]);
    poller.start_cycle(0).expect("a proxy must be available");
    let first = poller.finish_cycle(page_of(&[1, 2]));
    assert!(first.new_items.is_empty());
    assert!(first.failure.is_none());
    assert_eq!(first.pace, Pace::Normal);
    poller.start_cycle(1).expect("a proxy must be available");
    let second = poller.finish_cycle(page_of(&[2, 3]));
    assert_eq!(second.new_items.len(), 1);
    assert_eq!(second.new_items[0].id, 3);
    assert_eq!(second.new_items[0].title, "item 3");
}

#[test]
fn initial_token_not_found_is_fatal_later_ones_are_not() {
    let mut poller = poller_with(&["http:a:1"]);
    assert_eq!(
        poller.session_failure_action(&SessionError::TokenNotFound),
        SessionFailureAction::Fatal
    );
    assert_eq!(
        poller.session_failure_action(&SessionError::TransportError),
        SessionFailureAction::ContinueAsTransport
    );
    poller.refresh_session(BOOTSTRAP_BODY).expect("refresh must succeed");
    assert_eq!(
        poller.session_failure_action(&SessionError::TokenNotFound),
        SessionFailureAction::ContinueAsTransport
    );
}

#[test]
fn pace_seconds_match_the_schedule() {
    assert_eq!(pace_seconds(&Pace::Immediate), 0);
    assert_eq!(pace_seconds(&Pace::Normal), POLL_INTERVAL_SECS);
    assert_eq!(pace_seconds(&Pace::Cooldown), COOLDOWN_SECS);
    assert_eq!(POLL_INTERVAL_SECS, 5);
    assert_eq!(COOLDOWN_SECS, 10);
}

#[test]
fn proxy_error_describes_itself() {
    assert_eq!(ProxyError.message(), "invalid proxy");
}
