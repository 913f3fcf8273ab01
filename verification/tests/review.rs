//! The review screen: the dashboard, the sitting and the topic browser.

use engineer::action::{Action, Effect, Outcome, Request};
use engineer::keys::{KeyCode, KeyEvent};
use engineer::line::Line;
use engineer::model::{Dashboard, Fault, FaultKind, Forecasts, RateResult, ReviewStats, Topic};
use engineer::notify::Level;
use engineer::screens::review::{
    context_line, dashboard_read, freshness, rated, rating_hints_line, sort, stats_line,
    topic_name, topics_read, Rating, Review, Stage,
};

fn topic(id: i64, name: &str, domain: &str, count: u32) -> Topic {
    Topic {
        subdomain_id: id,
        subdomain_name: Some(name.into()),
        domain_name: Some(domain.into()),
        state: "due".into(),
        review_count: count,
        interval_days: None,
        last_reviewed_at: None,
        notes: vec![],
        forecasts: Forecasts { forgot: None, fuzzy: None, solid: None, instant: None },
    }
}

fn queue_topics() -> Vec<Topic> {
    vec![
        topic(5, "Consensus", "distributed systems", 3),
        topic(6, "B-trees", "databases", 5),
    ]
}

fn dashboard(queue: Vec<Topic>) -> Dashboard {
    Dashboard {
        stats: ReviewStats {
            current_streak: 3,
            longest_streak: 9,
            this_month: 12,
            avg_interval: Some(21),
        },
        est_minutes: 5,
        queue,
    }
}

fn sitting(topic: Topic) -> Review {
    let mut s = Review::default();
    s.stage = Stage::Sitting;
    s.current = Some(topic);
    s
}

fn browse_loaded(items: Vec<Topic>, page: u32, per_page: u32, total: u32) -> Action {
    Action::ReviewBrowseLoaded { items, page, per_page, total }
}

fn level(out: &Outcome) -> Option<Level> {
    out.note.as_ref().map(|(l, _)| *l)
}

fn flat(lines: &[Line]) -> String {
    lines.iter().map(|l| l.text()).collect::<Vec<_>>().join("\n")
}

#[test]
fn rating_from_char_maps_the_four_keys() {
    assert_eq!(Rating::from_char('f'), Some(Rating::Forgot));
    assert_eq!(Rating::from_char('z'), Some(Rating::Fuzzy));
    assert_eq!(Rating::from_char('s'), Some(Rating::Solid));
    assert_eq!(Rating::from_char('i'), Some(Rating::Instant));
    assert_eq!(Rating::from_char('r'), None); // the global refresh key is free
    assert_eq!(Rating::from_char('x'), None);
}

#[test]
fn rating_wire_values_match_the_api_contract() {
    assert_eq!(Rating::Forgot.as_str(), "forgot");
    assert_eq!(Rating::Fuzzy.as_str(), "fuzzy");
    assert_eq!(Rating::Solid.as_str(), "solid");
    assert_eq!(Rating::Instant.as_str(), "instant");
}

#[test]
fn sitting_keys_dispatch_ratings_and_exit() {
    let mut s = sitting(queue_topics().remove(0));
    let press = KeyEvent::plain;
    assert!(matches!(
        s.intercept_key(press(KeyCode::Char('z'))),
        Some(Action::ReviewRate(Rating::Fuzzy))
    ));
    assert!(matches!(
        s.intercept_key(press(KeyCode::Char('s'))),
        Some(Action::ReviewRate(Rating::Solid))
    ));
    assert!(s.intercept_key(press(KeyCode::Char('q'))).is_none());
    assert!(matches!(
        s.intercept_key(press(KeyCode::Esc)),
        Some(Action::ReviewExitSitting)
    ));
}

#[test]
fn dashboard_loaded_sets_data_and_clears_loading() {
    let mut s = Review::default();
    s.loading = true;
    s.handle(Action::ReviewDashboardLoaded(Box::new(dashboard(queue_topics()))));
    assert!(!s.loading);
    let d = s.dashboard.as_ref().unwrap();
    assert_eq!(d.queue.len(), 2);
    assert_eq!(d.stats.current_streak, 3);
    assert_eq!(d.est_minutes, 5);
}

#[test]
fn start_sitting_opens_at_the_queue_head() {
    let mut s = Review::default();
    s.handle(Action::ReviewDashboardLoaded(Box::new(dashboard(queue_topics()))));
    s.handle(Action::ReviewStartSitting);
    assert_eq!(s.stage, Stage::Sitting);
    assert_eq!(s.current.as_ref().unwrap().subdomain_id, 5);
    assert_eq!(s.rated, 0);
    assert!(!s.done);
}

#[test]
fn start_sitting_with_empty_queue_stays_on_dashboard() {
    let mut s = Review::default();
    s.handle(Action::ReviewDashboardLoaded(Box::new(dashboard(vec![]))));
    let out = s.handle(Action::ReviewStartSitting);
    assert_eq!(s.stage, Stage::Dashboard);
    assert_eq!(level(&out), Some(Level::Info));
}

#[test]
fn rate_advances_to_next_then_drains_to_done() {
    let mut s = sitting(queue_topics().remove(0));
    let next = queue_topics().remove(1);
    s.handle(Action::ReviewRated(Box::new(RateResult { next_topic: Some(next) })));
    assert_eq!(s.rated, 1);
    assert!(!s.done);
    assert_eq!(s.current.as_ref().unwrap().subdomain_id, 6);
    s.handle(Action::ReviewRated(Box::new(RateResult { next_topic: None })));
    assert_eq!(s.rated, 2);
    assert!(s.done);
    assert!(s.current.is_none());
}

#[test]
fn exit_sitting_returns_to_dashboard() {
    let mut s = sitting(queue_topics().remove(0));
    s.rated = 2;
    s.handle(Action::ReviewExitSitting);
    assert_eq!(s.stage, Stage::Dashboard);
    assert!(s.current.is_none());
    assert!(!s.done);
}

#[test]
fn browse_loaded_sets_pagination_meta() {
    let mut s = Review::default();
    s.stage = Stage::Browse;
    s.handle(browse_loaded(queue_topics(), 2, 25, 60));
    assert_eq!(s.page, 2);
    assert_eq!(s.per_page, 25);
    assert_eq!(s.total, 60);
    assert_eq!(s.total_pages(), 3);
}

#[test]
fn browse_page_next_advances_then_clamps_at_last() {
    let mut s = Review::default();
    s.stage = Stage::Browse;
    s.handle(browse_loaded(queue_topics(), 1, 25, 60));
    s.handle(Action::ReviewBrowsePageNext);
    assert_eq!(s.page, 2);
    s.handle(Action::ReviewBrowsePageNext);
    assert_eq!(s.page, 3);
    s.handle(Action::ReviewBrowsePageNext);
    assert_eq!(s.page, 3);
}

#[test]
fn browse_page_prev_clamps_at_one() {
    let mut s = Review::default();
    s.stage = Stage::Browse;
    s.handle(browse_loaded(queue_topics(), 1, 25, 60));
    s.handle(Action::ReviewBrowsePagePrev);
    assert_eq!(s.page, 1);
}

#[test]
fn browse_sort_ring_walks_and_wraps_resetting_the_page() {
    let mut s = Review::default();
    s.stage = Stage::Browse;
    s.page = 3;
    assert_eq!(sort(s.sort_idx).0, "urgency");
    for expected in [
        "recent",
        "most_reviewed",
        "least_reviewed",
        "longest_interval",
        "az",
        "urgency",
    ] {
        s.handle(Action::ReviewBrowseCycleSort);
        assert_eq!(sort(s.sort_idx).0, expected);
    }
    assert_eq!(s.page, 1);
}

#[test]
fn browse_search_builds_query_and_cancel_clears_it() {
    let mut s = Review::default();
    s.stage = Stage::Browse;
    s.searching = true;
    for c in "btree".chars() {
        s.handle(Action::ReviewBrowseSearchInput(c));
    }
    assert_eq!(s.query, "btree");
    s.handle(Action::ReviewBrowseSearchCancel);
    assert!(!s.searching);
    assert!(s.query.is_empty());
}

#[test]
fn browse_open_then_close_detail_transitions() {
    let mut s = Review::default();
    s.stage = Stage::Browse;
    s.handle(browse_loaded(queue_topics(), 1, 25, 2));
    s.cursor = Some(0);
    s.handle(Action::ReviewBrowseOpenDetail);
    assert!(s.detail.is_some());
    assert_eq!(s.detail.as_ref().unwrap().subdomain_id, 5);
    s.handle(Action::ReviewBrowseCloseDetail);
    assert!(s.detail.is_none());
}

#[test]
fn rate_posts_the_selected_rating_and_yields_the_next_topic() {
    let mut s = sitting(queue_topics().remove(0));
    let out = s.handle(Action::ReviewRate(Rating::Solid));
    assert!(s.rating_in_flight);
    assert!(matches!(
        out.effects.as_slice(),
        [Effect::Call(Request::RateTopic { id: 5, rating: Rating::Solid })]
    ));
    let sent = rated(Ok(Box::new(RateResult { next_topic: Some(queue_topics().remove(1)) })));
    assert!(sent.iter().any(|a| matches!(a, Action::ReviewRated(_))));
    // A rating on its way is not sent a second time.
    assert!(s.handle(Action::ReviewRate(Rating::Fuzzy)).effects.is_empty());
}

#[test]
fn the_review_panels_read_in_words() {
    let mut s = Review::default();
    s.handle(Action::ReviewDashboardLoaded(Box::new(dashboard(queue_topics()))));
    let text = flat(&s.dashboard_lines());
    assert!(text.contains("Consensus"), "{text}");
    assert!(stats_line(s.dashboard.as_ref().unwrap()).text().contains("3"));
    assert_eq!(topic_name(&queue_topics()[0]), "Consensus");
    let mut t = queue_topics().remove(0);
    t.interval_days = Some(4);
    assert!(freshness(&t).contains("3×"), "{}", freshness(&t));
    t.last_reviewed_at = Some(1_783_252_800);
    assert!(context_line(&t).contains("last 2026-07-05"), "{}", context_line(&t));
    t.forecasts.solid = Some(9);
    assert!(rating_hints_line(&t).text().contains("9"), "{}", rating_hints_line(&t).text());
}

#[test]
fn finished_review_calls_answer_in_words() {
    let fault = || Fault { kind: FaultKind::Other, shown: "boom".into() };
    assert!(matches!(dashboard_read(Err(fault())), Action::ReviewLoadFailed(_)));
    assert!(matches!(topics_read(Err(fault())), Action::Notify { level: Level::Error, .. }
        | Action::ReviewLoadFailed(_)));
    let sent = rated(Err(fault()));
    assert!(sent.iter().any(|a| matches!(a, Action::ReviewRateFailed)));
}
