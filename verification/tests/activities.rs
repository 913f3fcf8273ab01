//! The activities table and the new-activity form.

use engineer::action::{Action, Effect, Outcome, Request};
use engineer::dates::fmt_relative;
use engineer::keys::{KeyCode, KeyEvent};
use engineer::model::{Activity, Fault, FaultKind, FieldError, FoldedActivity, Timer, WriteReply};
use engineer::notify::Level;
use engineer::screens::activities::{
    activity_row, archived, completed, detail_lines, duplicated, filter, status_pill, timer_started,
    Activities,
};
use engineer::screens::activity_new::{activity_created, field_name, ActivityNew};
use engineer::screens::{ScreenKind, ScreenMode};

fn activity(id: i64, title: &str, kind: &str, status: &str) -> Activity {
    Activity {
        id,
        title: title.into(),
        kind: Some(kind.into()),
        intent: None,
        bloom_level: None,
        domain_name: None,
        status: Some(status.into()),
        duration_minutes: None,
        segments_count: None,
        started_at: None,
        ended_at: None,
        archived_at: None,
        notes_generated: None,
    }
}

fn folded(a: Activity) -> FoldedActivity {
    FoldedActivity { activity: a, queued_minutes: 0 }
}

fn loaded(items: Vec<Activity>, page: u32, per_page: u32, total: u32) -> Action {
    Action::ActivitiesLoaded {
        items: items.into_iter().map(folded).collect(),
        page,
        per_page,
        total,
    }
}

fn three() -> Vec<Activity> {
    vec![
        activity(1, "Read SICP", "reading", "started"),
        activity(2, "Solve DP", "problem", "completed"),
        activity(3, "Refactor api", "coding", "planned"),
    ]
}

fn level(out: &Outcome) -> Option<Level> {
    out.note.as_ref().map(|(l, _)| *l)
}

fn timer() -> Timer {
    Timer {
        id: Some(1),
        running: true,
        bound: true,
        paused: false,
        idle: None,
        over: false,
        label: None,
        elapsed_seconds: 0,
        planned_minutes: None,
    }
}

#[test]
fn loaded_sets_items_and_pagination_meta() {
    let mut s = Activities::default();
    s.handle(loaded(three(), 2, 25, 42));
    assert_eq!(s.items.len(), 3);
    assert_eq!(s.page, 2);
    assert_eq!(s.per_page, 25);
    assert_eq!(s.total, 42);
    assert_eq!(s.total_pages(), 2);
}

#[test]
fn loaded_without_meta_keeps_requested_page() {
    let mut s = Activities::default();
    s.page = 3;
    s.handle(loaded(three(), 0, 0, 0));
    assert_eq!(s.page, 3);
    assert_eq!(s.total_pages(), 1);
}

#[test]
fn loaded_clamps_stale_selection() {
    let mut s = Activities::default();
    s.cursor = Some(9);
    s.handle(loaded(three(), 1, 25, 3));
    assert_eq!(s.cursor, Some(2));
}

#[test]
fn activities_loaded_empty_deselects() {
    let mut s = Activities::default();
    s.handle(loaded(vec![], 1, 25, 0));
    assert_eq!(s.cursor, None);
}

#[test]
fn move_clamps_within_visible_bounds() {
    let mut s = Activities::default();
    s.handle(loaded(three(), 1, 25, 3));
    s.handle(Action::ActivitiesMove(-5));
    assert_eq!(s.cursor, Some(0));
    s.handle(Action::ActivitiesMove(9));
    assert_eq!(s.cursor, Some(2));
}

#[test]
fn page_next_advances_then_clamps_at_last_page() {
    let mut s = Activities::default();
    s.handle(loaded(three(), 1, 25, 42));
    s.handle(Action::ActivitiesPageNext);
    assert_eq!(s.page, 2);
    s.handle(Action::ActivitiesPageNext);
    assert_eq!(s.page, 2);
}

#[test]
fn page_prev_clamps_at_one() {
    let mut s = Activities::default();
    s.handle(loaded(three(), 1, 25, 42));
    s.handle(Action::ActivitiesPagePrev);
    assert_eq!(s.page, 1);
}

#[test]
fn cycle_filter_walks_the_ring_and_wraps() {
    let mut s = Activities::default();
    assert_eq!(filter(s.filter_idx).0, "all");
    for expected in ["planned", "started", "completed", "archived", "all"] {
        s.handle(Action::ActivitiesCycleFilter);
        assert_eq!(filter(s.filter_idx).0, expected);
    }
}

#[test]
fn cycle_filter_resets_to_first_page() {
    let mut s = Activities::default();
    s.page = 4;
    s.handle(Action::ActivitiesCycleFilter);
    assert_eq!(s.page, 1);
}

#[test]
fn search_narrows_visible_then_cancel_restores() {
    let mut s = Activities::default();
    s.handle(loaded(three(), 1, 25, 3));
    s.searching = true;
    for c in "sicp".chars() {
        s.handle(Action::ActivitiesSearchInput(c));
    }
    assert_eq!(s.visible().len(), 1);
    assert_eq!(s.visible()[0].activity.id, 1);
    s.handle(Action::ActivitiesSearchCancel);
    assert!(!s.searching);
    assert!(s.query.is_empty());
    assert_eq!(s.visible().len(), 3);
}

#[test]
fn search_matches_kind_not_only_title() {
    let mut s = Activities::default();
    s.handle(loaded(three(), 1, 25, 3));
    s.searching = true;
    for c in "coding".chars() {
        s.handle(Action::ActivitiesSearchInput(c));
    }
    assert_eq!(s.visible().len(), 1);
    assert_eq!(s.visible()[0].activity.id, 3);
}

#[test]
fn activities_open_then_close_detail_transitions() {
    let mut s = Activities::default();
    s.handle(loaded(three(), 1, 25, 3));
    s.handle(Action::ActivitiesOpenDetail);
    assert!(s.detail.is_some());
    assert_eq!(s.detail.as_ref().unwrap().id, 1);
    s.handle(Action::ActivitiesCloseDetail);
    assert!(s.detail.is_none());
}

#[test]
fn fmt_relative_reads_common_buckets() {
    let now: jiff::Timestamp = "2026-07-05T12:00:00Z".parse().unwrap();
    let now = now.as_second();
    let ago = |secs: i64| fmt_relative(now - secs, now);
    assert_eq!(ago(30), "now");
    assert_eq!(ago(5 * 60), "5m ago");
    assert_eq!(ago(3 * 3600), "3h ago");
    assert_eq!(ago(2 * 86_400), "2d ago");
    assert_eq!(ago(21 * 86_400), "3w ago");
    assert_eq!(fmt_relative(now + 3600, now), "soon");
    assert_eq!(ago(31 * 86_400), "2026-06-04", "older than thirty days is a bare date");
}

#[test]
fn complete_refetches_the_page_on_success() {
    let mut s = Activities::default();
    s.handle(loaded(three(), 1, 25, 3));
    s.cursor = Some(0);
    let out = s.handle(Action::ActivitiesComplete);
    assert!(matches!(
        out.effects.as_slice(),
        [Effect::Call(Request::CompleteActivity { id: 1, .. })]
    ));
    let sent = completed("Read SICP", WriteReply::Confirmed(()));
    assert!(sent.iter().any(|a| matches!(a, Action::RefreshActivities)));
}

#[test]
fn archive_takes_the_unarchive_path_for_an_archived_row() {
    let mut old = activity(5, "Old", "reading", "completed");
    old.archived_at = Some(1_782_864_000);
    let mut s = Activities::default();
    s.handle(loaded(vec![old], 1, 25, 1));
    s.cursor = Some(0);
    let out = s.handle(Action::ActivitiesArchive);
    assert!(matches!(
        out.effects.as_slice(),
        [Effect::Call(Request::ArchiveActivity { id: 5, archived: true })]
    ));
    let sent = archived(true, WriteReply::Confirmed(()));
    assert!(sent.iter().any(|a| matches!(a, Action::RefreshActivities)));
}

#[test]
fn duplicate_refetches_the_page_on_success() {
    let mut s = Activities::default();
    s.handle(loaded(three(), 1, 25, 3));
    s.cursor = Some(1);
    let out = s.handle(Action::ActivitiesDuplicate);
    assert!(matches!(
        out.effects.as_slice(),
        [Effect::Call(Request::DuplicateActivity { id: 2, .. })]
    ));
    let sent = duplicated("Solve DP", WriteReply::Confirmed(()));
    assert!(sent.iter().any(|a| matches!(a, Action::RefreshActivities)));
}

#[test]
fn start_timer_binds_selected_and_refreshes_header() {
    let mut s = Activities::default();
    s.handle(loaded(three(), 1, 25, 3));
    s.cursor = Some(0);
    let out = s.handle(Action::ActivitiesStartTimer);
    assert!(matches!(
        out.effects.as_slice(),
        [Effect::Call(Request::StartTimer { id: 1, .. })]
    ));
    let sent = timer_started("Read SICP", WriteReply::Confirmed(Box::new(timer())));
    assert!(sent.iter().any(|a| matches!(a, Action::TimerLoaded(_))));
}

#[test]
fn row_actions_refuse_on_a_provisional_row() {
    let mut s = Activities::default();
    let mut rows = three();
    let mut queued = activity(-3, "Paxos made live", "", "planned");
    queued.kind = None;
    rows.push(queued);
    s.handle(loaded(rows, 1, 25, 3));
    s.cursor = Some(3);
    for action in [
        Action::ActivitiesComplete,
        Action::ActivitiesArchive,
        Action::ActivitiesDuplicate,
        Action::ActivitiesStartTimer,
    ] {
        let out = s.handle(action);
        assert!(out.effects.is_empty(), "nothing is sent for a row the server lacks");
        let (level, text) = out.note.expect("the refusal is surfaced");
        assert_eq!(level, Level::Warning);
        assert!(text.contains("still queued"), "{text}");
    }
    let out = s.handle(Action::ActivitiesOpenDetail);
    assert!(out.effects.is_empty(), "no fetch for a row the server lacks");
    assert_eq!(s.detail.as_ref().unwrap().title, "Paxos made live");
}

#[test]
fn provisional_rows_clear_after_the_drain() {
    let mut s = Activities::default();
    let mut rows = three();
    let mut queued = activity(-3, "Paxos made live", "", "planned");
    queued.kind = None;
    rows.push(queued);
    s.handle(loaded(rows, 1, 25, 3));
    assert_eq!(s.items.len(), 4, "the ◔ row is in the list");
    assert!(s.items[3].is_provisional());
    s.handle(loaded(three(), 1, 25, 3));
    assert_eq!(s.items.len(), 3);
    assert!(s.items.iter().all(|f| !f.is_provisional()));
}

#[test]
fn a_search_reads_the_title_and_the_kind_only() {
    let mut s = Activities::default();
    s.handle(loaded(three(), 1, 25, 3));
    let mut by = |query: &str| {
        s.handle(Action::ActivitiesSearchCancel);
        s.searching = true;
        for c in query.chars() {
            s.handle(Action::ActivitiesSearchInput(c));
        }
        s.visible().iter().map(|f| f.activity.id).collect::<Vec<_>>()
    };
    assert!(by("started").is_empty(), "a status is no match");
    assert_eq!(by("sicp"), vec![1]);
    assert_eq!(by("reading"), vec![1]);
}

#[test]
fn a_status_wears_its_pill() {
    for (status, pill) in
        [("completed", " done "), ("started", " live "), ("planned", " plan "), ("odd", " odd ")]
    {
        assert_eq!(status_pill(&Some(status.into())).text(), pill);
    }
    assert_eq!(status_pill(&None).text(), " — ");
}

#[test]
fn queued_minutes_ride_beside_the_confirmed_duration() {
    let mut a = activity(1, "Read SICP", "reading", "started");
    a.duration_minutes = Some(30);
    let row = activity_row(&FoldedActivity { activity: a, queued_minutes: 45 }, 0);
    let text: String = row.cells.iter().map(|c| c.text()).collect::<Vec<_>>().join("|");
    assert!(text.contains("30m ◔+45m"), "{text}");
}

#[test]
fn the_activity_detail_reads_its_timing() {
    let mut a = activity(1, "Read SICP", "reading", "started");
    a.duration_minutes = Some(30);
    a.segments_count = Some(1);
    a.started_at = Some(1_783_252_800);
    a.ended_at = Some(1_783_254_600);
    let text: String = detail_lines(&a).iter().map(|l| l.text()).collect::<Vec<_>>().join("\n");
    assert!(
        text.contains("30 min  ·  1 segment  ·  started 2026-07-05 12:00  ·  ended 12:30"),
        "{text}"
    );
}

#[test]
fn offline_row_actions_enqueue_through_the_queue() {
    let mut s = Activities::default();
    s.handle(loaded(three(), 1, 25, 3));
    s.cursor = Some(0);
    let out = s.handle(Action::ActivitiesComplete);
    assert!(matches!(
        out.effects.as_slice(),
        [Effect::Call(Request::CompleteActivity { id: 1, .. })]
    ));
    s.cursor = Some(2);
    let out = s.handle(Action::ActivitiesDuplicate);
    assert!(matches!(
        out.effects.as_slice(),
        [Effect::Call(Request::DuplicateActivity { id: 3, .. })]
    ));
    for sent in [
        completed("Read SICP", WriteReply::Provisional(())),
        duplicated("Refactor api", WriteReply::Provisional(())),
    ] {
        assert!(
            matches!(
                sent.as_slice(),
                [Action::Notify { level: Level::Info, text }] if text.contains("queued (offline)")
            ),
            "each offline verb confirms queued"
        );
    }
}

#[test]
fn a_failed_row_action_says_why() {
    let fault = Fault { kind: FaultKind::Other, shown: "boom".into() };
    let sent = duplicated::<()>("Solve DP", WriteReply::Failed(fault));
    assert!(matches!(
        sent.as_slice(),
        [Action::Notify { level: Level::Error, text }] if text.contains("boom")
    ));
}

// ---- the form ----

fn type_into(s: &mut ActivityNew, text: &str) {
    for c in text.chars() {
        s.handle(Action::ActivityKey(KeyEvent::plain(KeyCode::Char(c))), 0);
    }
}

#[test]
fn the_form_opens_with_its_defaults() {
    let s = ActivityNew::default();
    assert_eq!(s.kind.value(), "study");
    assert_eq!(s.duration.value(), "30");
    assert_eq!(s.focus, 0);
    assert_eq!(s.mode(), ScreenMode::Normal);
}

#[test]
fn a_form_without_a_title_is_not_sent() {
    let mut s = ActivityNew::default();
    type_into(&mut s, "  ");
    let out = s.handle(Action::ActivitySubmit, 7);
    assert_eq!(level(&out), Some(Level::Warning));
    assert!(out.effects.is_empty());
    assert!(!s.pending);
    assert_eq!(s.errors[0].field, "title");
    assert_eq!(s.field_title(0).text(), " title ✗ ");
    assert_eq!(s.field_body(0).text(), "      ⚠ can't be blank");
}

#[test]
fn a_titled_form_is_sent_once_with_its_fields() {
    let mut s = ActivityNew::default();
    type_into(&mut s, "Raft");
    s.handle(Action::ActivityFieldNext, 0);
    s.handle(Action::ActivityFieldNext, 0);
    assert_eq!(field_name(s.focus), "duration");
    type_into(&mut s, "x5");
    assert_eq!(s.duration.value(), "305", "letters are turned away, digits are not");
    s.handle(Action::ActivityFieldNext, 0);
    type_into(&mut s, " logs ");
    let out = s.handle(Action::ActivitySubmit, 1_783_252_800);
    match out.effects.as_slice() {
        [Effect::Call(Request::CreateActivity(body))] => {
            assert_eq!(body.title, "Raft");
            assert_eq!(body.kind.as_deref(), Some("study"));
            assert_eq!(body.duration_minutes, Some(305));
            assert_eq!(body.started_at, 1_783_252_800);
            assert_eq!(body.notes_generated.as_deref(), Some("logs"));
        }
        other => panic!("expected one form, got {other:?}"),
    }
    assert!(s.pending);
    let again = s.handle(Action::ActivitySubmit, 8);
    assert!(again.effects.is_empty());
    assert_eq!(level(&again), Some(Level::Warning));
}

#[test]
fn the_fields_form_a_ring_of_four() {
    let mut s = ActivityNew::default();
    s.handle(Action::ActivityFieldPrev, 0);
    assert_eq!(s.focus, 3);
    s.handle(Action::ActivityFieldNext, 0);
    assert_eq!(s.focus, 0);
}

#[test]
fn an_edited_field_follows_its_cursor() {
    let mut s = ActivityNew::default();
    type_into(&mut s, "Rft");
    s.handle(Action::ActivityKey(KeyEvent::plain(KeyCode::Left)), 0);
    s.handle(Action::ActivityKey(KeyEvent::plain(KeyCode::Left)), 0);
    type_into(&mut s, "a");
    assert_eq!(s.title.value(), "Raft");
    s.handle(Action::ActivityKey(KeyEvent::plain(KeyCode::Backspace)), 0);
    assert_eq!(s.title.value(), "Rft");
}

#[test]
fn a_sent_form_is_answered_with_the_way_home_or_its_faults() {
    let sent = activity_created(Ok(()));
    assert!(matches!(
        sent.as_slice(),
        [
            Action::ActivityCreated,
            Action::Notify { level: Level::Success, .. },
            Action::Goto(ScreenKind::Home)
        ]
    ));
    let errors = vec![FieldError { field: "kind".into(), detail: "unknown".into() }];
    let mut s = ActivityNew::default();
    s.pending = true;
    for a in activity_created(Err((errors, "422".into()))) {
        let out = s.handle(a, 0);
        assert_eq!(level(&out), Some(Level::Error));
    }
    assert!(!s.pending);
    assert_eq!(s.field_body(1).text(), "study    ⚠ unknown");
}
