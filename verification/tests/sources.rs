//! The inbox, the capture sources and the queue inspector.

use engineer::action::{Action, Effect, Outcome, Request, SourceVerb, TriageVerb};
use engineer::json::{labelled_fields, scalar};
use engineer::keys::{KeyCode, KeyEvent};
use engineer::line::{Line, Tone};
use engineer::model::{
    CaptureSource, Entity, Fault, FaultKind, Intent, IntentState, Requirement, Task, Trust,
};
use engineer::notify::Level;
use engineer::panel::panel_lines;
use engineer::screens::connect::{problem_text, sources_read, verb_answered, Connect, Prompt};
use engineer::screens::inbox::{
    drafts_read, expires_soon, is_expiring_soon, triage_answered, Inbox, Rejecting, Stage,
};
use engineer::screens::queue::{dropped, fmt_age, queue_read, retry_refused, DropReply, Queue};
use engineer::screens::ScreenKind;
use serde_json::Value;

const NOW: i64 = 1_783_252_800;

fn level(out: &Outcome) -> Option<Level> {
    out.note.as_ref().map(|(l, _)| *l)
}

fn flat(lines: &[Line]) -> String {
    lines.iter().map(|l| l.text()).collect::<Vec<_>>().join("\n")
}

fn press(code: KeyCode) -> KeyEvent {
    KeyEvent::plain(code)
}

// ---- the inbox ----

fn task(id: i64, prompt: &str, hours: Option<i64>) -> Task {
    let mut context = serde_json::Map::new();
    context.insert("kind".into(), Value::String("build".into()));
    context.insert("commits".into(), Value::from(14));
    Task {
        id,
        automation: Some("git".into()),
        prompt: Some(prompt.into()),
        context: Value::Object(context),
        entity: Some(Entity {
            name: Some("Distributed Systems".into()),
            kind: Some("domain".into()),
        }),
        expires_at: hours.map(|h| NOW + h * 3600),
    }
}

fn ids(s: &Inbox) -> Vec<i64> {
    s.tasks.iter().map(|t| t.id).collect()
}

fn inbox(tasks: Vec<Task>) -> Inbox {
    let mut s = Inbox::default();
    s.handle(Action::InboxLoaded(tasks));
    s
}

#[test]
fn loaded_sorts_expiring_first() {
    let mut s = Inbox::default();
    s.loading = true;
    s.handle(Action::InboxLoaded(vec![
        task(1, "far", Some(48)),
        task(2, "soon", Some(3)),
        task(3, "mid", Some(24)),
    ]));
    assert_eq!(ids(&s), [2, 3, 1]);
    assert!(!s.loading);
}

#[test]
fn no_expiry_sinks_to_the_bottom() {
    let s = inbox(vec![task(1, "none", None), task(2, "soon", Some(2))]);
    assert_eq!(ids(&s), [2, 1]);
}

#[test]
fn drafts_of_one_instant_keep_the_order_they_came_in() {
    let s = inbox(vec![
        task(4, "a", Some(5)),
        task(2, "b", Some(5)),
        task(9, "c", Some(1)),
        task(3, "d", Some(5)),
    ]);
    assert_eq!(ids(&s), [9, 4, 2, 3]);
}

#[test]
fn inbox_move_clamps_at_both_ends() {
    let mut s = inbox(vec![task(1, "a", Some(1)), task(2, "b", Some(2)), task(3, "c", Some(3))]);
    s.handle(Action::InboxMove(-1));
    assert_eq!(s.selected, 0);
    for _ in 0..3 {
        s.handle(Action::InboxMove(1));
    }
    assert_eq!(s.selected, 2);
}

#[test]
fn open_and_close_the_draft_detail() {
    let mut s = inbox(vec![task(1, "a", Some(1))]);
    s.handle(Action::InboxOpen);
    assert_eq!(s.stage(), Stage::Draft);
    s.handle(Action::InboxCloseDetail);
    assert_eq!(s.stage(), Stage::List);
}

#[test]
fn draft_step_walks_the_queue() {
    let mut s = inbox(vec![task(1, "a", Some(1)), task(2, "b", Some(2))]);
    s.handle(Action::InboxOpen);
    s.handle(Action::InboxDraftStep(1));
    assert_eq!(s.selected, 1);
    assert_eq!(s.tasks[s.selected].id, 2);
    s.handle(Action::InboxMove(-1));
    assert_eq!(s.selected, 1, "the list keys do not move an opened draft");
}

#[test]
fn open_on_empty_queue_stays_on_the_list() {
    let mut s = inbox(vec![]);
    s.handle(Action::InboxOpen);
    assert_eq!(s.stage(), Stage::List);
}

#[test]
fn reject_begin_opens_input_and_accumulates_then_cancels() {
    let mut s = inbox(vec![task(7, "vendored deps", Some(3))]);
    s.handle(Action::InboxRejectBegin);
    assert!(s.rejecting.is_some());
    for c in "noise".chars() {
        s.handle(Action::InboxRejectInput(c));
    }
    s.handle(Action::InboxRejectBackspace);
    assert_eq!(s.rejecting.as_ref().unwrap().reason, "nois");
    s.handle(Action::InboxRejectCancel);
    assert!(s.rejecting.is_none());
}

#[test]
fn intercept_routes_keys_only_while_rejecting() {
    let mut s = Inbox::default();
    assert!(s.intercept_key(press(KeyCode::Char('x'))).is_none());
    s.rejecting = Some(Rejecting { id: 1, prompt: "p".into(), reason: String::new() });
    assert!(matches!(
        s.intercept_key(press(KeyCode::Char('u'))),
        Some(Action::InboxRejectInput('u'))
    ));
    assert!(matches!(
        s.intercept_key(press(KeyCode::Enter)),
        Some(Action::InboxRejectSubmit)
    ));
    assert!(matches!(
        s.intercept_key(press(KeyCode::Esc)),
        Some(Action::InboxRejectCancel)
    ));
}

#[test]
fn accept_completes_the_draft_then_rereads() {
    let mut s = inbox(vec![task(7, "build", Some(3))]);
    let out = s.handle(Action::InboxAccept);
    assert!(s.in_flight);
    assert!(matches!(
        out.effects.as_slice(),
        [Effect::Call(Request::Triage { id: 7, verb: TriageVerb::Accept })]
    ));
    assert!(s.handle(Action::InboxAccept).effects.is_empty(), "one verb at a time");
    let sent = triage_answered(&TriageVerb::Accept, 7, Ok(()));
    assert!(matches!(
        sent.as_slice(),
        [Action::Notify { level: Level::Success, text }, Action::RefreshInbox]
            if text == "accepted · draft #7"
    ));
}

#[test]
fn reject_submit_sends_the_reason() {
    let mut s = inbox(vec![task(7, "build", Some(3))]);
    s.handle(Action::InboxRejectBegin);
    for c in "vendored deps".chars() {
        s.handle(Action::InboxRejectInput(c));
    }
    let out = s.handle(Action::InboxRejectSubmit);
    assert!(s.rejecting.is_none());
    let verb = match out.effects.into_iter().next() {
        Some(Effect::Call(Request::Triage { id: 7, verb })) => verb,
        other => panic!("expected the rejection, got {other:?}"),
    };
    assert!(matches!(
        &verb,
        TriageVerb::Reject(reason) if reason.as_deref() == Some("vendored deps")
    ));
    let sent = triage_answered(&verb, 7, Ok(()));
    assert!(sent.iter().any(|a| matches!(a, Action::RefreshInbox)));
}

#[test]
fn a_reason_is_trimmed_and_a_blank_one_is_left_out() {
    for (typed, sent) in [(" vendored deps ", Some("vendored deps")), ("  ", None), ("", None)] {
        let mut s = inbox(vec![task(8, "a", Some(1))]);
        s.handle(Action::InboxRejectBegin);
        for c in typed.chars() {
            s.handle(Action::InboxRejectInput(c));
        }
        let out = s.handle(Action::InboxRejectSubmit);
        assert!(matches!(
            out.effects.as_slice(),
            [Effect::Call(Request::Triage { id: 8, verb: TriageVerb::Reject(reason) })]
                if reason.as_deref() == sent
        ));
    }
}

#[test]
fn acknowledge_calls_the_member_route() {
    let mut s = inbox(vec![task(7, "build", Some(3))]);
    let out = s.handle(Action::InboxAck);
    assert!(matches!(
        out.effects.as_slice(),
        [Effect::Call(Request::Triage { id: 7, verb: TriageVerb::Acknowledge })]
    ));
    let sent = triage_answered(&TriageVerb::Acknowledge, 7, Ok(()));
    assert!(sent.iter().any(|a| matches!(a, Action::RefreshInbox)));
}

#[test]
fn stale_accept_surfaces_already_moved_on() {
    let mut s = inbox(vec![task(7, "build", Some(3))]);
    let out = s.handle(Action::InboxAccept);
    assert!(matches!(
        out.effects.as_slice(),
        [Effect::Call(Request::Triage { id: 7, verb: TriageVerb::Accept })]
    ));
    let stale = Fault {
        kind: FaultKind::Problem {
            status: 422,
            title: "Cannot complete task".into(),
            detail: String::new(),
            code: None,
        },
        shown: "422".into(),
    };
    let sent = triage_answered(&TriageVerb::Accept, 7, Err(stale));
    assert!(matches!(
        sent.as_slice(),
        [Action::Notify { level: Level::Warning, text }, Action::RefreshInbox]
            if text.contains("already moved on")
    ));
}

#[test]
fn offline_verb_refuses_and_never_queues() {
    let mut s = inbox(vec![task(7, "build", Some(3))]);
    s.handle(Action::InboxAccept);
    let lost = Fault { kind: FaultKind::Transport, shown: "gone".into() };
    let sent = triage_answered(&TriageVerb::Accept, 7, Err(lost));
    assert!(matches!(
        &sent[0],
        Action::Notify { level: Level::Error, text } if text.contains("offline")
    ));
    for a in sent {
        s.handle(a);
    }
    assert!(!s.in_flight);
    let other = Fault { kind: FaultKind::Other, shown: "boom".into() };
    assert!(matches!(
        &triage_answered(&TriageVerb::Acknowledge, 7, Err(other))[0],
        Action::Notify { text, .. } if text == "triage failed: boom"
    ));
}

#[test]
fn list_renders_the_count_and_a_due_badge() {
    let s = inbox(vec![task(7, "Log 50m build", Some(3))]);
    assert!(Inbox::count_header(s.tasks.len()).text().contains("1 pending"));
    let row = Inbox::draft_row(&s.tasks[0], NOW).text();
    assert!(row.contains("Log 50m build"), "prompt: {row}");
    assert!(row.contains("3h left"), "due badge: {row}");
}

#[test]
fn the_due_badge_escalates_as_the_expiry_nears() {
    let badge = |hours| Inbox::due_badge(&task(1, "a", Some(hours)), NOW);
    assert_eq!(badge(11), (Tone::OnDanger, " 11h left ".into()));
    assert_eq!(badge(47), (Tone::OnWarn, " 47h left ".into()));
    assert_eq!(badge(72), (Tone::Muted, "3d left".into()));
    assert_eq!(badge(0), (Tone::OnDanger, " expired ".into()));
    assert_eq!(Inbox::due_badge(&task(1, "a", None), NOW).1, "");
    assert!(expires_soon(&task(1, "a", Some(47)), NOW));
    assert!(!expires_soon(&task(1, "a", Some(48)), NOW));
    assert!(!is_expiring_soon(&task(1, "a", None)));
    let mut past = task(1, "a", Some(0));
    past.expires_at = Some(0);
    assert!(is_expiring_soon(&past), "what has expired is near its expiry");
}

#[test]
fn empty_queue_renders_the_calm_zero_state() {
    let s = inbox(vec![]);
    let text = flat(&s.zero_lines());
    assert!(text.contains("Inbox clear"), "zero state: {text}");
    assert!(text.contains("Nothing to triage"), "zero copy: {text}");
}

#[test]
fn draft_detail_renders_prompt_entity_and_context() {
    let mut s = inbox(vec![task(7, "Log 50m build on Distributed Systems?", Some(48))]);
    s.handle(Action::InboxOpen);
    let text = flat(&s.draft_lines(NOW).unwrap());
    assert!(text.contains("Log 50m build"), "prompt: {text}");
    assert!(text.contains("entity    Distributed Systems  ·  domain"), "entity: {text}");
    assert!(text.contains("kind      build"), "context field: {text}");
    assert!(text.contains("git proposes"), "automation header: {text}");
    assert!(text.starts_with("1 of 1 pending   ·   2d left"), "place: {text}");
    s.tasks.clear();
    assert!(s.draft_lines(NOW).is_none());
    assert_eq!(s.stage(), Stage::List, "a draft that is gone falls back to the list");
}

#[test]
fn reject_panel_renders_the_reason_field() {
    let mut s = inbox(vec![task(7, "vendored", Some(3))]);
    s.handle(Action::InboxRejectBegin);
    let text = flat(&Inbox::reject_lines(s.rejecting.as_ref().unwrap()));
    assert!(text.contains("Reject this draft"), "reject copy: {text}");
    assert!(text.contains("reason"), "reason field: {text}");
    assert_eq!(s.panel_title(), "Inbox · reject");
}

#[test]
fn a_context_reads_as_its_fields_or_as_one_line() {
    let null = Value::Null;
    assert!(labelled_fields(&null).is_empty());
    let text = Value::String("plain".into());
    assert_eq!(labelled_fields(&text), vec![("context".to_string(), "plain".to_string())]);
    let list = Value::Array(vec![Value::from(1), Value::from("a")]);
    assert_eq!(scalar(&list), "[1,\"a\"]");
    assert_eq!(scalar(&null), "");
    let mut map = serde_json::Map::new();
    map.insert("a".into(), Value::Null);
    map.insert("b".into(), Value::from(45));
    let fields = labelled_fields(&Value::Object(map));
    assert_eq!(
        fields,
        vec![("a".to_string(), String::new()), ("b".to_string(), "45".to_string())]
    );
}

#[test]
fn a_failed_inbox_read_is_said_and_kept() {
    let fault = Fault { kind: FaultKind::Other, shown: "boom".into() };
    let mut s = Inbox::default();
    let out = s.handle(drafts_read(Err(fault)));
    assert_eq!(out.note.unwrap().1, "inbox load failed: boom");
    assert_eq!(s.error.as_deref(), Some("inbox load failed: boom"));
}

// ---- the sources ----

fn git(connected: bool, connectable: bool) -> CaptureSource {
    CaptureSource {
        key: "git".into(),
        name: "Git activity".into(),
        connected,
        connectable,
        requirement: if connectable {
            None
        } else {
            Some(Requirement {
                detail: "Connect GitHub first — the scan uses your own connection.".into(),
                url: Some("https://engineer.example/github/connect".into()),
            })
        },
        trust: Trust {
            reads: "Commit times and counts on repositories your activities anchor.".into(),
            never_reads: "Never messages, never code.".into(),
            promise: "Private, and nothing counts until you say so.".into(),
        },
        params: vec![],
    }
}

fn calendar(connected: bool) -> CaptureSource {
    CaptureSource {
        key: "calendar".into(),
        name: "Study calendar".into(),
        connected,
        connectable: true,
        requirement: None,
        trust: Trust {
            reads: "The titles and times of past events on this one calendar.".into(),
            never_reads: "Never descriptions, never attendees.".into(),
            promise: "Private, and nothing counts until you say so.".into(),
        },
        params: vec!["feed_url".into()],
    }
}

fn connect(sources: Vec<CaptureSource>) -> Connect {
    let mut s = Connect::default();
    s.handle(Action::ConnectLoaded(sources));
    s
}

fn prompt(s: &Connect) -> String {
    flat(&Connect::prompt_lines(s.prompt.as_ref().expect("a prompt is open")))
}

#[test]
fn loaded_lists_the_sources_with_their_state() {
    let s = connect(vec![git(false, false), calendar(false)]);
    assert_eq!(s.sources.len(), 2);
    assert!(!s.loading);
    let text: String = s.sources.iter().map(|x| Connect::source_row(x).text()).collect();
    assert!(text.contains("Git activity"), "git row: {text}");
    assert!(text.contains("Study calendar"), "calendar row: {text}");
    assert!(text.contains("needs GitHub"), "git state pill: {text}");
}

#[test]
fn connect_move_clamps_at_both_ends() {
    let mut s = connect(vec![git(false, true), calendar(false)]);
    s.handle(Action::ConnectMove(-1));
    assert_eq!(s.selected, 0);
    s.handle(Action::ConnectMove(1));
    s.handle(Action::ConnectMove(1));
    assert_eq!(s.selected, 1);
}

#[test]
fn connect_git_renders_the_trust_statement_before_connecting() {
    let mut s = connect(vec![git(false, true)]);
    let out = s.handle(Action::ConnectBegin);
    assert!(out.effects.is_empty(), "nothing connects yet");
    assert!(matches!(s.prompt, Some(Prompt::Connect { feed: None, .. })));
    let text = prompt(&s);
    assert!(text.contains("Commit times and counts"), "{text}");
    assert!(text.contains("Never messages, never code"), "{text}");
    assert!(text.contains("nothing counts until you say so"), "{text}");
    assert!(text.contains("Connect Git activity?"), "confirm: {text}");
}

#[test]
fn connect_git_without_github_shows_the_requirement_pointer_not_a_connect() {
    let mut s = connect(vec![git(false, false)]);
    s.handle(Action::ConnectBegin);
    assert!(matches!(s.prompt, Some(Prompt::Requirement { .. })));
    let text = prompt(&s);
    assert!(text.contains("needs GitHub connected first"), "{text}");
    assert!(text.contains("Connect GitHub first"), "detail: {text}");
    assert!(text.contains("engineer.example/github/connect"), "{text}");
    let out = s.handle(Action::ConnectPromptSubmit);
    assert!(out.effects.is_empty());
    assert!(s.prompt.is_some());
}

#[test]
fn disconnect_arms_a_confirm_only_for_a_connected_source() {
    let mut s = connect(vec![git(true, true)]);
    s.handle(Action::ConnectDisconnectBegin);
    assert!(matches!(s.prompt, Some(Prompt::Disconnect { .. })));
    let text = prompt(&s);
    assert!(text.contains("Disconnect Git activity?"), "{text}");
    assert!(text.contains("Drafts already in your inbox are kept"), "{text}");
    s.handle(Action::ConnectPromptCancel);
    assert!(s.prompt.is_none());
}

#[test]
fn disconnect_on_a_disconnected_source_is_a_noop_note() {
    let mut s = connect(vec![git(false, true)]);
    let out = s.handle(Action::ConnectDisconnectBegin);
    assert!(s.prompt.is_none());
    assert_eq!(level(&out), Some(Level::Info));
}

#[test]
fn calendar_connect_captures_a_feed_url_then_posts_it() {
    let mut s = connect(vec![calendar(false)]);
    s.handle(Action::ConnectBegin);
    assert!(matches!(s.prompt, Some(Prompt::Connect { feed: Some(_), .. })));
    for c in "https://cal.example/basic.ics".chars() {
        s.handle(Action::ConnectFeedInput(c));
    }
    assert!(prompt(&s).contains("https://cal.example/basic.ics█"));
    let out = s.handle(Action::ConnectPromptSubmit);
    match out.effects.as_slice() {
        [Effect::Call(Request::Source(SourceVerb::Connect { key, feed }))] => {
            assert_eq!(key, "calendar");
            assert_eq!(feed.as_deref(), Some("https://cal.example/basic.ics"));
        }
        other => panic!("expected the connect, got {other:?}"),
    }
    let verb = SourceVerb::Connect {
        key: "calendar".into(),
        feed: Some("https://cal.example/basic.ics".into()),
    };
    let sent = verb_answered(&verb, Ok("Study calendar".into()));
    assert!(sent.iter().any(|a| matches!(a, Action::RefreshConnect)));
}

#[test]
fn the_feed_url_takes_a_letter_back() {
    let mut s = connect(vec![calendar(false)]);
    s.handle(Action::ConnectBegin);
    s.handle(Action::ConnectFeedInput('h'));
    s.handle(Action::ConnectFeedInput('x'));
    s.handle(Action::ConnectFeedBackspace);
    assert!(prompt(&s).contains("h█"));
}

#[test]
fn connect_git_fires_and_rereads() {
    let mut s = connect(vec![git(false, true)]);
    s.handle(Action::ConnectBegin);
    let out = s.handle(Action::ConnectPromptSubmit);
    assert!(s.in_flight);
    assert!(matches!(
        out.effects.as_slice(),
        [Effect::Call(Request::Source(SourceVerb::Connect { feed: None, .. }))]
    ));
    let verb = SourceVerb::Connect { key: "git".into(), feed: None };
    let sent = verb_answered(&verb, Ok("Git activity".into()));
    assert!(matches!(
        sent.as_slice(),
        [Action::Notify { level: Level::Success, text }, Action::RefreshConnect]
            if text == "connected · Git activity — drafts flow into your inbox"
    ));
}

#[test]
fn disconnect_fires_and_rereads() {
    let mut s = connect(vec![git(true, true)]);
    s.handle(Action::ConnectDisconnectBegin);
    let out = s.handle(Action::ConnectPromptSubmit);
    assert!(matches!(
        out.effects.as_slice(),
        [Effect::Call(Request::Source(SourceVerb::Disconnect { key }))] if key == "git"
    ));
    let verb = SourceVerb::Disconnect { key: "git".into() };
    assert!(matches!(
        &verb_answered(&verb, Ok("Git activity".into()))[0],
        Action::Notify { level: Level::Success, text }
            if text == "disconnected · Git activity — captured drafts kept"
    ));
}

#[test]
fn sync_a_connected_source_queues_it() {
    let mut s = connect(vec![calendar(true)]);
    let out = s.handle(Action::ConnectSync);
    assert!(matches!(
        out.effects.as_slice(),
        [Effect::Call(Request::Source(SourceVerb::Sync { key }))] if key == "calendar"
    ));
    let verb = SourceVerb::Sync { key: "calendar".into() };
    assert!(matches!(
        &verb_answered(&verb, Ok("calendar".into()))[0],
        Action::Notify { level: Level::Success, text } if text == "sync queued · calendar"
    ));
}

#[test]
fn sync_a_disconnected_source_refuses_without_a_call() {
    let mut s = connect(vec![git(false, true)]);
    let out = s.handle(Action::ConnectSync);
    assert_eq!(level(&out), Some(Level::Info));
    assert!(!s.in_flight);
}

#[test]
fn offline_connect_refuses_and_clears_the_guard() {
    let mut s = connect(vec![git(false, true)]);
    s.handle(Action::ConnectBegin);
    s.handle(Action::ConnectPromptSubmit);
    let lost = Fault { kind: FaultKind::Transport, shown: "gone".into() };
    let verb = SourceVerb::Connect { key: "git".into(), feed: None };
    let sent = verb_answered(&verb, Err(lost));
    assert!(matches!(
        &sent[0],
        Action::Notify { level: Level::Error, text } if text.contains("offline")
    ));
    s.handle(Action::ConnectActionFailed);
    assert!(!s.in_flight);
}

#[test]
fn intercept_owns_prompt_keys_only_while_a_prompt_is_open() {
    let mut s = Connect::default();
    assert!(s.intercept_key(press(KeyCode::Char('y'))).is_none());
    s.prompt = Some(Prompt::Connect { source: git(false, true), feed: None });
    assert!(matches!(
        s.intercept_key(press(KeyCode::Char('y'))),
        Some(Action::ConnectPromptSubmit)
    ));
    assert!(matches!(
        s.intercept_key(press(KeyCode::Esc)),
        Some(Action::ConnectPromptCancel)
    ));
    s.prompt = Some(Prompt::Connect { source: calendar(false), feed: Some(String::new()) });
    assert!(matches!(
        s.intercept_key(press(KeyCode::Char('h'))),
        Some(Action::ConnectFeedInput('h'))
    ));
}

#[test]
fn a_refusal_is_worded_by_the_server_where_it_can_be() {
    let problem = |detail: &str| Fault {
        kind: FaultKind::Problem {
            status: 422,
            title: "Unprocessable".into(),
            detail: detail.into(),
            code: None,
        },
        shown: "422".into(),
    };
    assert_eq!(problem_text(&problem("Connect GitHub first")), "refused · Connect GitHub first");
    assert_eq!(problem_text(&problem("")), "refused · Unprocessable");
    let refused = Fault { kind: FaultKind::Unauthorized, shown: "401".into() };
    assert_eq!(problem_text(&refused), "not authenticated — run `engineer login`");
    let other = Fault { kind: FaultKind::Other, shown: "boom".into() };
    assert_eq!(problem_text(&other), "boom");
    assert!(matches!(
        sources_read(Err(other)),
        Action::ConnectLoadFailed(t) if t == "sources load failed: boom"
    ));
}

// ---- the queue ----

fn intent(id: u64, word: &str, state: IntentState) -> Intent {
    Intent { id, word: word.into(), stream: "timer".into(), queued_at: NOW - 120, state }
}

fn queue(intents: Vec<Intent>) -> Queue {
    let mut s = Queue::default();
    s.handle(Action::QueueLoaded(intents));
    s
}

fn queue_panel(s: &Queue) -> String {
    s.panel_state().map(|p| flat(&panel_lines(&p))).unwrap_or_default()
}

#[test]
fn empty_queue_renders_the_calm_synced_state() {
    let s = queue(vec![]);
    let text = queue_panel(&s);
    assert!(text.contains("everything synced"), "zero state: {text}");
    assert_eq!(s.panel_title(NOW), "Queue");
}

#[test]
fn list_renders_the_shared_columns_and_the_states() {
    let s = queue(vec![
        intent(1, "pause", IntentState::Diverged),
        intent(2, "log", IntentState::Pending),
        intent(3, "resume", IntentState::Parked { reason: "took server · Conflict".into() }),
    ]);
    let text: String =
        s.intents.iter().map(|i| Queue::intent_row(i, NOW).text()).collect::<Vec<_>>().join("\n");
    let columns = Queue::columns();
    assert!(columns.contains(&"INTENT"), "header: {columns:?}");
    assert!(columns.contains(&"TARGET"), "header: {columns:?}");
    assert!(columns.contains(&"STATE"), "header: {columns:?}");
    assert!(text.contains("pause"), "verb: {text}");
    assert!(text.contains("diverged"), "diverged state: {text}");
    assert!(text.contains("parked"), "parked state: {text}");
    assert!(text.contains("took server"), "parked reason: {text}");
    assert_eq!(s.panel_title(NOW), "Queue · 3 · oldest 2m ago");
}

#[test]
fn a_read_failure_renders_loud_not_a_calm_synced() {
    let mut s = Queue::default();
    let out = s.handle(queue_read(Err("queue.json is corrupt".into())));
    assert_eq!(level(&out), Some(Level::Error), "surfaced loudly");
    let text = queue_panel(&s);
    assert!(text.contains("couldn't load the queue"), "loud atom headline: {text}");
    assert!(text.contains("corrupt"), "names the failure: {text}");
    assert!(!text.contains("everything synced"), "never a calm lie");
}

#[test]
fn selection_moves_and_clamps() {
    let mut s = queue((0..3).map(|i| intent(i, "pause", IntentState::Pending)).collect());
    s.handle(Action::QueueSelectMove(-1));
    assert_eq!(s.selected, 0);
    for _ in 0..3 {
        s.handle(Action::QueueSelectMove(1));
    }
    assert_eq!(s.selected, 2);
}

#[test]
fn retry_is_guarded_against_a_double_fire() {
    let mut s = Queue::default();
    let out = s.handle(Action::QueueRetry);
    assert!(matches!(out.effects.as_slice(), [Effect::Call(Request::RetryQueue)]));
    assert!(s.draining, "the guard is set while the drain runs");
    assert!(s.handle(Action::QueueRetry).effects.is_empty());
    assert!(s.draining);
}

#[test]
fn drop_on_a_pending_intent_refuses_without_arming() {
    let mut s = queue(vec![intent(1, "pause", IntentState::Pending)]);
    let out = s.handle(Action::QueueDropSelected);
    let (level, text) = out.note.unwrap();
    assert_eq!(level, Level::Warning);
    assert!(text.contains("only a diverged write"), "pending refuses drop");
    assert!(!s.confirm_drop, "a pending row never arms");
}

#[test]
fn drop_arms_then_confirms_and_removes_the_diverged_intent() {
    let mut s = queue(vec![intent(4, "log", IntentState::Diverged)]);
    let out = s.handle(Action::QueueDropSelected);
    assert!(matches!(out.note, Some((Level::Warning, t)) if t.contains("again to confirm")));
    assert!(s.confirm_drop, "armed");
    let out = s.handle(Action::QueueDropSelected);
    assert!(out.note.is_none(), "confirmed drop returns no immediate warning");
    assert!(!s.confirm_drop, "disarmed after firing");
    assert!(matches!(out.effects.as_slice(), [Effect::Call(Request::DropIntent(4))]));
    let steps = dropped(DropReply::Gone("log".into()));
    assert!(matches!(
        steps.told,
        Action::Notify { level: Level::Success, text } if text.contains("dropped")
    ));
    assert!(steps.drain, "what stood behind it is replayed");
    assert!(matches!(steps.last, Some(Action::QueueRefresh)));
}

#[test]
fn a_drop_that_fails_says_why() {
    let kept = dropped(DropReply::Kept("no such intent".into()));
    assert!(matches!(
        kept.told,
        Action::Notify { level: Level::Error, text }
            if text == "drop refused: no such intent — the intent stays as it was"
    ));
    assert!(!kept.drain);
    assert!(matches!(kept.last, Some(Action::QueueRefresh)));
    let unopened = dropped(DropReply::Unopened("no such file".into()));
    assert!(matches!(
        unopened.told,
        Action::Notify { level: Level::Error, text } if text == "drop failed: no such file"
    ));
    assert!(!unopened.drain);
    assert!(unopened.last.is_none(), "nothing to read again");
}

#[test]
fn a_move_disarms_a_pending_drop_confirm() {
    let mut s = queue(vec![
        intent(1, "log", IntentState::Diverged),
        intent(2, "pause", IntentState::Pending),
    ]);
    s.handle(Action::QueueDropSelected);
    assert!(s.confirm_drop);
    s.handle(Action::QueueSelectMove(1));
    assert!(!s.confirm_drop, "moving off the row disarms");
}

#[test]
fn a_retry_disarms_a_pending_drop_confirm() {
    let mut s = queue(vec![intent(1, "log", IntentState::Diverged)]);
    s.handle(Action::QueueDropSelected);
    assert!(s.confirm_drop);
    s.handle(Action::QueueRetry);
    assert!(!s.confirm_drop, "another gesture disarms the drop");
}

#[test]
fn enter_on_a_diverged_intent_routes_to_the_timer_reconcile() {
    let mut s = queue(vec![intent(1, "log", IntentState::Diverged)]);
    let out = s.handle(Action::QueueOpenReconcile);
    assert!(out.note.is_none());
    assert!(matches!(
        out.effects.as_slice(),
        [Effect::Send(Action::Goto(ScreenKind::Timer))]
    ));
}

#[test]
fn enter_on_a_pending_intent_hints_instead_of_routing() {
    let mut s = queue(vec![intent(1, "pause", IntentState::Pending)]);
    let out = s.handle(Action::QueueOpenReconcile);
    let (level, text) = out.note.unwrap();
    assert_eq!(level, Level::Info);
    assert!(text.contains("isn't diverged"));
}

#[test]
fn ages_read_in_their_largest_unit() {
    assert_eq!(fmt_age(NOW - 59, NOW), "59s");
    assert_eq!(fmt_age(NOW - 60, NOW), "1m");
    assert_eq!(fmt_age(NOW - 7200, NOW), "2h");
    assert_eq!(fmt_age(NOW - 3 * 86_400, NOW), "3d");
    assert_eq!(fmt_age(NOW + 5, NOW), "0s");
    let fault = Fault { kind: FaultKind::Other, shown: "boom".into() };
    assert!(matches!(
        retry_refused(&fault).as_slice(),
        [Action::Notify { level: Level::Error, text }, Action::QueueRefresh]
            if text == "retry failed: boom"
    ));
}
