//! The shell: actions, the keymap, the header, the clock and the editor.

use engineer::action::{Action, Effect, Moment, Request};
use engineer::app::{
    log_dir_found, me_read, signed_in, timer_polled, App, EditorOutcome, EditorTarget, SignIn,
    HEARTBEAT_INTERVAL, TIMER_POLL_INTERVAL,
};
use engineer::capture::QuickCapture;
use engineer::clock::{clock_face, live_elapsed};
use engineer::command::TimerVerb;
use engineer::event::{refresh_for, translate};
use engineer::keys::{Event, KeyCode, KeyEvent, Modifiers};
use engineer::line::{Footer, Tone};
use engineer::model::{
    Fault, FaultKind, Note, Pace, QueueSummary, ReplayReport, Timer, TimerSettings,
};
use engineer::notify::{Level, Notification, NOTICE_TTL};
use engineer::screens::board::{Board, Claims};
use engineer::screens::{Screen, ScreenKind};

const NOW: u64 = 1_000_000;

fn moment() -> Moment {
    Moment { millis: NOW, second: 1_783_252_800, hours: None }
}

fn app(user: Option<&str>) -> App {
    let mut app = App::on(ScreenKind::Home, NOW);
    app.user = user.map(String::from);
    app
}

fn step(app: &mut App, action: Action) -> Vec<Effect> {
    app.handle(action, moment())
}

fn running_timer(elapsed_seconds: i64) -> Timer {
    Timer {
        id: None,
        running: true,
        bound: true,
        paused: false,
        idle: None,
        over: false,
        label: Some("consensus".into()),
        elapsed_seconds,
        planned_minutes: None,
    }
}

fn knobs() -> TimerSettings {
    TimerSettings {
        timer_mode: "stopwatch".into(),
        focus_work_minutes: 50,
        focus_short_break_minutes: 10,
        focus_long_break_minutes: 20,
        focus_long_break_every: 4,
        idle_guard_enabled: true,
        idle_threshold_minutes: 15,
        idle_default_reclaim: "trim".into(),
        audit_long_hours: 6,
        audit_short_seconds: 60,
        audit_badge_enabled: true,
        overrun_ping_enabled: true,
    }
}

fn sends(effects: &[Effect], pred: impl Fn(&Action) -> bool) -> bool {
    effects.iter().any(|e| matches!(e, Effect::Send(a) if pred(a)))
}

fn header(app: &App) -> String {
    format!("{}{}", app.header(NOW, 120, false).text(), app.identity("id.example").text())
}

// ---- signing in ----

#[test]
fn a_401_from_any_screen_routes_to_reauth() {
    let mut app = app(Some("alice@example.com"));
    assert!(matches!(app.current, Screen::Home(_)));
    step(&mut app, Action::SessionExpired);
    match &app.current {
        Screen::Login(s) => {
            let text: String = s.lines().iter().map(|l| l.text()).collect();
            assert!(text.contains("session expired"), "re-auth prompt: {text}");
        }
        other => panic!("routed to {other:?}"),
    }
}

#[test]
fn a_burst_of_401s_does_not_stack_login_screens() {
    let mut app = app(Some("alice@example.com"));
    step(&mut app, Action::SessionExpired);
    step(&mut app, Action::SessionExpired);
    assert!(matches!(app.current, Screen::Login(_)));
}

#[test]
fn an_unreachable_identity_server_raises_the_blocking_screen() {
    let mut app = app(None);
    step(&mut app, Action::LoginServerError("identity.dev → HTTP 500".into()));
    match &app.current {
        Screen::Login(s) => {
            let text: String = s.lines().iter().map(|l| l.text()).collect();
            assert!(text.contains("can't reach the identity server"), "{text}");
            assert!(s.blocks());
        }
        other => panic!("routed to {other:?}"),
    }
}

#[test]
fn set_user_updates_state() {
    let mut app = app(None);
    let effects = step(&mut app, Action::SetUser("bob@example.com".into()));
    assert_eq!(app.user.as_deref(), Some("bob@example.com"));
    assert!(matches!(effects.as_slice(), [Effect::Call(Request::LoadKnobs)]));
    step(&mut app, Action::SettingsLoaded(Box::new(knobs())));
    assert!(step(&mut app, Action::SetUser("bob@example.com".into())).is_empty());
}

#[test]
fn login_succeeded_enqueues_goto_home_and_fetch_me() {
    let mut app = app(None);
    let effects = step(&mut app, Action::LoginSucceeded);
    assert!(sends(&effects, |a| matches!(a, Action::Goto(ScreenKind::Home))));
    assert!(sends(&effects, |a| matches!(a, Action::FetchMe)));
}

#[test]
fn signing_in_waits_and_a_failure_goes_back_to_the_prompt() {
    let mut app = App::on(ScreenKind::Login, NOW);
    let effects = step(&mut app, Action::Login);
    assert!(matches!(effects.as_slice(), [Effect::Call(Request::SignIn)]));
    match app.hints() {
        Footer::Keys(keys) => assert_eq!(keys, vec![("q", "quit")]),
        other => panic!("expected keys, got {other:?}"),
    }
    step(&mut app, Action::LoginFailed("denied".into()));
    assert_eq!(app.notification.as_ref().unwrap().text, "login failed: denied");
    match app.hints() {
        Footer::Keys(keys) => assert_eq!(keys[0], ("⏎", "log in")),
        other => panic!("expected keys, got {other:?}"),
    }
    assert!(matches!(signed_in(SignIn::Done), Action::LoginSucceeded));
    assert!(matches!(signed_in(SignIn::NotStarted("x".into())), Action::LoginServerError(_)));
    assert!(matches!(signed_in(SignIn::Failed("x".into())), Action::LoginFailed(_)));
}

#[test]
fn a_session_expiry_dismisses_the_capture_overlay() {
    let mut app = app(Some("alice@example.com"));
    step(&mut app, Action::CaptureOpen);
    step(&mut app, Action::SessionExpired);
    assert!(app.capture.is_none());
}

#[test]
fn the_shell_starts_at_home_or_at_the_sign_in() {
    let (app, effects) = App::start(true, NOW);
    assert_eq!(app.current.kind(), ScreenKind::Home);
    assert!(matches!(
        effects.as_slice(),
        [
            Effect::Send(Action::FetchMe),
            Effect::Send(Action::RefreshTimer),
            Effect::Call(Request::LoadToday),
            Effect::Call(Request::CountDrafts)
        ]
    ));
    let (app, effects) = App::start(false, NOW);
    assert_eq!(app.current.kind(), ScreenKind::Login);
    assert!(effects.is_empty());
}

// ---- presence and polling ----

#[test]
fn presence_beats_for_a_running_timer_past_the_throttle() {
    let mut app = app(Some("alice@example.com"));
    app.timer = Some(running_timer(300));
    app.heartbeat_last = NOW - HEARTBEAT_INTERVAL - 1_000;
    let effects = app.beat_presence_if_active(NOW);
    assert_eq!(app.heartbeat_last, NOW, "a key past the throttle marks presence");
    assert!(matches!(effects.as_slice(), [Effect::Call(Request::Heartbeat)]));
}

#[test]
fn presence_is_throttled_within_the_window() {
    let mut app = app(Some("alice@example.com"));
    app.timer = Some(running_timer(300));
    app.heartbeat_last = NOW - 5_000;
    let effects = app.beat_presence_if_active(NOW);
    assert_eq!(app.heartbeat_last, NOW - 5_000, "within the window, no beat");
    assert!(effects.is_empty());
}

#[test]
fn presence_never_beats_once_idle_so_reclaim_owns_the_decision() {
    let mut app = app(Some("alice@example.com"));
    let mut idle = running_timer(9660);
    idle.idle = Some(true);
    app.timer = Some(idle);
    app.heartbeat_last = NOW - HEARTBEAT_INTERVAL - 1_000;
    assert!(
        app.beat_presence_if_active(NOW).is_empty(),
        "an idle timer's reclaim decision is not auto-resolved by a keypress"
    );
}

#[test]
fn presence_never_beats_without_a_running_timer_or_a_user() {
    let mut one = app(Some("alice@example.com"));
    one.heartbeat_last = NOW - HEARTBEAT_INTERVAL - 1_000;
    assert!(one.beat_presence_if_active(NOW).is_empty(), "nothing running → no presence beat");
    let mut two = app(None);
    two.timer = Some(running_timer(300));
    two.heartbeat_last = NOW - HEARTBEAT_INTERVAL - 1_000;
    assert!(two.beat_presence_if_active(NOW).is_empty(), "signed out → no presence beat");
}

#[test]
fn a_keystroke_marks_presence_once_the_interval_has_passed() {
    let mut app = app(Some("alice@example.com"));
    app.timer = Some(running_timer(300));
    app.heartbeat_last = NOW - HEARTBEAT_INTERVAL - 1_000;
    let key = Event::Key { key: KeyEvent::plain(KeyCode::Char('j')), press: true };
    let (_, effects) = app.on_terminal_event(key, NOW);
    assert_eq!(app.heartbeat_last, NOW);
    assert_eq!(effects.len(), 1);
}

#[test]
fn a_non_key_terminal_event_is_not_presence() {
    let mut app = app(Some("alice@example.com"));
    app.timer = Some(running_timer(300));
    let last = NOW - HEARTBEAT_INTERVAL - 1_000;
    app.heartbeat_last = last;
    for _ in 0..2 {
        app.on_terminal_event(Event::Other, NOW);
    }
    assert_eq!(app.heartbeat_last, last);
}

#[test]
fn without_input_the_tick_never_marks_presence() {
    let mut app = app(Some("alice@example.com"));
    app.timer = Some(running_timer(300));
    let last = NOW - HEARTBEAT_INTERVAL - 1_000;
    app.heartbeat_last = last;
    app.on_tick(NOW, None);
    step(&mut app, Action::TimerLoaded(Box::new(running_timer(310))));
    assert_eq!(app.heartbeat_last, last);
}

#[test]
fn the_header_poll_waits_for_a_signed_in_user() {
    let mut app = app(None);
    app.timer_last_poll = NOW - TIMER_POLL_INTERVAL;
    let effects = app.on_tick(NOW, None);
    assert!(!sends(&effects, |a| matches!(a, Action::RefreshTimer)));
    app.user = Some("alice@example.com".into());
    let effects = app.on_tick(NOW, None);
    assert!(sends(&effects, |a| matches!(a, Action::RefreshTimer)));
    let effects = app.on_tick(NOW + 1, None);
    assert!(effects.is_empty(), "polled once per interval");
}

#[test]
fn the_tick_takes_over_the_depth_of_the_queue() {
    let mut app = app(None);
    app.on_tick(NOW, Some(QueueSummary { in_play: 3, diverged: 1 }));
    assert_eq!(app.queued_writes, 3);
    assert!(app.queue_diverged);
    app.on_tick(NOW, None);
    assert_eq!(app.queued_writes, 0);
    assert!(!app.queue_diverged);
}

// ---- the editor ----

#[test]
fn week_reflect_edit_stashes_the_seed_and_target_for_the_run_loop() {
    let mut app = app(Some("a@b.c"));
    step(
        &mut app,
        Action::WeekReflectEdit { iso_week: "2026-W29".into(), seed: "the current note".into() },
    );
    let pending = app.pending_editor.expect("the hand-off is stashed");
    assert_eq!(pending.seed, "the current note");
    assert!(matches!(
        pending.target,
        EditorTarget::WeekNote { iso_week } if iso_week == "2026-W29"
    ));
}

#[test]
fn quitting_the_editor_without_writing_keeps_the_capture_draft() {
    let mut app = app(Some("a@b.c"));
    app.capture = Some(QuickCapture::with_text("a half-formed thought"));
    app.route_editor_outcome(EditorTarget::Capture, EditorOutcome::Aborted, NOW);
    assert_eq!(app.capture.unwrap().body(), "a half-formed thought");
}

#[test]
fn an_empty_editor_save_keeps_the_capture_draft() {
    let mut app = app(Some("a@b.c"));
    app.capture = Some(QuickCapture::with_text("a half-formed thought"));
    app.route_editor_outcome(EditorTarget::Capture, EditorOutcome::Saved("  \n".into()), NOW);
    assert_eq!(app.capture.unwrap().body(), "a half-formed thought");
}

#[test]
fn a_written_editor_buffer_replaces_the_capture_draft() {
    let mut app = app(Some("a@b.c"));
    app.capture = Some(QuickCapture::with_text("a half-formed thought"));
    app.route_editor_outcome(
        EditorTarget::Capture,
        EditorOutcome::Saved("the finished thought".into()),
        NOW,
    );
    assert_eq!(app.capture.unwrap().body(), "the finished thought");
}

#[test]
fn an_emptied_reflection_is_saved_as_a_clear_not_read_as_an_abort() {
    let mut app = app(Some("a@b.c"));
    let sent = app.route_editor_outcome(
        EditorTarget::WeekNote { iso_week: "2026-W29".into() },
        EditorOutcome::Saved(String::new()),
        NOW,
    );
    assert!(sends(&sent, |a| matches!(a, Action::WeekReflectSave { body, .. } if body.is_empty())));
}

#[test]
fn an_aborted_reflection_keeps_the_stored_note() {
    let mut app = app(Some("a@b.c"));
    let sent = app.route_editor_outcome(
        EditorTarget::WeekNote { iso_week: "2026-W29".into() },
        EditorOutcome::Aborted,
        NOW,
    );
    assert!(sends(&sent, |a| matches!(a, Action::WeekReflectAbort)));
    assert!(!sends(&sent, |a| matches!(a, Action::WeekReflectSave { .. })));
}

#[test]
fn an_aborted_queue_intent_edit_leaves_the_intent_diverged() {
    let mut app = app(Some("a@b.c"));
    let sent = app.route_editor_outcome(
        EditorTarget::QueueIntent { intent_id: 3 },
        EditorOutcome::Aborted,
        NOW,
    );
    assert!(sent.is_empty(), "no retry is dispatched");
    assert_eq!(app.notification.unwrap().level, Level::Info);
}

#[test]
fn the_overlay_hands_its_body_to_the_editor() {
    let mut app = app(None);
    step(&mut app, Action::CaptureOpenText("seed me".into()));
    step(&mut app, Action::CaptureEditExternal);
    let pending = app.pending_editor.expect("stashed");
    assert_eq!(pending.seed, "seed me");
    assert!(matches!(pending.target, EditorTarget::Capture));
}

// ---- the header ----

#[test]
fn header_shows_running_timer_pill() {
    let mut app = app(Some("alice@example.com"));
    app.timer = Some(running_timer(272));
    app.timer_base = Some(NOW);
    let text = header(&app);
    assert!(text.contains("● 04:32"), "{text}");
    assert!(text.contains("consensus"), "{text}");
}

#[test]
fn below_seventy_columns_the_header_cell_drops_its_label() {
    let mut app = app(Some("alice@example.com"));
    app.timer = Some(running_timer(272));
    app.timer_base = Some(NOW);
    let text = app.header(NOW, 69, false).text();
    assert!(text.contains("● 04:32"), "{text}");
    assert!(!text.contains("consensus"), "{text}");
    assert!(app.header(NOW, 70, false).text().contains("consensus"));
}

#[test]
fn header_shows_signed_in_user() {
    let app = app(Some("alice@example.com"));
    assert!(header(&app).contains("alice@example.com"));
    assert_eq!(app.identity("id.example").text(), "alice@example.com @ id.example ");
}

#[test]
fn header_shows_not_signed_in_when_anonymous() {
    let app = app(None);
    assert!(header(&app).contains("not signed in"));
}

#[test]
fn an_offer_shows_on_the_clock_once_the_knobs_are_known() {
    let mut app = app(Some("alice@example.com"));
    app.timer = Some(running_timer(272));
    app.timer_base = Some(NOW);
    assert_eq!(app.header(NOW, 120, true).text(), " Home   ● 04:32 consensus");
    app.settings = Some(knobs());
    assert_eq!(app.header(NOW, 120, true).text(), " Home   ● 04:32 consensus ?");
    assert_eq!(app.header(NOW, 69, true).text(), " Home   ● 04:32 ?");
    assert_eq!(app.header(NOW, 120, false).text(), " Home   ● 04:32 consensus");
}

#[test]
fn the_clock_ticks_on_while_it_runs() {
    let mut t = running_timer(3_599);
    assert_eq!(live_elapsed(&t, Some(NOW), NOW + 1_999), 3_600);
    assert_eq!(live_elapsed(&t, None, NOW), 3_599);
    assert_eq!(live_elapsed(&t, Some(NOW), NOW - 5_000), 3_599, "no snapshot is from later");
    assert_eq!(clock_face(&t, 3_600, true, false).unwrap().text(), "● 1:00:00");
    assert_eq!(clock_face(&t, -4, true, false).unwrap().text(), "● 00:00");
    t.over = true;
    assert_eq!(clock_face(&t, 60, true, false).unwrap().spans[0].tone, Tone::Danger);
    t.paused = true;
    assert_eq!(live_elapsed(&t, Some(NOW), NOW + 60_000), 3_599, "a paused clock stands");
    assert_eq!(clock_face(&t, 60, false, false).unwrap().text(), "‖ 01:00 consensus");
    t.running = false;
    assert!(clock_face(&t, 60, false, false).is_none());
    t.elapsed_seconds = i64::MAX;
    t.running = true;
    t.paused = false;
    assert_eq!(live_elapsed(&t, Some(0), NOW), i64::MAX);
}

#[test]
fn header_has_no_pill_without_a_timer() {
    let app = app(Some("alice@example.com"));
    assert!(!header(&app).contains('●'));
    assert_eq!(app.header(NOW, 120, false).text(), " Home ");
}

#[test]
fn timer_loaded_updates_shared_snapshot() {
    let mut app = app(Some("alice@example.com"));
    step(&mut app, Action::TimerLoaded(Box::new(running_timer(60))));
    assert!(app.timer.as_ref().is_some_and(|t| t.running));
    assert_eq!(app.timer_base, Some(NOW));
}

#[test]
fn timer_cleared_wipes_the_header_snapshot() {
    let mut app = app(Some("alice@example.com"));
    app.timer = Some(running_timer(60));
    app.timer_base = Some(NOW);
    step(&mut app, Action::TimerCleared);
    assert!(app.timer.is_none());
}

#[test]
fn a_stale_fold_wears_the_marker_until_a_live_poll_lands() {
    let mut app = app(Some("alice@example.com"));
    step(&mut app, Action::TimerStale(Box::new(running_timer(272))));
    assert!(app.timer_stale);
    let text = header(&app);
    assert!(text.contains("● 04:32 consensus ~"), "{text}");
    step(&mut app, Action::TimerLoaded(Box::new(running_timer(272))));
    assert!(!app.timer_stale);
    let text = header(&app);
    assert!(text.contains("● 04:32"), "{text}");
    assert!(!text.contains("04:32 consensus ~"), "{text}");
}

#[test]
fn header_shows_the_queued_up_count_when_writes_are_pending() {
    let mut app = app(Some("alice@example.com"));
    app.timer = Some(running_timer(272));
    app.timer_base = Some(NOW);
    app.queued_writes = 2;
    let text = header(&app);
    assert!(text.contains("↑2"), "{text}");
    app.queued_writes = 0;
    assert!(!header(&app).contains('↑'));
}

#[test]
fn header_wears_the_diverged_chip_even_without_a_clock() {
    let mut app = app(Some("alice@example.com"));
    app.queue_diverged = true;
    let text = header(&app);
    assert!(text.contains("diverged"), "{text}");
    assert_eq!(app.timer_cell(None).unwrap().text(), " diverged ");
    app.timer = Some(running_timer(272));
    app.timer_base = Some(NOW);
    let text = header(&app);
    assert!(text.contains("● 04:32"), "{text}");
    assert!(text.contains("diverged"), "{text}");
    app.queue_diverged = false;
    assert!(!header(&app).contains("diverged"));
}

#[test]
fn timer_provisional_updates_the_header_snapshot_unstale() {
    let mut app = app(Some("alice@example.com"));
    step(&mut app, Action::TimerProvisional(Box::new(running_timer(60))));
    assert!(app.timer.as_ref().is_some_and(|t| t.running));
    assert!(!app.timer_stale, "a fresh local write is not a stale read");
}

#[test]
fn a_poll_answers_live_stale_or_nothing() {
    let lost = || Fault { kind: FaultKind::Transport, shown: "gone".into() };
    let t = || Box::new(running_timer(1));
    assert!(matches!(timer_polled(Ok(t()), None), Some(Action::TimerLoaded(_))));
    assert!(matches!(timer_polled(Err(lost()), Some(t())), Some(Action::TimerStale(_))));
    assert!(timer_polled(Err(lost()), None).is_none());
    let other = Fault { kind: FaultKind::Other, shown: "500".into() };
    assert!(timer_polled(Err(other), Some(t())).is_none());
    assert!(matches!(me_read(Ok("a@b.c".into())), Action::SetUser(_)));
    assert!(matches!(
        me_read(Err(lost())),
        Action::Notify { level: Level::Error, text } if text == "login required: gone"
    ));
}

fn overrun_snapshot(id: i64) -> Timer {
    let mut t = running_timer(7300);
    t.id = Some(id);
    t.planned_minutes = Some(120);
    t.over = true;
    t
}

#[test]
fn the_overrun_ping_fires_once_per_timer() {
    let mut app = app(Some("alice@example.com"));
    step(&mut app, Action::TimerLoaded(Box::new(overrun_snapshot(7))));
    let ping = app.notification.take().expect("the first overrun read pings");
    assert_eq!(ping.level, Level::Warning);
    assert!(ping.text.contains("planned 2h 00m"), "{}", ping.text);
    step(&mut app, Action::TimerLoaded(Box::new(overrun_snapshot(7))));
    assert!(app.notification.is_none(), "a later poll of the same clock");
    step(&mut app, Action::TimerLoaded(Box::new(overrun_snapshot(8))));
    assert!(app.notification.is_some(), "a new timer pings again");
}

// ---- the replay transcript ----

fn report(replayed: usize, diverged: bool) -> ReplayReport {
    ReplayReport { replayed, diverged }
}

#[test]
fn reconnect_transcript_streams_then_lands_the_synced_tile() {
    let mut app = app(Some("alice@example.com"));
    step(&mut app, Action::ReplayProgress { word: "start".into() });
    let n = app.notification.as_ref().expect("the transcript shows");
    assert_eq!(n.level, Level::Info, "the transcript is quiet, not a success");
    assert!(n.text.contains("back online"), "{}", n.text);
    assert!(n.text.contains("start"), "{}", n.text);
    step(&mut app, Action::ReplayProgress { word: "pause".into() });
    let n = app.notification.as_ref().unwrap();
    assert!(n.text.contains("start") && n.text.contains("pause"), "{}", n.text);
    step(&mut app, Action::ReplayFinished(report(2, false)));
    let n = app.notification.as_ref().expect("the synced tile lands");
    assert_eq!(n.level, Level::Success);
    assert_eq!(n.text, "synced — 2 queued writes reconciled");
    assert!(app.reconnect_words.is_empty(), "transcript reset for next drain");
}

#[test]
fn synced_tile_uses_singular_copy_for_one_write() {
    let mut app = app(Some("alice@example.com"));
    step(&mut app, Action::ReplayFinished(report(1, false)));
    assert_eq!(
        app.notification.as_ref().unwrap().text,
        "synced — 1 queued write reconciled"
    );
}

#[test]
fn synced_tile_auto_dismisses_after_its_ttl() {
    let mut app = app(Some("alice@example.com"));
    step(&mut app, Action::ReplayFinished(report(2, false)));
    assert_eq!(app.notification.as_ref().unwrap().level, Level::Success);
    app.expire_stale_notification(NOW);
    assert!(app.notification.is_some(), "not yet past its TTL");
    app.expire_stale_notification(NOW + NOTICE_TTL + 1_000);
    assert!(app.notification.is_none(), "auto-dismissed after ~4s");
}

#[test]
fn a_diverged_drain_shows_no_synced_tile() {
    let mut app = app(Some("alice@example.com"));
    step(&mut app, Action::ReplayProgress { word: "start".into() });
    assert!(app.notification.is_some());
    step(&mut app, Action::ReplayFinished(report(1, true)));
    assert!(app.notification.is_none(), "no synced tile on divergence");
    assert!(app.reconnect_words.is_empty());
}

#[test]
fn an_empty_drain_shows_nothing() {
    let mut app = app(Some("alice@example.com"));
    step(&mut app, Action::ReplayFinished(report(0, false)));
    assert!(app.notification.is_none(), "a drain that replayed nothing is silent");
}

#[test]
fn books_load_failure_notifies_error() {
    let mut app = app(None);
    step(&mut app, Action::Notify { level: Level::Error, text: "books load failed".into() });
    let n = app.notification.expect("notification set");
    assert_eq!(n.level, Level::Error);
    assert_eq!(n.text, "books load failed");
    assert_eq!(n.since, NOW);
}

// ---- screens and the overlay ----

#[test]
fn goto_notes_titles_the_screen() {
    let mut app = app(Some("alice@example.com"));
    let effects = step(&mut app, Action::Goto(ScreenKind::Notes));
    assert_eq!(app.current.kind(), ScreenKind::Notes);
    assert_eq!(app.current.title(), "Notes");
    assert!(matches!(effects.as_slice(), [Effect::Call(Request::ListNotes { .. })]));
}

#[test]
fn capture_overlay_opens_and_renders_over_any_screen() {
    let mut app = app(Some("alice@example.com"));
    step(&mut app, Action::CaptureOpen);
    assert_eq!(app.capture.as_ref().unwrap().title(), "Quick capture");
}

#[test]
fn capture_saved_closes_the_overlay_and_confirms() {
    let mut app = app(Some("alice@example.com"));
    step(&mut app, Action::CaptureOpen);
    step(&mut app, Action::CaptureSaved);
    assert!(app.capture.is_none());
    let n = app.notification.expect("a confirmation is shown");
    assert_eq!(n.level, Level::Success);
}

#[test]
fn a_saved_note_refreshes_the_notes_browser_only_when_it_is_showing() {
    let mut app = app(Some("alice@example.com"));
    let sent = step(&mut app, Action::CaptureSaved);
    assert!(!sends(&sent, |a| matches!(a, Action::RefreshNotes)));
    app.current = Screen::new(ScreenKind::Notes);
    let sent = step(&mut app, Action::CaptureSaved);
    assert!(sends(&sent, |a| matches!(a, Action::RefreshNotes)));
}

#[test]
fn capture_edit_prefills_the_overlay_from_a_note() {
    let mut app = app(Some("alice@example.com"));
    let note = Note {
        id: 9,
        title: "closures".into(),
        content: Some("closures are objects".into()),
        book_id: None,
        book_title: None,
        archived_at: None,
        citations: vec![],
    };
    step(&mut app, Action::CaptureOpenEdit(Box::new(note)));
    let cap = app.capture.as_ref().unwrap();
    assert_eq!(cap.title(), "Edit note");
    assert_eq!(cap.body(), "closures are objects");
}

#[test]
fn an_overlay_action_without_an_overlay_is_dropped() {
    let mut app = app(None);
    assert!(step(&mut app, Action::CaptureSave).is_empty());
    assert!(app.notification.is_none());
    step(&mut app, Action::CaptureOpen);
    step(&mut app, Action::CaptureSave);
    assert_eq!(app.notification.as_ref().unwrap().level, Level::Warning, "nothing to save");
}

fn board(claims: Claims, keys: Vec<(&'static str, &'static str)>) -> Box<Board> {
    Box::new(Board { claims, footer: Footer::Keys(keys) })
}

#[test]
fn letters_typed_into_the_week_board_reach_it() {
    let mut app = app(None);
    step(&mut app, Action::Goto(ScreenKind::Week));
    let begin = press(&mut app, KeyCode::Char('a')).expect("the add input opens");
    assert!(matches!(begin, Action::WeekAddBegin));
    let effects = step(&mut app, begin);
    assert!(matches!(effects.as_slice(), [Effect::Shell(Action::WeekAddBegin)]));
    let typing = board(Claims::Every, vec![("↵", "add"), ("Esc", "cancel")]);
    let effects = step(&mut app, Action::BoardShown { kind: ScreenKind::Week, board: typing });
    assert!(effects.is_empty());
    for c in ['q', ':', 'g', ' ', 'r', '?'] {
        let action = press(&mut app, KeyCode::Char(c)).expect("the board takes it");
        assert!(
            matches!(action, Action::BoardKey(k) if k == KeyEvent::plain(KeyCode::Char(c))),
            "{c}"
        );
        let effects = step(&mut app, action);
        assert!(matches!(
            effects.as_slice(),
            [Effect::Shell(Action::BoardKey(k))] if k.code == KeyCode::Char(c)
        ));
        assert!(!app.should_quit && !app.leader_pending && !app.goto_pending);
        assert!(app.command_buffer.is_none());
    }
    let effects = step(&mut app, Action::WeekInputChar('q'));
    assert!(matches!(effects.as_slice(), [Effect::Shell(Action::WeekInputChar('q'))]));
    match app.hints() {
        Footer::Keys(keys) => assert_eq!(keys, [("↵", "add"), ("Esc", "cancel")]),
        other => panic!("expected the board's keys, got {other:?}"),
    }
    let calm = board(Claims::Nothing, vec![]);
    step(&mut app, Action::BoardShown { kind: ScreenKind::Week, board: calm });
    assert!(matches!(press(&mut app, KeyCode::Char('q')), Some(Action::Quit)));
}

#[test]
fn a_board_may_take_some_keys_only() {
    let mut app = app(None);
    step(&mut app, Action::Goto(ScreenKind::Timer));
    let panel = vec![KeyEvent::plain(KeyCode::Char('b')), KeyEvent::plain(KeyCode::Char('x'))];
    let shown = board(Claims::These(panel), vec![("b", "keep both")]);
    step(&mut app, Action::BoardShown { kind: ScreenKind::Timer, board: shown });
    assert!(matches!(press(&mut app, KeyCode::Char('b')), Some(Action::BoardKey(_))));
    assert!(matches!(press(&mut app, KeyCode::Char('p')), Some(Action::TimerPauseResume)));
    let other = board(Claims::Every, vec![]);
    step(&mut app, Action::BoardShown { kind: ScreenKind::Week, board: other });
    assert!(
        matches!(press(&mut app, KeyCode::Char('p')), Some(Action::TimerPauseResume)),
        "another board's keys are not this one's"
    );
    step(&mut app, Action::CaptureOpen);
    assert!(
        matches!(press(&mut app, KeyCode::Char('b')), Some(Action::CaptureKey(_))),
        "the overlay comes first"
    );
    step(&mut app, Action::CaptureClose);
    step(&mut app, Action::Goto(ScreenKind::Timer));
    assert!(
        matches!(press(&mut app, KeyCode::Char('b')), Some(Action::TimerBreak)),
        "a board that opens takes nothing yet"
    );
}

#[test]
fn command_timer_stop_on_unbound_timer_warns() {
    let mut app = app(Some("alice@example.com"));
    let mut t = running_timer(0);
    t.bound = false;
    t.label = None;
    app.timer = Some(t);
    let effects = submit(&mut app, "timer stop");
    assert!(effects.is_empty(), "no call");
    let n = app.notification.expect("a warning is shown");
    assert_eq!(n.level, Level::Warning);
    assert!(n.text.contains("bind"), "{}", n.text);
}

#[test]
fn the_other_timer_verbs_go_through_on_an_unbound_timer() {
    let mut app = app(Some("alice@example.com"));
    let mut t = running_timer(0);
    t.bound = false;
    app.timer = Some(t);
    assert!(matches!(
        submit(&mut app, "timer pause").as_slice(),
        [Effect::Call(Request::PaletteTimer(TimerVerb::Pause))]
    ));
    app.timer = Some(running_timer(0));
    assert!(matches!(
        submit(&mut app, "timer stop").as_slice(),
        [Effect::Call(Request::PaletteTimer(TimerVerb::Stop))]
    ));
    assert!(matches!(
        log_dir_found(Ok("/var/log".into())),
        Action::Notify { level: Level::Info, text } if text == "logs: /var/log"
    ));
    assert!(matches!(
        log_dir_found(Err("none".into())),
        Action::Notify { level: Level::Error, text } if text == "log dir error: none"
    ));
}

#[test]
fn the_timer_and_the_week_are_handed_on() {
    let mut app = app(None);
    let effects = step(&mut app, Action::Goto(ScreenKind::Timer));
    assert!(matches!(effects.as_slice(), [Effect::EnterShell(ScreenKind::Timer)]));
    let effects = step(&mut app, Action::TimerSave);
    assert!(matches!(effects.as_slice(), [Effect::Shell(Action::TimerSave)]));
    let effects = step(&mut app, Action::Goto(ScreenKind::Week));
    assert!(matches!(effects.as_slice(), [Effect::EnterShell(ScreenKind::Week)]));
    let effects = step(&mut app, Action::WeekStep(1));
    assert!(matches!(effects.as_slice(), [Effect::Shell(Action::WeekStep(1))]));
}

#[test]
fn every_kind_of_screen_opens_as_itself() {
    for kind in [
        ScreenKind::Login,
        ScreenKind::Home,
        ScreenKind::Books,
        ScreenKind::BookDetail,
        ScreenKind::ActivityNew,
        ScreenKind::Activities,
        ScreenKind::Progress,
        ScreenKind::Timer,
        ScreenKind::Notes,
        ScreenKind::Review,
        ScreenKind::Settings,
        ScreenKind::Audit,
        ScreenKind::Week,
        ScreenKind::Inbox,
        ScreenKind::Connect,
        ScreenKind::Queue,
    ] {
        assert_eq!(Screen::new(kind).kind(), kind);
    }
    assert_eq!(Screen::new(ScreenKind::Audit).title(), "Progress · Segment audit");
}

// ---- the command line ----

fn submit(app: &mut App, line: &str) -> Vec<Effect> {
    app.command_buffer = Some(line.into());
    step(app, Action::CommandSubmit)
}

#[test]
fn command_nav_verb_dispatches_goto() {
    let mut app = app(Some("alice@example.com"));
    let sent = submit(&mut app, "books");
    assert!(sends(&sent, |a| matches!(a, Action::Goto(ScreenKind::Books))));
    assert!(app.command_buffer.is_none(), "buffer is consumed on submit");
}

#[test]
fn command_week_verb_lands_on_the_week_board() {
    let mut app = app(Some("alice@example.com"));
    submit(&mut app, "week");
    step(&mut app, Action::Goto(ScreenKind::Week));
    assert_eq!(app.current.kind(), ScreenKind::Week);
    assert_eq!(app.current.title(), "Week");
}

#[test]
fn command_prefix_resolves_to_activities() {
    let mut app = app(Some("alice@example.com"));
    let sent = submit(&mut app, "act");
    assert!(sends(&sent, |a| matches!(a, Action::Goto(ScreenKind::Activities))));
}

#[test]
fn command_note_prefills_the_capture_overlay() {
    let mut app = app(Some("alice@example.com"));
    let sent = submit(&mut app, "note closures are objects");
    assert!(sends(
        &sent,
        |a| matches!(a, Action::CaptureOpenText(t) if t == "closures are objects")
    ));
    for e in sent {
        if let Effect::Send(a) = e {
            step(&mut app, a);
        }
    }
    assert_eq!(app.capture.unwrap().body(), "closures are objects");
}

#[test]
fn command_log_opens_the_activity_capture_form() {
    let mut app = app(Some("alice@example.com"));
    let sent = submit(&mut app, "log");
    assert!(sends(&sent, |a| matches!(a, Action::Goto(ScreenKind::ActivityNew))));
    step(&mut app, Action::Goto(ScreenKind::ActivityNew));
    assert_eq!(app.current.kind(), ScreenKind::ActivityNew);
}

#[test]
fn command_target_lands_on_progress_and_opens_declare() {
    let mut app = app(Some("alice@example.com"));
    let sent = submit(&mut app, "target");
    assert!(matches!(
        sent.as_slice(),
        [
            Effect::Send(Action::Goto(ScreenKind::Progress)),
            Effect::Send(Action::ProgressDeclareBegin)
        ]
    ));
    step(&mut app, Action::Goto(ScreenKind::Progress));
    let pace = Pace {
        week: "2026-W29".into(),
        monday: jiff::civil::date(2026, 7, 13),
        elapsed_days: 4,
        now_percent: 57,
        targets: vec![],
        behind_total: "0.0".into(),
        kind_mix: vec![],
        thin: false,
    };
    step(&mut app, Action::ProgressLoaded(Box::new(pace)));
    step(&mut app, Action::ProgressDeclareBegin);
    match &app.current {
        Screen::Progress(s) => {
            let (title, _) = s.overlay().expect("the declare overlay should be open");
            assert_eq!(title, "declare a target");
        }
        other => panic!("expected progress, got {other:?}"),
    }
}

#[test]
fn command_t_prefix_still_resolves_to_the_timer() {
    let mut app = app(Some("alice@example.com"));
    let sent = submit(&mut app, "t");
    assert!(sends(&sent, |a| matches!(a, Action::Goto(ScreenKind::Timer))));
}

#[test]
fn command_unknown_verb_notifies_helpfully() {
    let mut app = app(Some("alice@example.com"));
    submit(&mut app, "wobble");
    let n = app.notification.expect("a warning is shown");
    assert_eq!(n.level, Level::Warning);
    assert!(n.text.contains("unknown"), "{}", n.text);
    assert!(n.text.contains(":help"), "{}", n.text);
}

#[test]
fn command_help_lists_the_table() {
    let mut app = app(Some("alice@example.com"));
    submit(&mut app, "help");
    let n = app.notification.expect("help is shown");
    assert_eq!(n.level, Level::Info);
    assert!(n.text.contains("home"), "{}", n.text);
    assert!(n.text.contains("timer"), "{}", n.text);
}

#[test]
fn every_fault_of_a_command_line_is_worded() {
    let said = |line: &str| {
        let mut app = app(None);
        submit(&mut app, line);
        app.notification.map(|n| n.text).unwrap_or_default()
    };
    assert_eq!(said("wobble"), "unknown :wobble — try :help");
    assert_eq!(said("qu"), "ambiguous — queue · quit");
    assert_eq!(said("timer wobble"), ":timer wobble? — try start|pause|resume|stop");
    assert_eq!(said("timer s"), ":timer start or stop?");
    assert_eq!(said("logout"), "run `engineer logout` from the shell");
    assert_eq!(said(""), "");
    let mut app = app(None);
    assert!(matches!(
        submit(&mut app, "timer stop").as_slice(),
        [Effect::Call(Request::PaletteTimer(TimerVerb::Stop))]
    ));
    assert!(matches!(submit(&mut app, "logs").as_slice(), [Effect::Call(Request::ShowLogDir)]));
    submit(&mut app, "q");
    assert!(app.should_quit);
}

// ---- the keymap ----

fn press(app: &mut App, code: KeyCode) -> Option<Action> {
    translate(app, Event::Key { key: KeyEvent::plain(code), press: true })
}

#[test]
fn q_quits_everywhere_but_the_queue_inspector_where_it_steps_home() {
    let mut home = App::on(ScreenKind::Home, NOW);
    assert!(matches!(press(&mut home, KeyCode::Char('q')), Some(Action::Quit)));
    let mut queue = App::on(ScreenKind::Queue, NOW);
    assert!(matches!(
        press(&mut queue, KeyCode::Char('q')),
        Some(Action::Goto(ScreenKind::Home))
    ));
}

#[test]
fn esc_dismisses_a_notification_before_the_screen_sees_it() {
    let mut app = App::on(ScreenKind::Books, NOW);
    app.notification = Some(Notification::new(Level::Info, "saved".into(), NOW));
    assert!(matches!(press(&mut app, KeyCode::Esc), Some(Action::DismissNotification)));
}

#[test]
fn editing_outside_disarms_the_discard() {
    let mut app = app(Some("alice@example.com"));
    app.capture = Some(QuickCapture::with_text("x"));
    step(&mut app, Action::CaptureCancel);
    assert!(app.capture.as_ref().unwrap().confirm_discard, "armed");
    step(&mut app, Action::CaptureEditExternal);
    assert!(!app.capture.as_ref().unwrap().confirm_discard, "disarmed");
    let effects = step(&mut app, Action::CaptureCancel);
    assert!(
        !effects.iter().any(|e| matches!(e, Effect::Send(Action::CaptureClose))),
        "the first Esc again only warns"
    );
    assert_eq!(app.notification.as_ref().unwrap().level, Level::Warning);
}

#[test]
fn the_capture_overlay_owns_every_key_while_open() {
    let mut app = App::on(ScreenKind::Home, NOW);
    app.capture = Some(QuickCapture::new());
    assert!(!matches!(press(&mut app, KeyCode::Char('q')), Some(Action::Quit)));
    press(&mut app, KeyCode::Char('g'));
    assert!(!app.goto_pending, "the global prefix never arms under the overlay");
}

#[test]
fn r_on_the_queue_inspector_retries_now_instead_of_rereading() {
    assert!(matches!(refresh_for(ScreenKind::Queue), Action::QueueRetry));
    assert!(matches!(refresh_for(ScreenKind::Home), Action::RefreshHome));
}

#[test]
fn g_prefix_navigates_to_the_ambient_surfaces() {
    let mut app = app(None);
    assert!(press(&mut app, KeyCode::Char('g')).is_none());
    assert!(app.goto_pending);
    assert!(matches!(
        press(&mut app, KeyCode::Char('t')),
        Some(Action::Goto(ScreenKind::Timer))
    ));
    assert!(!app.goto_pending);
    press(&mut app, KeyCode::Char('g'));
    assert!(matches!(
        press(&mut app, KeyCode::Char('p')),
        Some(Action::Goto(ScreenKind::Progress))
    ));
    press(&mut app, KeyCode::Char('g'));
    assert!(matches!(
        press(&mut app, KeyCode::Char('r')),
        Some(Action::Goto(ScreenKind::Review))
    ));
    press(&mut app, KeyCode::Char('g'));
    assert!(matches!(
        press(&mut app, KeyCode::Char('w')),
        Some(Action::Goto(ScreenKind::Week))
    ));
}

#[test]
fn gg_tops_a_list_and_is_inert_where_there_is_none() {
    let mut app = app(None);
    app.current = Screen::new(ScreenKind::Books);
    press(&mut app, KeyCode::Char('g'));
    assert!(matches!(press(&mut app, KeyCode::Char('g')), Some(Action::BooksJumpStart)));
    app.current = Screen::new(ScreenKind::Home);
    press(&mut app, KeyCode::Char('g'));
    assert!(press(&mut app, KeyCode::Char('g')).is_none());
}

#[test]
fn g_prefix_then_unmapped_key_clears_without_acting() {
    let mut app = app(None);
    press(&mut app, KeyCode::Char('g'));
    assert!(app.goto_pending);
    assert!(press(&mut app, KeyCode::Char('z')).is_none());
    assert!(!app.goto_pending);
}

#[test]
fn the_leader_reaches_the_forms() {
    let mut app = app(None);
    assert!(press(&mut app, KeyCode::Char(' ')).is_none());
    assert!(app.leader_pending);
    match app.hints() {
        Footer::Keys(keys) => assert!(keys.contains(&("c", "+note"))),
        other => panic!("expected keys, got {other:?}"),
    }
    assert!(matches!(press(&mut app, KeyCode::Char('c')), Some(Action::CaptureOpen)));
    assert!(!app.leader_pending);
}

#[test]
fn the_command_line_takes_every_key_and_completes() {
    let mut app = app(None);
    assert!(matches!(press(&mut app, KeyCode::Char(':')), Some(Action::CommandBegin)));
    for c in "boq".chars() {
        assert!(matches!(press(&mut app, KeyCode::Char(c)), Some(Action::CommandInput)));
    }
    assert!(matches!(press(&mut app, KeyCode::Backspace), Some(Action::CommandBackspace)));
    press(&mut app, KeyCode::Tab);
    assert_eq!(app.command_buffer.as_deref(), Some("books"));
    match app.hints() {
        Footer::Text(line) => assert!(line.text().starts_with(":books█")),
        other => panic!("expected the line, got {other:?}"),
    }
    assert!(matches!(press(&mut app, KeyCode::Enter), Some(Action::CommandSubmit)));
    assert!(matches!(press(&mut app, KeyCode::Esc), Some(Action::CommandCancel)));
    assert!(app.command_buffer.is_none());
}

#[test]
fn typing_in_a_form_is_text_until_esc() {
    let mut app = App::on(ScreenKind::ActivityNew, NOW);
    step(&mut app, Action::ActivityEnterInsert);
    assert!(matches!(press(&mut app, KeyCode::Char('q')), Some(Action::ActivityKey(_))));
    assert!(matches!(press(&mut app, KeyCode::Esc), Some(Action::ActivityLeaveInsert)));
}

#[test]
fn a_key_let_go_means_nothing() {
    let mut app = app(None);
    let up = Event::Key { key: KeyEvent::plain(KeyCode::Char('q')), press: false };
    assert!(translate(&mut app, up).is_none());
}

#[test]
fn control_moves_the_shelf_by_half_a_page() {
    let mut app = App::on(ScreenKind::Books, NOW);
    let ctrl = |c| Event::Key {
        key: KeyEvent::new(KeyCode::Char(c), Modifiers::control()),
        press: true,
    };
    assert!(matches!(translate(&mut app, ctrl('d')), Some(Action::BooksMove(10))));
    assert!(matches!(translate(&mut app, ctrl('u')), Some(Action::BooksMove(-10))));
    assert!(press(&mut app, KeyCode::Char('d')).is_none());
}

#[test]
fn a_screen_prompt_takes_its_keys_before_the_global_map() {
    let mut app = App::on(ScreenKind::Books, NOW);
    assert!(matches!(press(&mut app, KeyCode::Char('/')), Some(Action::Notify { .. })));
    assert!(matches!(
        press(&mut app, KeyCode::Char('q')),
        Some(Action::BooksSearchInput('q'))
    ));
}
