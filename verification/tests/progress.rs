//! The progress screen and the segment audit.

use engineer::action::{Action, Effect, Outcome, Request};
use engineer::dates::{iso_week_from, week_param};
use engineer::keys::{KeyCode, KeyEvent};
use engineer::line::{Area, Line, Tone};
use engineer::model::{
    AuditAcknowledged, AuditRead, AuditSegment, DeclaredTarget, Domain, Fault, FaultKind,
    KindHours, Pace, PaceState, Reading, TargetScope, TimerSettings, WriteReply,
};
use engineer::notify::Level;
use engineer::screens::audit::{
    acknowledgement, audit_read, deleted, knobs_read, trimmed, Audit, MAX_FENCE_HOURS,
};
use engineer::screens::progress::{
    behind_footer, domains_read, fold_line, meter_line, overlay_area, pace_read, target_adjusted,
    target_declared, target_retired, week_header, Declare, Facet, Progress,
};
use engineer::screens::ScreenKind;

fn hours(minutes: i64) -> String {
    format!("{:.1}", minutes as f64 / 60.0)
}

fn signed_hours(minutes: i64) -> String {
    format!("{:+.1}", minutes as f64 / 60.0)
}

fn sample() -> Pace {
    Pace {
        week: "2026-W27".into(),
        monday: jiff::civil::date(2026, 6, 29),
        elapsed_days: 4,
        now_percent: (0.5714f64 * 100.0).round() as i64,
        targets: vec![
            Reading {
                id: 42,
                scope: "Distributed Systems".into(),
                hours: "6".into(),
                state: PaceState::Behind,
                actual: hours(132),
                delta: signed_hours(-125),
                filled: 0,
                expected: 0,
            },
            Reading {
                id: 51,
                scope: "coding".into(),
                hours: "2".into(),
                state: PaceState::Met,
                actual: hours(120),
                delta: signed_hours(34),
                filled: 0,
                expected: 0,
            },
        ],
        behind_total: hours(125),
        kind_mix: vec![KindHours { kind: "coding".into(), hours: hours(120) }],
        thin: false,
    }
}

fn loaded() -> Progress {
    let mut p = Progress::default();
    p.data = Some(sample());
    p
}

fn bar() -> Line {
    Line::of(Tone::Warn, "████······".into())
}

fn panel(p: &Progress) -> String {
    let n = p.data.as_ref().map_or(0, |d| d.targets.len());
    let bars: Vec<Line> = (0..n).map(|_| bar()).collect();
    p.panel_lines(&bars).iter().map(|l| l.text()).collect::<Vec<_>>().join("\n")
}

fn key(code: KeyCode) -> KeyEvent {
    KeyEvent::plain(code)
}

fn step(p: &mut Progress, action: Action) -> Outcome {
    p.handle(action, None)
}

fn bits(hours: f64) -> Option<u64> {
    Some(hours.to_bits())
}

#[test]
fn week_header_shows_id_weekday_and_now_pct() {
    let text = week_header(&sample()).text();
    assert!(text.contains("2026-W27"), "{text}");
    assert!(text.contains("fri"), "{text}");
    assert!(text.contains("day 5 of 7"), "{text}");
    assert!(text.contains("now = 57%"), "{text}");
    let mut closed = sample();
    closed.elapsed_days = 9;
    assert_eq!(week_header(&closed).text(), "2026-W27 · sun · day 7 of 7 · now = 57%");
}

#[test]
fn behind_footer_sums_gaps_and_names_worst() {
    let text = behind_footer(&sample()).text();
    assert!(text.contains("behind 2.1h total"), "{text}");
    assert!(text.contains("distributed systems"), "{text}");
}

#[test]
fn behind_footer_quiet_when_all_on_pace() {
    let mut data = sample();
    data.targets.retain(|r| r.state != PaceState::Behind);
    assert!(behind_footer(&data).text().contains("on pace"));
}

#[test]
fn meter_line_renders_nums_and_state_word() {
    let data = sample();
    let behind = meter_line(&data.targets[0], 18, false, &bar()).text();
    assert!(behind.contains("distributed sys"), "{behind}");
    assert!(behind.contains("2.2/6h"), "{behind}");
    assert!(behind.contains("behind"), "{behind}");
    let met = meter_line(&data.targets[1], 18, false, &bar()).text();
    assert!(met.contains("2.0/2h"), "{met}");
    assert!(met.contains("met"), "{met}");
}

#[test]
fn meter_line_marks_the_selected_row() {
    let data = sample();
    assert!(meter_line(&data.targets[0], 18, true, &bar()).text().starts_with('▌'));
    assert!(!meter_line(&data.targets[0], 18, false, &bar()).text().starts_with('▌'));
}

#[test]
fn fold_cycles_kind_domain_intent_and_wraps() {
    let mut p = loaded();
    assert_eq!(p.fold, Facet::Kind, "the fold opens on kind");
    step(&mut p, Action::ProgressFoldCycle);
    assert_eq!(p.fold, Facet::Domain);
    step(&mut p, Action::ProgressFoldCycle);
    assert_eq!(p.fold, Facet::Intent);
    step(&mut p, Action::ProgressFoldCycle);
    assert_eq!(p.fold, Facet::Kind, "the fold wraps back to kind");
}

#[test]
fn fold_line_shows_kind_data_and_absent_domain_intent() {
    let data = sample();
    let kind = fold_line(&data, Facet::Kind).text();
    assert!(kind.contains("where it went · by kind"), "{kind}");
    assert!(kind.contains("coding 2.0h"), "{kind}");
    let domain = fold_line(&data, Facet::Domain).text();
    assert!(domain.contains("by domain"), "{domain}");
    assert!(domain.contains("doesn't roll up by domain"), "{domain}");
    let intent = fold_line(&data, Facet::Intent).text();
    assert!(intent.contains("by intent"), "{intent}");
    assert!(intent.contains("doesn't roll up by intent"), "{intent}");
}

#[test]
fn fold_kind_facet_is_calm_when_nothing_logged() {
    let mut data = sample();
    data.kind_mix.clear();
    let text = fold_line(&data, Facet::Kind).text();
    assert!(text.contains("nothing logged yet"), "{text}");
}

#[test]
fn fold_renders_on_screen_and_the_toggle_is_advertised() {
    let p = loaded();
    let text = panel(&p);
    assert!(text.contains("where it went"), "the fold renders: {text}");
    match p.hints() {
        engineer::line::Footer::Keys(keys) => {
            assert!(keys.iter().any(|(_, what)| *what == "where it went"));
        }
        other => panic!("expected keys, got {other:?}"),
    }
}

#[test]
fn select_move_clamps_within_targets() {
    let mut p = loaded();
    step(&mut p, Action::ProgressSelectMove(1));
    assert_eq!(p.selected, 1);
    step(&mut p, Action::ProgressSelectMove(5));
    assert_eq!(p.selected, 1, "clamped at the last row");
    step(&mut p, Action::ProgressSelectMove(-9));
    assert_eq!(p.selected, 0, "clamped at the first row");
}

#[test]
fn adjust_prefills_current_hours_and_edits_buffer() {
    let mut p = loaded();
    step(&mut p, Action::ProgressAdjustBegin);
    assert_eq!(p.edit.as_deref(), Some("6"), "prefilled from the current 6h");
    step(&mut p, Action::ProgressAdjustBackspace);
    step(&mut p, Action::ProgressAdjustInput('8'));
    assert_eq!(p.edit.as_deref(), Some("8"));
    assert!(panel(&p).contains("  adjust distributed systems → 8█ h/wk  (⏎ save · Esc cancel)"));
    step(&mut p, Action::ProgressAdjustCancel);
    assert!(p.edit.is_none());
}

#[test]
fn only_positive_hours_adjust_a_target() {
    let mut p = loaded();
    step(&mut p, Action::ProgressAdjustBegin);
    assert_eq!(p.hours_typed(&Action::ProgressAdjustSubmit).as_deref(), Some("6"));
    let out = p.handle(Action::ProgressAdjustSubmit, bits(6.0));
    match out.effects.as_slice() {
        [Effect::Call(Request::AdjustTarget { id: 42, hours })] => {
            assert_eq!(f64::from_bits(*hours), 6.0);
        }
        other => panic!("expected one write, got {other:?}"),
    }
    assert!(p.edit.is_none());
    for typed in [None, bits(0.0), bits(-1.0), bits(f64::NAN)] {
        step(&mut p, Action::ProgressAdjustBegin);
        let out = p.handle(Action::ProgressAdjustSubmit, typed);
        assert!(out.effects.is_empty());
        assert_eq!(out.note.unwrap().1, "enter a positive number of hours");
    }
    step(&mut p, Action::ProgressAdjustBegin);
    let out = p.handle(Action::ProgressAdjustSubmit, bits(f64::INFINITY));
    assert_eq!(out.effects.len(), 1, "infinity is above zero");
}

#[test]
fn retire_arms_then_disarms_on_move() {
    let mut p = loaded();
    let out = step(&mut p, Action::ProgressRetire);
    assert!(out.note.is_some(), "first press asks for confirmation");
    assert_eq!(p.retire_armed, Some(42));
    assert!(panel(&p).contains("retire this target? press x again"));
    step(&mut p, Action::ProgressSelectMove(1));
    assert_eq!(p.retire_armed, None, "moving the cursor disarms retire");
    step(&mut p, Action::ProgressRetire);
    let out = step(&mut p, Action::ProgressRetire);
    assert!(matches!(
        out.effects.as_slice(),
        [Effect::Call(Request::RetireTarget { id: 51 })]
    ));
}

#[test]
fn declare_begin_loads_then_ready_opens_the_scope_picker() {
    let mut p = Progress::default();
    let out = step(&mut p, Action::ProgressDeclareBegin);
    assert!(matches!(out.effects.as_slice(), [Effect::Call(Request::ListDomains)]));
    assert!(matches!(p.declare, Some(Declare::Loading)));
    step(
        &mut p,
        Action::ProgressDeclareReady(vec![Domain { id: 7, name: "Systems".into() }]),
    );
    match &p.declare {
        Some(Declare::Scope(picker)) => {
            assert_eq!(picker.items.len(), 12);
            assert_eq!(picker.items[0].label, "domain · Systems");
            assert_eq!(picker.items[1].label, "kind · deep_work");
            assert_eq!(picker.items[11].label, "intent · study");
        }
        other => panic!("expected the scope picker, got {other:?}"),
    }
}

#[test]
fn declare_scope_pick_moves_to_hours_then_esc_steps_back() {
    let mut p = Progress::default();
    p.declare = Some(Declare::Scope(Progress::scope_picker(&vec![Domain {
        id: 7,
        name: "Systems".into(),
    }])));
    for c in "sys".chars() {
        step(&mut p, Action::ProgressDeclareKey(key(KeyCode::Char(c))));
    }
    step(&mut p, Action::ProgressDeclareKey(key(KeyCode::Enter)));
    match &p.declare {
        Some(Declare::Hours { scope, label, buf, .. }) => {
            assert!(matches!(scope, TargetScope::Domain(7)));
            assert!(label.contains("Systems"), "{label}");
            assert!(buf.is_empty());
        }
        other => panic!("expected Hours, got {:?}", other.is_some()),
    }
    step(&mut p, Action::ProgressDeclareKey(key(KeyCode::Char('6'))));
    assert!(matches!(&p.declare, Some(Declare::Hours { buf, .. }) if buf == "6"));
    step(&mut p, Action::ProgressDeclareKey(key(KeyCode::Esc)));
    assert!(
        matches!(&p.declare, Some(Declare::Scope(picker))
            if picker.selected_label().is_some_and(|l| l.contains("Systems"))),
        "Esc from hours returns to the picker with the query kept"
    );
    step(&mut p, Action::ProgressDeclareKey(key(KeyCode::Esc)));
    assert!(p.declare.is_none());
}

#[test]
fn empty_state_teaches_n_first_then_the_headless_verb() {
    let mut data = sample();
    data.targets.clear();
    let mut p = Progress::default();
    p.data = Some(data);
    let text = panel(&p);
    assert!(text.contains("No weekly targets yet."), "{text}");
    assert!(
        text.contains("Press") && text.contains("declare a weekly intent"),
        "the keystroke is taught first: {text}"
    );
    assert!(
        text.contains("engineer target declare"),
        "the headless verb is taught second: {text}"
    );
}

#[test]
fn offline_declare_enqueues_and_renders_the_provisional_line() {
    let mut p = loaded();
    p.declare = Some(Declare::Hours {
        scope: TargetScope::Kind("coding".into()),
        label: "kind · coding".into(),
        buf: String::new(),
        picker: Progress::scope_picker(&vec![]),
    });
    let enter = Action::ProgressDeclareKey(key(KeyCode::Enter));
    let out = p.handle(enter, None);
    assert!(out.effects.is_empty(), "no hours yet: the prompt stays open");
    assert!(p.declare.is_some());
    step(&mut p, Action::ProgressDeclareKey(key(KeyCode::Char('4'))));
    let enter = Action::ProgressDeclareKey(key(KeyCode::Enter));
    assert_eq!(p.hours_typed(&enter).as_deref(), Some("4"));
    let out = p.handle(enter, bits(4.0));
    assert!(p.declare.is_none(), "the flow closed on submit");
    let name = match out.effects.into_iter().next() {
        Some(Effect::Call(Request::DeclareTarget { scope, hours, scope_name })) => {
            assert!(matches!(scope, TargetScope::Kind(k) if k == "coding"));
            assert!((f64::from_bits(hours) - 4.0).abs() < 1e-9);
            scope_name
        }
        other => panic!("expected the declare, got {other:?}"),
    };
    assert_eq!(name, "coding", "the scope alone, in lower case");
    let answer = DeclaredTarget { scope: "coding".into(), hours: "4".into() };
    let sent = target_declared(WriteReply::Provisional(answer), name, "4".into());
    assert!(matches!(&sent[0], Action::ProgressDeclareQueued(d) if d == "coding · 4h/wk"));
    assert!(matches!(&sent[1], Action::Notify { level: Level::Info, .. }));
    for a in sent {
        step(&mut p, a);
    }
    let text = panel(&p);
    assert!(text.contains("◔"), "the queued marker renders: {text}");
    assert!(text.contains("coding · 4h/wk"), "{text}");
    step(&mut p, Action::ProgressLoaded(Box::new(sample())));
    assert!(p.provisional.is_empty(), "a fresh reading supersedes it");
}

#[test]
fn intercept_only_captures_keys_while_editing() {
    let mut p = Progress::default();
    assert!(p.intercept_key(key(KeyCode::Char('8'))).is_none());
    p.edit = Some(String::new());
    assert!(matches!(
        p.intercept_key(key(KeyCode::Char('8'))),
        Some(Action::ProgressAdjustInput('8'))
    ));
    assert!(matches!(
        p.intercept_key(key(KeyCode::Char('.'))),
        Some(Action::ProgressAdjustInput('.'))
    ));
    assert!(matches!(
        p.intercept_key(key(KeyCode::Enter)),
        Some(Action::ProgressAdjustSubmit)
    ));
    assert!(matches!(
        p.intercept_key(key(KeyCode::Esc)),
        Some(Action::ProgressAdjustCancel)
    ));
    assert!(p.intercept_key(key(KeyCode::Char('q'))).is_none());
}

#[test]
fn week_param_none_for_current_week() {
    assert!(week_param(0).is_none());
    assert!(week_param(-1).unwrap().contains("-W"));
}

#[test]
fn the_week_of_a_day_steps_by_seven() {
    let day = jiff::civil::date(2026, 1, 1);
    assert_eq!(iso_week_from(day, 0), "2026-W01");
    assert_eq!(iso_week_from(day, -1), "2025-W52");
    assert_eq!(iso_week_from(day, 53), "2027-W01");
    assert_eq!(iso_week_from(jiff::civil::date(9999, 12, 31), 4), "9999-W52", "the calendar ends");
}

#[test]
fn weeks_step_there_and_back() {
    let mut p = loaded();
    p.provisional.push("x".into());
    let out = step(&mut p, Action::ProgressWeekStep(-2));
    assert!(matches!(
        out.effects.as_slice(),
        [Effect::Call(Request::LoadProgress { offset: -2 })]
    ));
    assert!(p.provisional.is_empty());
    step(&mut p, Action::ProgressWeekStep(2));
    assert_eq!(p.offset, 0);
    assert!(step(&mut p, Action::ProgressWeekReset).effects.is_empty(), "already there");
    assert!(!p.can_take(&Action::ProgressWeekStep(i32::MAX)));
    assert!(p.can_take(&Action::ProgressWeekStep(1)));
}

#[test]
fn a_closed_target_version_is_read_again_not_reported() {
    let closed = Fault {
        kind: FaultKind::Problem {
            status: 409,
            title: "Conflict".into(),
            detail: String::new(),
            code: Some("target-version-closed".into()),
        },
        shown: "409".into(),
    };
    match target_adjusted(WriteReply::Failed(closed)).as_slice() {
        [Action::Notify { level: Level::Warning, text }, Action::RefreshProgress] => {
            assert!(text.contains("moved on"), "{text}");
        }
        other => panic!("expected a soft re-read, got {other:?}"),
    }
    let other = Fault { kind: FaultKind::Other, shown: "boom".into() };
    assert!(matches!(
        target_retired(WriteReply::Failed(other)).as_slice(),
        [Action::Notify { level: Level::Error, text }] if text == "retire failed: boom"
    ));
    let done = DeclaredTarget { scope: "systems".into(), hours: "2.5".into() };
    assert!(matches!(
        target_declared(WriteReply::Confirmed(done), "x".into(), "y".into()).as_slice(),
        [Action::Notify { level: Level::Success, text }, Action::RefreshProgress]
            if text == "declared systems · 2.5h/wk"
    ));
}

#[test]
fn failed_progress_reads_say_so_and_domains_fall_back() {
    let fault = || Fault { kind: FaultKind::Other, shown: "boom".into() };
    let mut p = Progress::default();
    for a in pace_read(Err(fault())) {
        if !matches!(a, Action::Notify { .. }) {
            step(&mut p, a);
        }
    }
    assert_eq!(panel(&p), "could not load progress: boom");
    assert!(matches!(
        domains_read(Err(fault())),
        Action::ProgressDeclareReady(d) if d.is_empty()
    ));
}

#[test]
fn the_flow_box_sits_below_the_middle() {
    let area = Area { x: 0, y: 0, width: 100, height: 40 };
    assert_eq!(overlay_area(area), Area { x: 18, y: 20, width: 64, height: 3 });
    let narrow = Area { x: 0, y: 0, width: 10, height: 4 };
    assert_eq!(overlay_area(narrow), Area { x: 0, y: 2, width: 24, height: 3 });
}

// ---- the audit ----

fn segment(id: i64, activity_id: i64, title: &str, shown: &str, flags: &[&str]) -> AuditSegment {
    AuditSegment {
        id,
        activity_id,
        activity_title: Some(title.into()),
        formatted_duration: Some(shown.into()),
        flags: flags.iter().map(|f| f.to_string()).collect(),
    }
}

fn audit_sample() -> AuditRead {
    AuditRead {
        audit_count: 3,
        segments: vec![
            segment(1, 9, "Untitled timer", "1h05m", &["missing_kind", "missing_anchor"]),
            segment(2, 9, "Read DDIA ch.7", "8h05m", &["too_long"]),
            segment(3, 12, "Consensus · Raft", "4s", &["near_zero"]),
        ],
    }
}

fn audit_loaded() -> Audit {
    let mut s = Audit::default();
    s.handle(Action::AuditLoaded(Box::new(audit_sample())));
    s
}

fn audit_panel(s: &Audit) -> String {
    s.lines().iter().map(|l| l.text()).collect::<Vec<_>>().join("\n")
}

fn level(out: &Outcome) -> Option<Level> {
    out.note.as_ref().map(|(l, _)| *l)
}

fn knobs() -> TimerSettings {
    TimerSettings {
        timer_mode: "stopwatch".into(),
        focus_work_minutes: 50,
        focus_short_break_minutes: 10,
        focus_long_break_minutes: 20,
        focus_long_break_every: 4,
        idle_guard_enabled: true,
        idle_threshold_minutes: 15,
        idle_default_reclaim: "trim".into(),
        audit_long_hours: 6,
        audit_short_seconds: 60,
        audit_badge_enabled: true,
        overrun_ping_enabled: true,
    }
}

#[test]
fn a_row_that_keeps_milder_flags_moves_down() {
    let mut s = Audit::default();
    s.handle(Action::AuditLoaded(Box::new(AuditRead {
        audit_count: 2,
        segments: vec![
            segment(2, 9, "Read DDIA ch.7", "8h05m", &["too_long", "missing_kind"]),
            segment(3, 12, "Consensus · Raft", "4s", &["near_zero"]),
        ],
    })));
    assert_eq!(s.rows.iter().map(|r| r.id).collect::<Vec<_>>(), [2, 3]);
    let out = s.handle(Action::AuditAcknowledged(Box::new(AuditAcknowledged {
        segment_id: 2,
        flags: vec!["missing_kind".into()],
        audit_count: 2,
    })));
    assert_eq!(level(&out), Some(Level::Success));
    assert_eq!(s.rows.iter().map(|r| r.id).collect::<Vec<_>>(), [3, 2]);
}

#[test]
fn loaded_rows_sort_into_display_groups() {
    let s = audit_loaded();
    assert_eq!(s.audit_count, 3);
    assert_eq!(s.rows[0].id, 2);
    assert_eq!(s.rows[1].id, 3);
    assert_eq!(s.rows[2].id, 1);
    assert_eq!(s.panel_title(), "Segment audit · 3 flagged");
    let text = audit_panel(&s);
    assert!(text.starts_with("IMPLAUSIBLY LONG 1   over ~0h"), "{text}");
    assert!(text.contains("ZERO / NEAR-ZERO 1   under your short fence · d delete"), "{text}");
    assert!(text.contains("Untitled timer   1h05m  missing kind · missing anchor"), "{text}");
}

#[test]
fn rows_of_one_group_keep_the_order_they_came_in() {
    let mut s = Audit::default();
    s.handle(Action::AuditLoaded(Box::new(AuditRead {
        audit_count: 4,
        segments: vec![
            segment(1, 1, "a", "", &["near_zero"]),
            segment(2, 1, "b", "", &["missing_kind", "too_long"]),
            segment(3, 1, "c", "", &["near_zero"]),
            segment(4, 1, "d", "", &["too_long"]),
        ],
    })));
    let ids: Vec<i64> = s.rows.iter().map(|r| r.id).collect();
    assert_eq!(ids, [2, 4, 1, 3]);
}

#[test]
fn acknowledge_clears_clean_rows_and_keeps_dirty_ones() {
    let mut s = audit_loaded();
    let out = s.handle(Action::AuditAcknowledged(Box::new(AuditAcknowledged {
        segment_id: 2,
        flags: vec![],
        audit_count: 2,
    })));
    assert_eq!(level(&out), Some(Level::Success));
    assert_eq!(s.rows.len(), 2);
    assert_eq!(s.audit_count, 2);
    s.handle(Action::AuditAcknowledged(Box::new(AuditAcknowledged {
        segment_id: 1,
        flags: vec!["missing_kind".into()],
        audit_count: 2,
    })));
    assert!(s.rows.iter().any(|r| r.id == 1 && r.flags == ["missing_kind"]));
}

#[test]
fn delete_asks_twice_on_the_same_row() {
    let mut s = audit_loaded();
    let warn = s.handle(Action::AuditDelete);
    assert_eq!(level(&warn), Some(Level::Warning));
    assert!(s.delete_armed.is_some());
    s.handle(Action::AuditMove(1));
    assert!(s.delete_armed.is_none());
    assert!(s.handle(Action::AuditDelete).note.is_some());
    let out = s.handle(Action::AuditDelete);
    assert!(out.note.is_none());
    assert!(matches!(
        out.effects.as_slice(),
        [Effect::Call(Request::DeleteSegment { activity_id: 12, segment_id: 3 })]
    ));
}

#[test]
fn a_load_failure_records_the_panel_and_renders_it_loud() {
    let mut s = Audit::default();
    s.loading = true;
    s.handle(Action::AuditLoadFailed("identity.test → HTTP 500".into()));
    assert!(s.failure.is_some(), "the failure is recorded");
    assert!(!s.loading, "the spinner is cleared");
    assert!(s.rows.is_empty(), "no rows are invented on failure");
    let text = audit_panel(&s);
    assert!(text.contains("✖ couldn't load the audit"), "loud: {text}");
    assert!(text.contains("HTTP 500"), "names the reason: {text}");
    assert!(!text.contains("clean log"), "never dressed up as a clean log: {text}");
}

#[test]
fn a_clean_log_stays_calm_not_a_failure() {
    let mut s = Audit::default();
    s.handle(Action::AuditLoaded(Box::new(AuditRead { audit_count: 0, segments: vec![] })));
    let text = audit_panel(&s);
    assert!(text.contains("clean log"), "calm success state: {text}");
    assert!(!text.contains("✖"), "no failure glyph on a clean log: {text}");
}

#[test]
fn audit_a_successful_load_clears_a_prior_failure() {
    let mut s = Audit::default();
    s.handle(Action::AuditLoadFailed("boom".into()));
    s.handle(Action::AuditLoaded(Box::new(audit_sample())));
    assert!(s.failure.is_none(), "a good read clears the failure");
    assert!(!audit_panel(&s).contains("✖"));
}

#[test]
fn trim_guards_the_row_kind_and_the_fence() {
    let mut s = audit_loaded();
    let warn = s.handle(Action::AuditTrim);
    assert_eq!(level(&warn), Some(Level::Warning));
    s.handle(Action::SettingsLoaded(Box::new(knobs())));
    let out = s.handle(Action::AuditTrim);
    assert!(out.note.is_none());
    assert!(matches!(
        out.effects.as_slice(),
        [Effect::Call(Request::TrimSegment { activity_id: 9, segment_id: 2, minutes: 360 })]
    ));
    s.handle(Action::AuditMove(1));
    assert!(s.handle(Action::AuditTrim).note.is_some());
}

#[test]
fn a_fence_past_its_range_only_bars_a_row_that_is_too_long() {
    let mut s = audit_loaded();
    s.long_fence_hours = MAX_FENCE_HOURS + 1;
    assert!(!s.can_take(&Action::AuditTrim), "its minutes would not fit");
    s.handle(Action::AuditMove(1));
    assert!(s.can_take(&Action::AuditTrim));
    assert_eq!(level(&s.handle(Action::AuditTrim)), Some(Level::Warning), "no long row");
    s.rows.clear();
    assert!(s.can_take(&Action::AuditTrim));
    assert!(s.handle(Action::AuditTrim).note.is_none());
    let mut s = audit_loaded();
    s.long_fence_hours = MAX_FENCE_HOURS;
    assert!(s.can_take(&Action::AuditTrim));
}

#[test]
fn fixing_routes_to_the_activities() {
    let mut s = audit_loaded();
    let out = s.handle(Action::AuditFix);
    assert!(matches!(
        out.effects.as_slice(),
        [Effect::Send(Action::Goto(ScreenKind::Activities))]
    ));
    assert_eq!(
        out.note.unwrap().1,
        "fix routes to Activities — find \"Read DDIA ch.7\" and press e"
    );
    let out = s.handle(Action::AuditAcknowledge);
    assert!(matches!(
        out.effects.as_slice(),
        [Effect::Call(Request::AcknowledgeSegment(2))]
    ));
}

#[test]
fn finished_audit_calls_answer_in_words() {
    let fault = || Fault { kind: FaultKind::Other, shown: "boom".into() };
    let refused = Fault { kind: FaultKind::Unauthorized, shown: "401".into() };
    assert!(matches!(audit_read(Err((refused, "x".into()))), Action::SessionExpired));
    assert!(matches!(audit_read(Err((fault(), "x".into()))), Action::AuditLoadFailed(r) if r == "x"));
    assert!(knobs_read(Err(fault())).is_none());
    assert!(matches!(knobs_read(Ok(Box::new(knobs()))), Some(Action::SettingsLoaded(_))));
    assert!(matches!(
        acknowledgement(Err(fault())),
        Action::Notify { level: Level::Error, text } if text == "acknowledge failed: boom"
    ));
    assert!(matches!(
        trimmed(Ok(()), 360).as_slice(),
        [Action::AuditReload, Action::Notify { text, .. }]
            if text == "trimmed to 6h — the plausible span"
    ));
    assert!(matches!(
        trimmed(Err(fault()), 360).as_slice(),
        [Action::Notify { level: Level::Error, .. }]
    ));
    assert!(matches!(
        deleted(Ok(())).as_slice(),
        [Action::AuditReload, Action::Notify { level: Level::Success, .. }]
    ));
    assert!(matches!(
        deleted(Err(fault())).as_slice(),
        [Action::Notify { level: Level::Error, text }] if text == "delete failed: boom"
    ));
}
