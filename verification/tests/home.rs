//! Home, the settings and the sign-in, and the small tools below the screens.

use engineer::action::{Action, Effect, Moment, Request};
use engineer::clock::{clock_face, live_elapsed};
use engineer::cursor::{clamp, select_clamp, select_step, step};
use engineer::dates::{left_text, show_padded, stamp};
use engineer::edit::{make_textarea, text_of, LineInput};
use engineer::keys::{KeyCode, KeyEvent};
use engineer::line::{centered_share, Area, Line};
use engineer::model::{
    Behind, Fault, FaultKind, NextChapter, PlanItem, ReadingBook, Task, Timer, TimerSettings,
    Today,
};
use engineer::paging::{page_count, page_status_line};
use engineer::panel::panel_lines;
use engineer::picker::{item, Picker};
use engineer::screens::home::{
    book_line, chapters_text, date_line, drafts_counted, lead_line, no_timer_line, open_day_lines, pace_line,
    plan_row, plan_title, reading_title, state_glyph, stats_line, sums_fit, title_case, today_read,
    Home,
};
use engineer::screens::login::Login;
use engineer::screens::settings::{settings_read, Settings};
use engineer::search::{is_hit, step_match};
use engineer::text::{
    align, last_part, pad_or_truncate, parse_number, show, show_signed, split, split_once, trim,
};

fn flat(lines: &[Line]) -> String {
    lines.iter().map(|l| l.text()).collect::<Vec<_>>().join("\n")
}

fn timer() -> Timer {
    Timer {
        id: None,
        running: true,
        bound: true,
        paused: false,
        idle: None,
        over: false,
        label: Some("Raft leader election".into()),
        elapsed_seconds: 1453,
        planned_minutes: None,
    }
}

fn plan(title: &str, state: &str, kind: &str, size: u32, logged: u32) -> PlanItem {
    PlanItem {
        title: title.into(),
        state: state.into(),
        kind: Some(kind.into()),
        size_minutes: size,
        logged_minutes: logged,
        moved_from: None,
    }
}

fn full() -> Today {
    let mut drills = plan("Spaced-rep drills", "left", "review", 25, 0);
    drills.moved_from = Some("Sun".into());
    Today {
        day: jiff::civil::date(2026, 7, 6),
        weekday: "mon".into(),
        week: "2026-W28".into(),
        timer: timer(),
        pace: None,
        plan: vec![
            plan("Designing Data-Intensive Apps", "done", "read", 45, 45),
            plan("Raft leader election", "live", "build", 120, 34),
            drills,
        ],
        left_count: 2,
        logged_minutes: 95,
        due_count: 4,
        stale_count: 1,
        est_minutes: 25,
        reading: vec![ReadingBook {
            title: "Designing Data-Intensive Applications".into(),
            author: Some("Kleppmann".into()),
            progress: None,
            chapters_total: Some(12),
            next_chapter: Some(NextChapter { number: 7, title: "Transactions".into() }),
        }],
    }
}

/// A day with nothing on it and no timer.
fn bare() -> Today {
    let mut idle = timer();
    idle.running = false;
    idle.bound = false;
    idle.label = None;
    idle.elapsed_seconds = 0;
    Today {
        day: jiff::civil::date(2026, 7, 6),
        weekday: "mon".into(),
        week: "2026-W28".into(),
        timer: idle,
        pace: None,
        plan: vec![],
        left_count: 0,
        logged_minutes: 0,
        due_count: 0,
        stale_count: 0,
        est_minutes: 0,
        reading: vec![],
    }
}

#[test]
fn today_loaded_populates_and_renders_the_enriched_home() {
    let mut home = Home::default();
    home.handle(Action::TodayLoaded(Box::new(full())), 5);
    assert!(home.today.is_some());
    assert_eq!(home.loaded_at, Some(5));
    let today = home.today.as_ref().unwrap();
    assert!(sums_fit(today));
    assert_eq!(
        plan_title(today),
        "Today's plan · 1 done · 1 live · 2 left · 79m logged / 190m planned"
    );
    let lead = lead_line(&today.timer, home.loaded_at, 5).text();
    assert!(lead.contains("Raft leader election"), "lead band: {lead}");
    let row = flat(&plan_row(&today.plan[2]));
    assert!(row.contains("moved from Sun"), "carry-over: {row}");
    let stats = stats_line(today).text();
    assert!(stats.contains("logged today  1h 35m"), "stats: {stats}");
    assert!(stats.contains("4 due"), "review: {stats}");
    assert_eq!(reading_title(today), "Mid-chapter · 1 books");
    let book = book_line(&today.reading[0]).text();
    assert!(book.contains("next ch.7 · Transactions"), "next chapter: {book}");
    let pace = pace_line(today).text();
    assert!(pace.contains("on pace"), "on-pace fold: {pace}");
    assert!(!pace.contains("targets trailing"));
    assert_eq!(date_line(today), "Mon · Jul 6 · 2026-W28");
}

#[test]
fn behind_pace_folds_to_the_worst_target_chip() {
    let mut today = full();
    today.timer.label = Some("Raft".into());
    today.plan.clear();
    today.reading.clear();
    today.pace = Some(Behind {
        behind_count: 2,
        scope_name: "systems".into(),
        hours: format!("{:.1}", 108.0 / 60.0),
    });
    let mut home = Home::default();
    home.handle(Action::TodayLoaded(Box::new(today)), 0);
    let text = pace_line(home.today.as_ref().unwrap()).text();
    assert!(text.contains("systems"), "scope: {text}");
    assert!(text.contains("behind 1.8h"), "warn chip: {text}");
    assert!(text.contains("2 targets trailing"), "trailing count: {text}");
    assert!(!text.contains("on pace"), "no calm line when behind: {text}");
}

#[test]
fn a_failed_today_read_renders_the_tier2_panel_not_a_blank() {
    let mut home = Home::default();
    home.handle(Action::HomeLoadFailed("identity.test → HTTP 500".into()), 0);
    assert!(home.today.is_none(), "no aggregate invented on failure");
    let text = flat(&panel_lines(&home.panel_state().unwrap()));
    assert!(text.contains("✖ couldn't load today"), "{text}");
    assert!(text.contains("HTTP 500"), "names the reason: {text}");
}

#[test]
fn home_a_successful_load_clears_a_prior_failure() {
    let mut home = Home::default();
    home.handle(Action::HomeLoadFailed("boom".into()), 0);
    home.handle(Action::TodayLoaded(Box::new(full())), 0);
    assert!(home.failure.is_none(), "a good read clears the Tier-2 failure");
    assert!(home.panel_state().is_none(), "no ✖ is left to show");
}

#[test]
fn ambient_inbox_chip_shows_the_pending_count_and_hides_at_zero() {
    let mut home = Home::default();
    assert!(home.chip().is_none());
    home.handle(Action::HomeInboxLoaded { pending: 3, expiring: false }, 0);
    let text = home.chip().unwrap().text();
    assert!(text.contains("inbox 3"), "ambient chip: {text}");
    assert!(text.contains("i →"), "triage affordance: {text}");
}

#[test]
fn empty_plan_and_idle_timer_render_the_calm_states() {
    let mut home = Home::default();
    home.handle(Action::TodayLoaded(Box::new(bare())), 0);
    let today = home.today.as_ref().unwrap();
    assert!(home.panel_state().is_none());
    assert!(!today.timer.running);
    let lead = lead_line(&today.timer, home.loaded_at, 0).text();
    assert!(lead.contains("no timer"), "idle band: {lead}");
    assert_eq!(lead, no_timer_line().text());
    assert!(today.plan.is_empty());
    assert!(flat(&open_day_lines()).contains("Nothing planned for today"), "empty plan");
    assert_eq!(plan_title(today), "Today's plan");
}

#[test]
fn an_unplanned_session_still_counts_as_logged_today_under_an_empty_plan() {
    let mut today = bare();
    today.logged_minutes = 50;
    let mut home = Home::default();
    home.handle(Action::TodayLoaded(Box::new(today)), 0);
    let today = home.today.as_ref().unwrap();
    assert!(today.plan.is_empty());
    assert!(flat(&open_day_lines()).contains("Nothing planned for today"), "the calm invitation");
    let text = stats_line(today).text();
    assert!(text.contains("logged today  50m"), "totals.logged_minutes is plan-agnostic: {text}");
}

fn draft(expires_at: Option<i64>) -> Task {
    Task {
        id: 1,
        automation: None,
        prompt: None,
        context: serde_json::Value::Null,
        entity: None,
        expires_at,
    }
}

#[test]
fn a_draft_near_expiry_escalates_the_inbox_chip() {
    let now = 1_783_252_800;
    let mut home = Home::default();
    let calm = drafts_counted(Ok(vec![draft(None), draft(Some(now + 72 * 3600))]), now);
    home.handle(calm.unwrap(), 0);
    assert!(home.chip().unwrap().text().contains("◧ inbox 2"), "muted chip");
    let loud = drafts_counted(Ok(vec![draft(None), draft(Some(now + 3600))]), now);
    home.handle(loud.unwrap(), 0);
    let text = home.chip().unwrap().text();
    assert!(text.contains("▾ inbox 2"), "{text}");
    assert!(!text.contains("◧"), "one glyph at a time: {text}");
}

#[test]
fn a_failed_inbox_count_read_stays_silent() {
    let fault = Fault { kind: FaultKind::Other, shown: "boom".into() };
    assert!(drafts_counted(Err(fault), 0).is_none());
}

#[test]
fn the_reading_panel_counts_chapters_read_from_the_next_unread() {
    let mut today = bare();
    today.reading = vec![
        ReadingBook {
            title: "Mid book".into(),
            author: None,
            progress: None,
            chapters_total: Some(12),
            next_chapter: Some(NextChapter { number: 7, title: "Transactions".into() }),
        },
        ReadingBook {
            title: "Finished book".into(),
            author: None,
            progress: None,
            chapters_total: Some(9),
            next_chapter: None,
        },
    ];
    let mut home = Home::default();
    home.handle(Action::TodayLoaded(Box::new(today)), 0);
    let reading = &mut home.today.as_mut().unwrap().reading;
    let mid = chapters_text(&reading[0]).unwrap();
    assert!(mid.contains("6 / 12 ch"), "next unread is ch.7: {mid}");
    let done = chapters_text(&reading[1]).unwrap();
    assert!(done.contains("9 / 9 ch"), "no next chapter reads all: {done}");
    assert_eq!(done, "   ·   9 / 9 ch");
    reading[1].chapters_total = None;
    assert!(chapters_text(&reading[1]).is_none());
}

#[test]
fn the_lead_band_is_the_header_timer_cell_not_a_second_face() {
    let mut home = Home::default();
    home.handle(Action::TodayLoaded(Box::new(full())), 0);
    let t = home.today.as_ref().unwrap();
    let elapsed = live_elapsed(&t.timer, home.loaded_at, 0);
    let cell = clock_face(&t.timer, elapsed, false, false).expect("a running timer has a cell").text();
    let text = lead_line(&t.timer, home.loaded_at, 0).text();
    assert!(text.contains(&cell), "cell {cell:?} verbatim in: {text}");
    assert_eq!(cell, "● 24:13 Raft leader election");
}

#[test]
fn each_plan_state_wears_its_glyph() {
    let mut today = bare();
    for (title, state) in
        [("alpha", "done"), ("bravo", "live"), ("charlie", "left"), ("delta", "planned")]
    {
        let mut item = plan(title, state, "", 0, 0);
        item.kind = None;
        today.plan.push(item);
    }
    today.left_count = 1;
    let mut home = Home::default();
    home.handle(Action::TodayLoaded(Box::new(today)), 0);
    let rows: Vec<String> =
        home.today.as_ref().unwrap().plan.iter().map(|i| flat(&plan_row(i))).collect();
    for (glyph, title) in [("✓", "alpha"), ("●", "bravo"), ("·", "charlie"), ("○", "delta")] {
        let row = rows
            .iter()
            .find(|r| r.contains(title))
            .unwrap_or_else(|| panic!("no row for {title}"));
        assert!(row.contains(glyph), "{title} wears {glyph}: {row}");
        assert_eq!(row.split_whitespace().next(), Some(glyph), "the row opens with it: {row}");
    }
    for (state, glyph) in [("done", "✓"), ("live", "●"), ("left", "·"), ("planned", "○")] {
        assert_eq!(state_glyph(state).1, glyph, "{state} wears {glyph}");
    }
}

#[test]
fn a_plan_too_long_to_sum_is_told_apart() {
    let mut today = full();
    today.plan[0].logged_minutes = u32::MAX;
    assert!(!sums_fit(&today));
}

#[test]
fn home_reads_both_on_entering_and_on_refresh() {
    let mut home = Home::default();
    let entered = home.on_enter();
    assert!(matches!(
        entered.as_slice(),
        [Effect::Call(Request::LoadToday), Effect::Call(Request::CountDrafts)]
    ));
    assert_eq!(home.handle(Action::RefreshHome, 0).effects.len(), 2);
    let refused = Fault { kind: FaultKind::Unauthorized, shown: "401".into() };
    assert!(matches!(today_read(Err((refused, "x".into()))), Action::SessionExpired));
}

#[test]
fn a_weekday_is_shown_with_a_capital() {
    assert_eq!(title_case("mon"), "Mon");
    assert_eq!(title_case(""), "");
    assert_eq!(title_case("ßx"), "SSx", "one letter can become two");
}

// ---- settings and sign-in ----

fn knobs() -> TimerSettings {
    TimerSettings {
        timer_mode: "stopwatch".into(),
        focus_work_minutes: 50,
        focus_short_break_minutes: 10,
        focus_long_break_minutes: 20,
        focus_long_break_every: 4,
        idle_guard_enabled: true,
        idle_threshold_minutes: 15,
        idle_default_reclaim: "trim".into(),
        audit_long_hours: 6,
        audit_short_seconds: 60,
        audit_badge_enabled: true,
        overrun_ping_enabled: true,
    }
}

#[test]
fn loaded_settings_render_every_knob() {
    let mut screen = Settings::default();
    screen.handle(Action::SettingsLoaded(Box::new(knobs())));
    let content = flat(&screen.lines());
    assert!(content.contains("50m · 10m · 20m"), "focus durations");
    assert!(content.contains("4th break"), "long break every");
    assert!(content.contains("15m without input"), "idle threshold");
    assert!(content.contains("≥ 6h · < 60s"), "audit fences");
    assert!(screen.panel_title().contains("edit on the web"), "web pointer");
    assert!(content.contains("Editing lives on the web"), "where they are edited");
    assert!(content.contains("overrun ping                      on"), "{content}");
}

#[test]
fn a_load_failure_renders_the_tier2_panel_not_a_blank() {
    let mut screen = Settings::default();
    screen.handle(Action::SettingsLoadFailed("identity.test → HTTP 500".into()));
    assert!(screen.failure.is_some(), "the failure is recorded");
    assert!(screen.settings.is_none(), "no knobs invented on failure");
    let content = flat(&screen.lines());
    assert!(content.contains("✖ couldn't load settings"), "loud failure: {content}");
    assert!(content.contains("HTTP 500"), "names the reason: {content}");
    let refused = Fault { kind: FaultKind::Unauthorized, shown: "401".into() };
    assert!(matches!(settings_read(Err((refused, "x".into()))), Action::SessionExpired));
}

#[test]
fn idle_is_the_plain_sign_in_prompt() {
    let l = Login::default();
    let text = flat(&l.lines());
    assert!(text.contains("You're not signed in."), "{text}");
    assert!(!text.contains("✖"), "no blocking bar when idle: {text}");
}

#[test]
fn a_server_error_renders_the_tier3_blocking_screen() {
    let mut l = Login::default();
    l.set_server_error("identity.dev → HTTP 500".into());
    let text = flat(&l.lines());
    assert!(
        text.contains("✖ can't reach the identity server"),
        "loud blocking headline: {text}"
    );
    assert!(text.contains("HTTP 500"), "names the cause: {text}");
    assert!(text.contains("retry"), "offers retry: {text}");
}

#[test]
fn an_expired_session_asks_to_sign_in_again() {
    let mut l = Login::default();
    l.set_expired();
    let text = flat(&l.lines());
    assert!(text.contains("session expired"), "{text}");
    assert!(text.contains("sign in"), "re-auth recovery: {text}");
    l.set_pending();
    assert!(flat(&l.lines()).contains("Waiting for the browser…"));
    l.set_idle();
    assert!(!l.blocks());
}

// ---- the tools ----

#[test]
fn cursors_stay_in_their_list() {
    assert_eq!(step(3, -9, 5), 0);
    assert_eq!(step(3, 9, 5), 4);
    assert_eq!(select_step(None, 1, 5), Some(1));
    assert_eq!(select_step(Some(7), 1, 0), Some(7));
    assert_eq!(select_clamp(Some(7), 3), Some(2));
    assert_eq!(select_clamp(None, 3), Some(0));
    assert_eq!(select_clamp(Some(1), 0), None);
    assert_eq!(clamp(7, 3), 2);
}

#[test]
fn matches_are_found_whatever_the_case_and_round_the_end() {
    assert!(is_hit("The Rust Book", "rUsT"));
    assert!(!is_hit("The Rust Book", ""));
    let marks = vec![true, false, true, false];
    assert_eq!(step_match(&marks, 2, 1), Some(0));
    assert_eq!(step_match(&marks, 0, -1), Some(2));
    assert_eq!(step_match(&vec![false, false], 0, 1), None);
}

#[test]
fn a_fuzzy_picker_narrows_and_resets_its_cursor() {
    let mut p = Picker::new(
        "pick",
        vec![item("domain · Systems".into(), 1), item("kind · coding".into(), 2)],
    );
    p.move_cursor(5);
    assert_eq!(p.selected(), Some(&2));
    p.input('S');
    p.input('y');
    assert_eq!(p.selected(), Some(&1));
    p.input('z');
    assert_eq!(p.selected(), None);
    p.backspace();
    assert_eq!(p.selected_label().map(|s| s.as_str()), Some("domain · Systems"));
}

#[test]
fn numbers_and_labels_read_exactly() {
    assert_eq!(show(0), "0");
    assert_eq!(show(u64::MAX), "18446744073709551615");
    assert_eq!(show_signed(i64::MIN), "-9223372036854775808");
    assert_eq!(parse_number("4294967295"), Some(u32::MAX));
    assert_eq!(parse_number("4294967296"), None);
    assert_eq!(parse_number(""), None);
    assert_eq!(parse_number("1a"), None);
    assert_eq!(parse_number("+7"), Some(7));
    assert_eq!(pad_or_truncate("systems", 4), "sys…");
    assert_eq!(pad_or_truncate("go", 4), "go  ");
    assert_eq!(pad_or_truncate("go", 0), "…");
    assert_eq!(align("7", 3), "  7");
    assert_eq!(show_padded(7, 4), "0007");
}

#[test]
fn texts_split_and_trim_as_expected() {
    assert_eq!(trim(" \t x y\u{a0}\n"), "x y");
    assert_eq!(split("a\n\nb", '\n'), vec!["a", "", "b"]);
    assert_eq!(split("", '\n'), vec![""]);
    let halves = split_once("note  two").unwrap();
    assert_eq!((halves.head.as_str(), halves.tail.as_str()), ("note", " two"));
    assert!(split_once("note").is_none());
    assert_eq!(last_part("domain · a · B", " · "), "B");
    assert_eq!(last_part("alone", " · "), "alone");
    assert_eq!(last_part("ends · ", " · "), "");
}

#[test]
fn times_left_and_pages_read_compactly() {
    assert_eq!(left_text(48 * 3600), "2d");
    assert_eq!(left_text(48 * 3600 - 1), "47h");
    assert_eq!(left_text(3599), "59m");
    assert_eq!(left_text(1), "1m");
    assert_eq!(stamp(1_783_252_800, "%Y-%m-%d"), "2026-07-05");
    assert_eq!(stamp(i64::MAX, "%Y-%m-%d"), "", "no such instant");
    assert_eq!(stamp(0, "%Y %"), "1970 %", "what is no directive stays as written");
    assert_eq!(page_count(42, 25), 2);
    assert_eq!(page_count(0, 25), 1);
    assert_eq!(page_count(42, 0), 1);
    assert!(page_status_line(2, 25, 42, 17, false).contains("42"));
}

#[test]
fn a_draft_and_a_line_read_back_what_went_in() {
    assert_eq!(text_of(&make_textarea("a\n\nb")), "a\n\nb");
    assert_eq!(text_of(&make_textarea("")), "");
    let mut line = LineInput::new("ab".into());
    line.press(KeyEvent::plain(KeyCode::Home));
    line.press(KeyEvent::plain(KeyCode::Char('x')));
    assert_eq!(line.value(), "xab");
    line.press(KeyEvent::plain(KeyCode::Delete));
    assert_eq!(line.value(), "xb");
    line.press(KeyEvent::plain(KeyCode::End));
    line.press(KeyEvent::plain(KeyCode::Backspace));
    assert_eq!(line.value(), "x");
}

#[test]
fn a_share_of_the_width_is_never_empty() {
    let area = Area { x: 0, y: 0, width: 80, height: 20 };
    assert_eq!(centered_share(area, 50, 10), Area { x: 20, y: 5, width: 40, height: 10 });
    let thin = Area { x: 0, y: 0, width: 1, height: 1 };
    assert_eq!(centered_share(thin, 10, 5), Area { x: 0, y: 0, width: 1, height: 1 });
}

#[test]
fn a_moment_carries_what_the_shell_read() {
    let m = Moment::at(7, Some(9));
    assert_eq!((m.millis, m.hours), (7, Some(9)));
    assert!(m.second > 1_700_000_000, "the wall clock");
}
