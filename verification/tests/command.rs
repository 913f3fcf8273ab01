//! The command line: parsing, completion, hints and help.

use engineer::command::{
    complete, entries, help_summary, hint, nav_verbs, parse, render_line, Command, Kind, Parse,
    TimerVerb,
};
use engineer::line::Tone;
use engineer::screens::ScreenKind;

fn cmd(input: &str) -> Command {
    match parse(input) {
        Parse::Run(c) => c,
        other => panic!("expected a runnable command for {input:?}, got {other:?}"),
    }
}

#[test]
fn empty_line_is_empty() {
    assert_eq!(parse(""), Parse::Empty);
    assert_eq!(parse("   "), Parse::Empty);
}

#[test]
fn bare_nav_verbs_resolve() {
    assert_eq!(cmd("home"), Command::Nav(ScreenKind::Home));
    assert_eq!(cmd("books"), Command::Nav(ScreenKind::Books));
    assert_eq!(cmd("activities"), Command::Nav(ScreenKind::Activities));
    assert_eq!(cmd("notes"), Command::Nav(ScreenKind::Notes));
    assert_eq!(cmd("review"), Command::Nav(ScreenKind::Review));
    assert_eq!(cmd("progress"), Command::Nav(ScreenKind::Progress));
    assert_eq!(cmd("week"), Command::Nav(ScreenKind::Week));
    assert_eq!(cmd("timer"), Command::Nav(ScreenKind::Timer));
    assert_eq!(cmd("queue"), Command::Nav(ScreenKind::Queue));
}

#[test]
fn queue_resolves_by_prefix_and_leaves_the_quit_alias_alone() {
    assert_eq!(cmd("q"), Command::Quit);
    assert_eq!(parse("qu"), Parse::Ambiguous(vec!["queue", "quit"]));
    assert_eq!(cmd("que"), Command::Nav(ScreenKind::Queue));
    assert_eq!(cmd("qui"), Command::Quit);
}

#[test]
fn week_resolves_by_prefix_and_leaves_the_write_alias_alone() {
    assert_eq!(cmd("we"), Command::Nav(ScreenKind::Week));
    assert_eq!(cmd("wee"), Command::Nav(ScreenKind::Week));
    assert_eq!(cmd("w"), Command::Write);
}

#[test]
fn unambiguous_prefixes_resolve() {
    assert_eq!(cmd("act"), Command::Nav(ScreenKind::Activities));
    assert_eq!(cmd("ac"), Command::Nav(ScreenKind::Activities));
    assert_eq!(cmd("au"), Command::Nav(ScreenKind::Audit));
    assert!(matches!(parse("a"), Parse::Ambiguous(_)));
    assert_eq!(cmd("b"), Command::Nav(ScreenKind::Books));
    assert_eq!(cmd("r"), Command::Nav(ScreenKind::Review));
    assert_eq!(cmd("p"), Command::Nav(ScreenKind::Progress));
    assert_eq!(cmd("t"), Command::Nav(ScreenKind::Timer));
}

#[test]
fn housekeeping_verbs_and_aliases_resolve() {
    assert_eq!(cmd("q"), Command::Quit);
    assert_eq!(cmd("quit"), Command::Quit);
    assert_eq!(cmd("w"), Command::Write);
    assert_eq!(cmd("write"), Command::Write);
    assert_eq!(cmd("logs"), Command::Logs);
    assert_eq!(cmd("logout"), Command::Logout);
    assert_eq!(cmd("help"), Command::Help);
}

#[test]
fn timer_actions_resolve_with_prefixes() {
    assert_eq!(cmd("timer start"), Command::Timer(TimerVerb::Start));
    assert_eq!(cmd("timer pause"), Command::Timer(TimerVerb::Pause));
    assert_eq!(cmd("timer resume"), Command::Timer(TimerVerb::Resume));
    assert_eq!(cmd("timer stop"), Command::Timer(TimerVerb::Stop));
    assert_eq!(cmd("t start"), Command::Timer(TimerVerb::Start));
    assert_eq!(cmd("timer p"), Command::Timer(TimerVerb::Pause));
    assert_eq!(cmd("timer r"), Command::Timer(TimerVerb::Resume));
}

#[test]
fn timer_ambiguous_argument_reports_candidates() {
    match parse("timer s") {
        Parse::AmbiguousArg { verb, matches } => {
            assert_eq!(verb, "timer");
            assert_eq!(matches, vec!["start", "stop"]);
        }
        other => panic!("expected AmbiguousArg, got {other:?}"),
    }
}

#[test]
fn timer_bad_argument_is_reported() {
    match parse("timer wobble") {
        Parse::BadArg { verb, got, .. } => {
            assert_eq!(verb, "timer");
            assert_eq!(got, "wobble");
        }
        other => panic!("expected BadArg, got {other:?}"),
    }
}

#[test]
fn note_captures_prefill_text_verbatim() {
    assert_eq!(cmd("note"), Command::Note(None));
    assert_eq!(
        cmd("note closures are objects"),
        Command::Note(Some("closures are objects".into()))
    );
    assert_eq!(
        cmd("note  two  spaces"),
        Command::Note(Some("two  spaces".into()))
    );
}

#[test]
fn ambiguous_prefixes_report_all_candidates() {
    assert_eq!(parse("l"), Parse::Ambiguous(vec!["log", "logs", "logout"]));
    assert_eq!(parse("h"), Parse::Ambiguous(vec!["home", "help"]));
    assert_eq!(parse("n"), Parse::Ambiguous(vec!["notes", "note"]));
}

#[test]
fn exact_note_wins_over_the_notes_prefix() {
    assert_eq!(cmd("note"), Command::Note(None));
    assert_eq!(cmd("notes"), Command::Nav(ScreenKind::Notes));
}

#[test]
fn unknown_verb_is_reported() {
    assert_eq!(parse("wobble"), Parse::Unknown("wobble".into()));
}

#[test]
fn completion_extends_to_the_longest_common_prefix() {
    assert_eq!(complete("t"), "t");
    assert_eq!(complete("ti"), "timer ");
    assert_eq!(complete("time"), "timer ");
    assert_eq!(complete("ta"), "target");
    assert_eq!(complete("boo"), "books");
    assert_eq!(complete("act"), "activities");
    assert_eq!(complete("n"), "note");
    assert_eq!(complete("lo"), "log");
    assert_eq!(complete("timer s"), "timer st");
    assert_eq!(complete("timer p"), "timer pause");
    assert_eq!(complete("zzz"), "zzz");
}

#[test]
fn hint_states_read_as_the_four_line_states() {
    let empty = hint("");
    assert!(empty.text.contains("home"));
    assert!(empty.text.contains("timer"));
    assert!(!empty.warn);
    assert!(hint("l").text.contains("logs"));
    assert!(hint("l").text.contains("logout"));
    assert!(hint("books").text.contains("browse books"));
    assert!(hint("timer ").text.contains("start"));
    assert!(hint("zzz").warn);
    assert!(hint("zzz").text.contains(":help"));
}

#[test]
fn help_summary_lists_the_whole_table() {
    let s = help_summary();
    assert!(s.contains("home"));
    assert!(s.contains("timer[start|pause|resume|stop]"));
    assert!(s.contains("note <text>"));
    assert!(s.contains("log"));
    assert!(s.contains("target"));
    assert!(s.contains("logout"));
}

#[test]
fn log_and_target_verbs_resolve() {
    assert_eq!(cmd("log"), Command::Log);
    assert_eq!(cmd("log 45m reading"), Command::Log);
    assert_eq!(cmd("target"), Command::Target);
    assert_eq!(cmd("ta"), Command::Target);
    assert_eq!(cmd("tar"), Command::Target);
}

#[test]
fn target_is_a_full_word_and_never_steals_the_timer_prefix() {
    assert_eq!(cmd("t"), Command::Nav(ScreenKind::Timer));
    assert_eq!(cmd("t start"), Command::Timer(TimerVerb::Start));
    assert_eq!(cmd("ti"), Command::Nav(ScreenKind::Timer));
    assert_eq!(cmd("tim"), Command::Nav(ScreenKind::Timer));
    let table = entries();
    let target = table.iter().find(|e| e.verb == "target").unwrap();
    assert!(target.aliases.is_empty());
    assert!(matches!(
        parse("t"),
        Parse::Run(Command::Nav(ScreenKind::Timer))
    ));
}

#[test]
fn log_verb_hint_and_completion_follow_the_table() {
    assert!(hint("log").text.contains("log a completed activity"));
    assert!(hint("target").text.contains("declare a weekly target"));
    assert!(hint("t").text.contains("timer"));
}

#[test]
fn a_nav_verb_ignores_a_stray_argument() {
    assert_eq!(cmd("books rust"), Command::Nav(ScreenKind::Books));
}

#[test]
fn the_empty_line_hint_advertises_only_table_nav_verbs() {
    let table = entries();
    for verb in nav_verbs() {
        let entry = table
            .iter()
            .find(|e| e.verb == verb)
            .unwrap_or_else(|| panic!(":{verb} is not in the table"));
        assert_eq!(entry.kind, Kind::Nav, ":{verb}");
    }
}

#[test]
fn help_summary_names_every_verb_in_the_table() {
    let s = help_summary();
    let words: Vec<&str> = s
        .split(|c: char| !c.is_alphanumeric())
        .filter(|w| !w.is_empty())
        .collect();
    for e in entries() {
        assert!(words.contains(&e.verb), ":{} missing from {s}", e.verb);
    }
}

// The laws on concrete values.

#[test]
fn completing_twice_changes_nothing_more() {
    for line in ["t", "ti", "n", "timer s", "zzz", "", "boo"] {
        let once = complete(line);
        assert_eq!(complete(&once), once, "{line:?}");
        assert!(once.starts_with(line), "{line:?} only grows");
    }
}

#[test]
fn the_drawn_line_shows_the_prompt_the_text_and_the_hint() {
    let line = render_line("zzz");
    assert_eq!(line.text(), ":zzz█   unknown — try :help");
    assert_eq!(line.spans[0].tone, Tone::Focused);
    assert_eq!(line.spans[3].tone, Tone::Warn);
    let calm = render_line("books");
    assert_eq!(calm.text(), ":books█   → browse books");
    assert_eq!(calm.spans[3].tone, Tone::Muted);
}

#[test]
fn a_text_verb_and_a_bare_verb_hint_what_they_take() {
    assert_eq!(hint("note x").text, "<text> — opens quick-capture prefilled");
    assert_eq!(hint("home x").text, "home takes no argument");
    assert_eq!(hint("timer zz").text, "? try start|pause|resume|stop");
    assert!(hint("timer zz").warn);
    assert_eq!(hint("timer s").text, "start · stop");
}
