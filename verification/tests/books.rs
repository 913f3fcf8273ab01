//! The shelf, its fuzzy jump, and the book detail.

use engineer::action::{Action, BooksFilter, Effect, Outcome, Request};
use engineer::keys::{KeyCode, KeyEvent, Modifiers};
use engineer::line::{Area, Line, Tone};
use engineer::model::{Book, BookChapter, BookStatus, BookUpdate, Fault, FaultKind, WriteReply};
use engineer::notify::Level;
use engineer::panel::panel_lines;
use engineer::picker::{item, Picker};
use engineer::screens::book_detail::{book_written, status_at, status_index, BookDetail, STATUS_ROWS};
use engineer::screens::books::{book_label, chapters_read, listed, Books};
use engineer::screens::ScreenKind;
use engineer::search::highlight;

fn book(id: i64, title: &str) -> Book {
    Book {
        id,
        title: title.into(),
        author: None,
        status: BookStatus::Reading,
        current_page: None,
        page_count: None,
        current_chapter_id: None,
        progress: None,
    }
}

fn chapter(id: i64, number: u32, title: &str) -> BookChapter {
    BookChapter { id, number, title: title.into(), done: false, skipped: false }
}

fn flat(lines: &[Line]) -> String {
    lines.iter().map(|l| l.text()).collect::<Vec<_>>().join("\n")
}

fn panel(b: &Books) -> String {
    b.panel_state().map(|s| flat(&panel_lines(&s))).unwrap_or_default()
}

#[test]
fn a_load_failure_renders_tier2_not_an_empty_shelf() {
    let mut b = Books::default();
    b.handle(Action::BooksLoadFailed("identity.test → HTTP 500".into()));
    assert!(b.failure.is_some(), "the failure is recorded");
    assert!(b.items.is_empty(), "no rows are invented on failure");
    let text = panel(&b);
    assert!(text.contains("✖ couldn't load books"), "loud failure: {text}");
    assert!(text.contains("HTTP 500"), "names the reason: {text}");
    assert!(
        !text.contains("no books on this shelf"),
        "failed is never dressed up as empty: {text}"
    );
}

#[test]
fn a_loaded_empty_shelf_is_calm_not_a_failure() {
    let mut b = Books::default();
    b.handle(Action::BooksLoaded(vec![]));
    let text = panel(&b);
    assert!(text.contains("no books on this shelf"), "calm empty: {text}");
    assert!(!text.contains("✖"), "no failure glyph on an empty shelf: {text}");
}

#[test]
fn loading_shows_the_calm_loading_state() {
    let mut b = Books::default();
    b.loading = true;
    assert!(panel(&b).contains("loading…"));
}

#[test]
fn books_a_successful_load_clears_a_prior_failure() {
    let mut b = Books::default();
    b.handle(Action::BooksLoadFailed("boom".into()));
    b.handle(Action::BooksLoaded(vec![book(1, "The Rust Book")]));
    assert!(b.failure.is_none(), "a good read clears the failure");
    assert!(!panel(&b).contains("✖"));
}

#[test]
fn n_steps_between_matches_over_loaded_rows() {
    let mut b = Books::default();
    b.handle(Action::BooksLoaded(vec![
        book(1, "The Rust Book"),
        book(2, "Go in Action"),
        book(3, "Rust Atomics"),
    ]));
    b.search.query = "rust".into();
    b.cursor = Some(0);
    b.handle(Action::BooksMatchStep(1));
    assert_eq!(b.cursor, Some(2), "n jumps to the next match");
    b.handle(Action::BooksMatchStep(1));
    assert_eq!(b.cursor, Some(0), "n wraps back to the first match");
    b.handle(Action::BooksMatchStep(-1));
    assert_eq!(b.cursor, Some(2), "N steps backward with wrap");
}

#[test]
fn the_open_picker_owns_every_key() {
    let mut b = Books::default();
    b.items = vec![book(1, "Rust")];
    b.picker = Some(Picker::new("open book", vec![item(String::from("Rust"), 1_i64)]));
    for code in [KeyCode::Char('/'), KeyCode::Char('f'), KeyCode::Char('q')] {
        assert!(
            matches!(
                b.intercept_key(KeyEvent::plain(code)),
                Some(Action::BooksPickerKey(_))
            ),
            "{code:?} filters the picker"
        );
    }
}

#[test]
fn the_picker_label_carries_the_author_so_either_matches() {
    let mut b = book(1, "Crafting Interpreters");
    b.author = Some("Nystrom".into());
    assert_eq!(book_label(&b), "Crafting Interpreters · Nystrom");
}

#[test]
fn the_shelf_asks_for_what_its_filter_and_query_say() {
    let mut b = Books::default();
    let out = b.handle(Action::BooksFilter(BooksFilter::All));
    assert!(matches!(
        out.effects.as_slice(),
        [Effect::Call(Request::ListBooks { status: None, query: None })]
    ));
    b.handle(Action::BooksSearchInput('r'));
    b.handle(Action::BooksSearchInput('u'));
    b.handle(Action::BooksSearchBackspace);
    let out = b.handle(Action::BooksSearchSubmit);
    match out.effects.as_slice() {
        [Effect::Call(Request::ListBooks { status: None, query })] => {
            assert_eq!(query.as_deref(), Some("r"));
        }
        other => panic!("expected one read, got {other:?}"),
    }
    let out = b.handle(Action::BooksSearchCancel);
    assert!(matches!(
        out.effects.as_slice(),
        [Effect::Call(Request::ListBooks { status: None, query: None })]
    ));
}

#[test]
fn opening_goes_to_the_detail_before_it_reads_the_chapters() {
    let mut b = Books::default();
    b.handle(Action::BooksLoaded(vec![book(5, "SICP")]));
    let out = b.handle(Action::BooksOpen);
    match out.effects.as_slice() {
        [Effect::Send(Action::Goto(ScreenKind::BookDetail)), Effect::Call(Request::ListChapters(x))] =>
        {
            assert_eq!(x.id, 5);
        }
        other => panic!("expected the detail and the read, got {other:?}"),
    }
}

#[test]
fn the_fuzzy_jump_lands_on_the_book_and_opens_it() {
    let mut b = Books::default();
    b.handle(Action::BooksLoaded(vec![
        book(1, "The Rust Book"),
        book(2, "Go in Action"),
        book(3, "Rust Atomics"),
    ]));
    b.handle(Action::BooksPickerOpen);
    for c in "GiA".chars() {
        b.handle(Action::BooksPickerKey(KeyEvent::plain(KeyCode::Char(c))));
    }
    let out = b.handle(Action::BooksPickerKey(KeyEvent::plain(KeyCode::Enter)));
    assert_eq!(b.cursor, Some(1));
    assert!(b.picker.is_none());
    assert!(matches!(out.effects.as_slice(), [Effect::Send(Action::BooksOpen)]));
}

#[test]
fn the_jump_moves_on_arrows_and_control_letters_only() {
    let mut b = Books::default();
    b.handle(Action::BooksLoaded(vec![book(1, "an"), book(2, "bn")]));
    b.handle(Action::BooksPickerOpen);
    b.handle(Action::BooksPickerKey(KeyEvent::new(KeyCode::Char('n'), Modifiers::control())));
    assert_eq!(b.picker.as_ref().unwrap().cursor, 1);
    b.handle(Action::BooksPickerKey(KeyEvent::new(KeyCode::Char('p'), Modifiers::control())));
    assert_eq!(b.picker.as_ref().unwrap().cursor, 0);
    b.handle(Action::BooksPickerKey(KeyEvent::plain(KeyCode::Char('n'))));
    assert_eq!(b.picker.as_ref().unwrap().query, "n");
    b.handle(Action::BooksPickerKey(KeyEvent::plain(KeyCode::Esc)));
    assert!(b.picker.is_none());
}

#[test]
fn a_search_prompt_takes_the_keys_until_it_is_applied() {
    let mut b = Books::default();
    assert!(b.intercept_key(KeyEvent::plain(KeyCode::Char('n'))).is_none());
    let opened = b.intercept_key(KeyEvent::plain(KeyCode::Char('/')));
    assert!(matches!(opened, Some(Action::Notify { level: Level::Info, .. })));
    assert!(matches!(
        b.intercept_key(KeyEvent::plain(KeyCode::Char('n'))),
        Some(Action::BooksSearchInput('n'))
    ));
    b.handle(Action::BooksSearchInput('n'));
    assert_eq!(b.panel_title(), "Books · reading · /n_");
    b.handle(Action::BooksSearchSubmit);
    assert!(matches!(
        b.intercept_key(KeyEvent::plain(KeyCode::Char('N'))),
        Some(Action::BooksMatchStep(-1))
    ));
}

#[test]
fn shelf_reads_answer_rows_a_reason_or_an_expired_session() {
    let refused = Fault { kind: FaultKind::Unauthorized, shown: "401".into() };
    assert!(matches!(listed(Err((refused, "x".into()))), Action::SessionExpired));
    let other = Fault { kind: FaultKind::Other, shown: "500".into() };
    assert!(matches!(
        listed(Err((other, "host → 500".into()))),
        Action::BooksLoadFailed(r) if r == "host → 500"
    ));
    let refused = Fault { kind: FaultKind::Unauthorized, shown: "401".into() };
    assert!(matches!(
        chapters_read(Box::new(book(1, "a")), Err((refused, "x".into()))),
        Action::SessionExpired
    ));
    assert_eq!(
        Books::default().row(&book(1, "SICP"), " 42%".into()).text(),
        " reading   SICP  ·      42%"
    );
}

#[test]
fn a_row_marks_what_the_query_matches() {
    let mut s = Books::default();
    s.search.query = "in".into();
    let row = s.row(&book(1, "INside Main"), " 42%".into());
    let title: Vec<(Tone, &str)> =
        row.spans[2..row.spans.len() - 3].iter().map(|p| (p.tone, p.text.as_str())).collect();
    assert_eq!(
        title,
        [
            (Tone::AccentBold, "IN"),
            (Tone::Plain, "side Ma"),
            (Tone::AccentBold, "in"),
        ]
    );
    let whole = highlight("aaa", "aa", Tone::Plain);
    assert_eq!(whole.text(), "aaa");
    assert_eq!(whole.spans.len(), 2, "no match lies over another");
    assert_eq!(highlight("SICP", "", Tone::Plain).spans.len(), 1);
    assert!(highlight("", "x", Tone::Plain).spans.is_empty());
}

// ---- the detail ----

fn loaded(status: BookStatus) -> BookDetail {
    let mut b = book(7, "SICP");
    b.status = status;
    let mut s = BookDetail::default();
    s.handle(Action::BookDetailLoaded { book: Box::new(b), chapters: vec![] });
    s
}

fn update(out: &Outcome) -> (i64, BookUpdate, Option<String>, String) {
    match out.effects.as_slice() {
        [Effect::Call(Request::UpdateBook { current, update, done, queued })] => {
            (current.id, *update, done.clone(), queued.clone())
        }
        other => panic!("expected one write, got {other:?}"),
    }
}

#[test]
fn status_maps_to_wire_enum_values() {
    assert_eq!(BookStatus::Reading.wire(), "reading");
    assert_eq!(BookStatus::Completed.wire(), "completed");
    assert_eq!(BookStatus::Unread.wire(), "unread");
    assert_eq!(BookStatus::OnHold.wire(), "on_hold");
    assert_eq!(BookStatus::Abandoned.wire(), "abandoned");
}

#[test]
fn picker_opens_at_current_status() {
    let mut s = loaded(BookStatus::OnHold);
    s.handle(Action::BookStatusPicker);
    assert_eq!(s.status_picker, Some(status_index(BookStatus::OnHold)));
}

#[test]
fn move_steps_and_clamps_the_selection() {
    let mut s = loaded(BookStatus::Reading);
    s.handle(Action::BookStatusPicker);
    s.handle(Action::BookStatusMove(1));
    assert_eq!(s.status_picker, Some(1));
    s.handle(Action::BookStatusMove(-5));
    assert_eq!(s.status_picker, Some(0));
    s.handle(Action::BookStatusMove(99));
    assert_eq!(s.status_picker, Some(STATUS_ROWS - 1));
}

#[test]
fn mnemonic_select_jumps_to_status() {
    let mut s = loaded(BookStatus::Reading);
    s.handle(Action::BookStatusPicker);
    s.handle(Action::BookStatusSelect(BookStatus::Abandoned));
    assert_eq!(s.status_picker, Some(status_index(BookStatus::Abandoned)));
}

#[test]
fn cancel_closes_without_patching() {
    let mut s = loaded(BookStatus::Reading);
    s.handle(Action::BookStatusPicker);
    s.handle(Action::BookStatusSelect(BookStatus::Completed));
    let out = s.handle(Action::BookStatusCancel);
    assert!(s.status_picker.is_none());
    assert!(out.effects.is_empty(), "cancel dispatches nothing");
}

#[test]
fn confirm_patches_selected_status_and_reflects_it() {
    let mut s = loaded(BookStatus::Reading);
    s.handle(Action::BookStatusPicker);
    s.handle(Action::BookStatusSelect(BookStatus::OnHold));
    let out = s.handle(Action::BookStatusConfirm);
    assert!(s.status_picker.is_none(), "confirm closes the picker");
    let (id, change, done, queued) = update(&out);
    assert_eq!(id, 7);
    assert_eq!(
        change,
        BookUpdate { status: Some(BookStatus::OnHold), current_page: None, current_chapter_id: None }
    );
    let mut answer = book(7, "SICP");
    answer.status = BookStatus::OnHold;
    let sent = book_written(WriteReply::Confirmed(answer), done, queued);
    assert!(matches!(sent[1], Action::Notify { level: Level::Success, .. }));
    for a in sent {
        s.handle(a);
    }
    assert_eq!(s.book.as_ref().unwrap().status, BookStatus::OnHold);
}

#[test]
fn offline_status_confirm_queues_a_book_update_and_flips_the_pill() {
    let mut s = loaded(BookStatus::Reading);
    s.handle(Action::BookStatusPicker);
    s.handle(Action::BookStatusSelect(BookStatus::OnHold));
    let out = s.handle(Action::BookStatusConfirm);
    let (_, _, done, queued) = update(&out);
    assert_eq!(queued, "status → on hold · queued (offline) — will sync");
    let mut flipped = book(7, "SICP");
    flipped.status = BookStatus::OnHold;
    let sent = book_written(WriteReply::Provisional(flipped), done, queued);
    assert!(matches!(sent[1], Action::Notify { level: Level::Info, .. }));
    for a in sent {
        s.handle(a);
    }
    assert_eq!(
        s.book.as_ref().unwrap().status,
        BookStatus::OnHold,
        "the provisional flip reflects locally"
    );
}

#[test]
fn picker_renders_pills_and_mnemonics() {
    let text: String = (0..STATUS_ROWS)
        .map(|i| BookDetail::status_line(status_at(i)).text())
        .collect();
    for pill in ["reading", "done", "unread", "hold", "stop"] {
        assert!(text.contains(pill), "pill '{pill}' missing from: {text}");
    }
    for key in ["r", "c", "u", "h", "a"] {
        assert!(text.contains(&format!(" {key} ")), "{key} missing from: {text}");
    }
}

#[test]
fn a_page_is_written_only_when_it_is_a_number() {
    let mut s = loaded(BookStatus::Reading);
    s.handle(Action::BeginEditPage);
    for c in ['1', '4', '2', '9'] {
        s.handle(Action::EditPageInput(c));
    }
    s.handle(Action::EditPageBackspace);
    let out = s.handle(Action::SubmitPage);
    let (_, change, done, queued) = update(&out);
    assert_eq!(change.current_page, Some(142));
    assert_eq!(done.as_deref(), Some("page updated"));
    assert_eq!(queued, "page 142 · queued (offline) — will sync");
    assert!(s.edit_page.is_none());
    s.handle(Action::BeginEditPage);
    assert!(s.handle(Action::SubmitPage).effects.is_empty(), "nothing typed, nothing sent");
}

#[test]
fn a_done_chapter_becomes_the_current_one_and_the_cursor_moves_on() {
    let mut b = book(7, "SICP");
    b.current_chapter_id = Some(11);
    let mut s = BookDetail::default();
    s.handle(Action::BookDetailLoaded {
        book: Box::new(b),
        chapters: vec![chapter(10, 1, "one"), chapter(11, 2, "two"), chapter(12, 3, "three")],
    });
    assert_eq!(s.cursor, Some(1), "opens on the current chapter");
    let out = s.handle(Action::ToggleChapterDone);
    let (_, change, done, queued) = update(&out);
    assert_eq!(change.current_chapter_id, Some(11));
    assert_eq!(done, None);
    assert_eq!(queued, "chapter · queued (offline) — will sync");
    assert_eq!(s.cursor, Some(2));
    let row = BookDetail::chapter_line(&s.chapters[1], Some(11));
    assert_eq!(row.text(), " [ ]   2.  two");
}

#[test]
fn the_open_picker_keeps_h_from_stepping_back() {
    let mut s = loaded(BookStatus::Reading);
    let h = KeyEvent::plain(KeyCode::Char('h'));
    assert!(s.intercept_key(h).is_none());
    s.handle(Action::BookStatusPicker);
    assert!(matches!(
        s.intercept_key(h),
        Some(Action::BookStatusSelect(BookStatus::OnHold))
    ));
    s.handle(Action::BookStatusCancel);
    s.handle(Action::BeginEditPage);
    assert!(s.intercept_key(h).is_none());
    assert!(matches!(
        s.intercept_key(KeyEvent::plain(KeyCode::Char('7'))),
        Some(Action::EditPageInput('7'))
    ));
}

#[test]
fn a_refused_book_write_says_so() {
    let fault = Fault { kind: FaultKind::Other, shown: "boom".into() };
    match book_written(WriteReply::Failed(fault), None, "q".into()).as_slice() {
        [Action::Notify { level: Level::Error, text }] => assert_eq!(text, "update failed: boom"),
        other => panic!("expected the failure, got {other:?}"),
    }
}

#[test]
fn a_modal_sits_in_the_middle_of_its_area() {
    let area = Area { x: 2, y: 4, width: 80, height: 24 };
    let modal = engineer::line::centered(area, 34, 7);
    assert_eq!(modal, Area { x: 25, y: 12, width: 34, height: 7 });
    let cramped = engineer::line::centered(Area { x: 0, y: 0, width: 10, height: 3 }, 34, 7);
    assert_eq!(cramped, Area { x: 0, y: 0, width: 10, height: 3 });
}
