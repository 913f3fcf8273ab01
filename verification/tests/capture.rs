//! The quick-capture overlay.

use engineer::action::{Action, Effect, Outcome, Request};
use engineer::capture::{anchors_read, saved, Field, QuickCapture};
use engineer::edit::{make_textarea, LineInput, REVERSED};
use engineer::keys::{KeyCode, KeyEvent, Modifiers};
use engineer::model::{
    AnchorChapter, AnchorData, AnchorSection, Book, BookStatus, Citation, Fault, FaultKind, Note,
};
use engineer::notify::Level;

fn key(c: char) -> KeyEvent {
    KeyEvent::plain(KeyCode::Char(c))
}

fn type_content(s: &mut QuickCapture, text: &str) {
    for c in text.chars() {
        s.handle(Action::CaptureKey(key(c)));
    }
}

fn level(out: &Outcome) -> Option<Level> {
    out.note.as_ref().map(|(l, _)| *l)
}

fn closes(out: &Outcome) -> bool {
    matches!(out.effects.as_slice(), [Effect::Send(Action::CaptureClose)])
}

fn note(id: i64, title: &str) -> Note {
    Note {
        id,
        title: title.into(),
        content: None,
        book_id: None,
        book_title: None,
        archived_at: None,
        citations: vec![],
    }
}

fn cite(page: Option<u32>) -> Citation {
    Citation { address_label: None, page, book_chapter_id: None, book_section_id: None }
}

fn sicp_anchor_data() -> AnchorData {
    AnchorData {
        chapters: vec![AnchorChapter {
            id: 3,
            number: Some(3),
            title: Some("Modularity, Objects, and State".into()),
            sections: vec![
                AnchorSection {
                    id: 31,
                    number: Some("3.1".into()),
                    title: Some("Assignment and Local State".into()),
                },
                AnchorSection {
                    id: 32,
                    number: Some("3.2".into()),
                    title: Some("The Environment Model".into()),
                },
            ],
        }],
    }
}

#[test]
fn typing_records_content_and_marks_input_present() {
    let mut s = QuickCapture::new();
    type_content(&mut s, "blocks");
    assert_eq!(s.body(), "blocks");
    assert!(s.has_input());
}

#[test]
fn esc_on_nonempty_draft_arms_discard_and_keeps_the_draft() {
    let mut s = QuickCapture::new();
    type_content(&mut s, "keep me");
    let warn = s.handle(Action::CaptureCancel);
    assert_eq!(level(&warn), Some(Level::Warning));
    assert!(s.confirm_discard);
    assert!(warn.effects.is_empty(), "no CaptureClose on the first Esc");
    assert_eq!(s.body(), "keep me");
}

#[test]
fn second_esc_confirms_the_discard() {
    let mut s = QuickCapture::new();
    type_content(&mut s, "keep me");
    s.handle(Action::CaptureCancel);
    let out = s.handle(Action::CaptureCancel);
    assert!(closes(&out));
}

#[test]
fn a_keystroke_after_the_warning_resumes_editing() {
    let mut s = QuickCapture::new();
    type_content(&mut s, "x");
    s.handle(Action::CaptureCancel);
    assert!(s.confirm_discard);
    s.handle(Action::CaptureKey(key('y')));
    assert!(!s.confirm_discard, "typing cancels the pending discard");
    assert_eq!(s.body(), "xy");
}

#[test]
fn a_save_that_fails_disarms_the_discard() {
    let mut s = QuickCapture::with_text("x");
    let out = s.handle(Action::CaptureCancel);
    assert_eq!(level(&out), Some(Level::Warning));
    s.handle(Action::CaptureSave);
    s.handle(Action::CaptureSaveFailed);
    assert!(!s.confirm_discard);
    assert_eq!(s.body(), "x", "the draft stays");
    let out = s.handle(Action::CaptureCancel);
    assert_eq!(level(&out), Some(Level::Warning), "the next Esc warns again");
    assert!(!closes(&out));
}

fn shown(s: &mut QuickCapture, width: u16, height: u16) -> Vec<String> {
    let cells = s.draw_body(width, height).expect("small enough to draw");
    assert_eq!(cells.len(), width as usize * height as usize);
    cells
        .chunks(width as usize)
        .map(|row| row.iter().map(|c| c.symbol.as_str()).collect::<String>())
        .collect()
}

#[test]
fn the_body_is_drawn_with_its_cursor() {
    let mut s = QuickCapture::new();
    assert_eq!(shown(&mut s, 20, 2), [" type your thought… ", "                    "]);
    type_content(&mut s, "ab");
    let cells = s.draw_body(4, 1).unwrap();
    assert_eq!(cells[0].symbol, "a");
    assert_eq!(cells[0].marks, 0);
    assert_eq!(cells[2].marks, REVERSED, "the cursor stands behind the text");
    s.field = Field::Book;
    let cells = s.draw_body(4, 1).unwrap();
    assert_eq!(cells[2].marks, 0, "no cursor while another field has the focus");
    assert_eq!(s.body(), "ab");
    assert!(s.draw_body(20_000, 1).is_none(), "no window is that wide");
}

#[test]
fn a_page_key_goes_by_the_drawn_window() {
    let text = (0..9).map(|i| i.to_string()).collect::<Vec<_>>().join("\n");
    let mut s = QuickCapture::new();
    s.content = make_textarea(&text);
    assert_eq!(shown(&mut s, 2, 3), ["0 ", "1 ", "2 "]);
    s.handle(Action::CaptureKey(KeyEvent::plain(KeyCode::PageDown)));
    assert_eq!(shown(&mut s, 2, 3), ["3 ", "4 ", "5 "]);
    s.handle(Action::CaptureKey(KeyEvent::plain(KeyCode::PageUp)));
    assert_eq!(shown(&mut s, 2, 3), ["0 ", "1 ", "2 "]);
    let mut end = QuickCapture::with_text(&text);
    assert_eq!(shown(&mut end, 2, 3), ["6 ", "7 ", "8 "], "the cursor is in the window");
}

#[test]
fn esc_on_an_empty_draft_closes_immediately() {
    let mut s = QuickCapture::new();
    let out = s.handle(Action::CaptureCancel);
    assert!(closes(&out));
}

#[test]
fn save_with_empty_content_warns_and_does_not_dispatch() {
    let mut s = QuickCapture::new();
    let out = s.handle(Action::CaptureSave);
    assert_eq!(level(&out), Some(Level::Warning));
    assert!(!s.pending);
    assert!(out.effects.is_empty());
}

#[test]
fn save_with_content_marks_pending() {
    let mut s = QuickCapture::new();
    type_content(&mut s, "a real thought");
    let out = s.handle(Action::CaptureSave);
    assert!(s.pending);
    match out.effects.as_slice() {
        [Effect::Call(Request::SaveNote { editing: None, input })] => {
            assert_eq!(input.content.as_deref(), Some("a real thought"));
        }
        other => panic!("expected one save, got {other:?}"),
    }
    // A save under way is not sent a second time.
    let again = s.handle(Action::CaptureSave);
    assert!(again.effects.is_empty());
}

#[test]
fn build_input_anchors_a_book_and_page() {
    let mut s = QuickCapture::new();
    s.content = make_textarea("SICP blocks");
    s.book_id = Some(3);
    s.page = LineInput::new("142".into());
    let body = s.build_input();
    assert_eq!(body.book_id, Some(3));
    assert_eq!(body.title, "SICP blocks");
    let anchors = body.anchors.expect("a page yields an anchor");
    assert_eq!(anchors[0].page, Some(142));
}

#[test]
fn build_input_book_only_links_without_an_anchor() {
    let mut s = QuickCapture::new();
    s.content = make_textarea("loose-ish");
    s.book_id = Some(9);
    let body = s.build_input();
    assert_eq!(body.book_id, Some(9));
    assert!(body.anchors.is_none());
}

#[test]
fn build_input_loose_note_has_no_book_or_anchor() {
    let mut s = QuickCapture::new();
    s.content = make_textarea("just a thought");
    let body = s.build_input();
    assert!(body.book_id.is_none());
    assert!(body.anchors.is_none());
}

#[test]
fn with_text_prefills_a_new_draft() {
    let s = QuickCapture::with_text("closures are objects");
    assert_eq!(s.body(), "closures are objects");
    assert!(s.editing.is_none());
    assert!(s.has_input());
}

#[test]
fn for_edit_prefills_content_book_and_editing_id() {
    let mut n = note(55, "old title");
    n.content = Some("old body\nline two".into());
    n.book_id = Some(3);
    n.book_title = Some("SICP".into());
    n.citations = vec![cite(Some(42))];
    let s = QuickCapture::for_edit(n);
    assert_eq!(s.editing, Some(55));
    assert_eq!(s.body(), "old body\nline two");
    assert_eq!(s.book_id, Some(3));
    assert_eq!(s.page.value(), "42");
}

#[test]
fn anchor_picker_open_without_a_book_warns_and_does_not_mount() {
    let mut s = QuickCapture::new();
    let out = s.handle(Action::CaptureAnchorPickerOpen);
    assert_eq!(level(&out), Some(Level::Warning));
    assert!(s.anchor_picker.is_none());
}

#[test]
fn anchor_picker_fetch_then_load_mounts_the_picker() {
    let mut s = QuickCapture::new();
    s.book_id = Some(11);
    let out = s.handle(Action::CaptureAnchorPickerOpen);
    assert_eq!(level(&out), Some(Level::Info));
    assert!(matches!(out.effects.as_slice(), [Effect::Call(Request::LoadAnchors(11))]));
    assert!(s.anchor_loading);
    assert!(s.anchor_picker.is_none());
    s.handle(Action::CaptureAnchorDataLoaded(Box::new(sicp_anchor_data())));
    assert!(!s.anchor_loading);
    assert!(s.anchor_picker.is_some());
}

#[test]
fn anchor_picker_pins_a_chapter_then_a_section_into_the_body() {
    let mut s = QuickCapture::new();
    s.content = make_textarea("MVCC keeps one version");
    s.book_id = Some(11);
    s.anchor_data = Some(sicp_anchor_data());
    s.handle(Action::CaptureAnchorPickerOpen);
    assert!(s.anchor_picker.is_some());

    s.handle(Action::CaptureAnchorPickerSubmit);
    assert_eq!(s.chapter_id, Some(3));
    assert_eq!(s.section_id, None);
    assert!(s.anchor_touched);
    assert!(s.anchor_picker.is_none());
    let anchors = s.build_input().anchors.expect("a chapter yields an anchor");
    assert_eq!(anchors[0].chapter_id, Some(3));
    assert_eq!(anchors[0].section_id, None);

    s.handle(Action::CaptureAnchorPickerOpen);
    s.handle(Action::CaptureAnchorMove(2));
    s.handle(Action::CaptureAnchorPickerSubmit);
    assert_eq!(s.chapter_id, Some(3));
    assert_eq!(s.section_id, Some(32));
    let anchors = s.build_input().anchors.expect("a section yields an anchor");
    assert_eq!(anchors[0].chapter_id, Some(3));
    assert_eq!(anchors[0].section_id, Some(32));
}

#[test]
fn anchor_picker_filter_then_cancel_leaves_the_anchor_untouched() {
    let mut s = QuickCapture::new();
    s.book_id = Some(11);
    s.anchor_data = Some(sicp_anchor_data());
    s.handle(Action::CaptureAnchorPickerOpen);
    s.handle(Action::CaptureAnchorInput('e'));
    s.handle(Action::CaptureAnchorPickerClose);
    assert!(s.anchor_picker.is_none());
    assert_eq!(s.chapter_id, None);
    assert!(!s.anchor_touched);
}

#[test]
fn edit_without_touching_the_anchor_omits_it_from_the_patch() {
    let mut n = note(55, "MVCC");
    n.content = Some("MVCC keeps one version".into());
    n.book_id = Some(3);
    n.book_title = Some("SICP".into());
    let mut c = cite(Some(142));
    c.book_chapter_id = Some(3);
    n.citations = vec![c];
    let s = QuickCapture::for_edit(n);
    assert!(!s.anchor_touched);
    let body = s.build_input();
    assert!(
        body.anchors.is_none(),
        "an untouched edit omits anchors (citations stay put)"
    );
    assert_eq!(body.book_id, Some(3));
}

#[test]
fn edit_that_pins_a_new_anchor_replaces_it_on_the_patch() {
    let mut n = note(55, "MVCC");
    n.content = Some("MVCC keeps one version".into());
    n.book_id = Some(11);
    n.book_title = Some("SICP".into());
    n.citations = vec![cite(Some(142))];
    let mut s = QuickCapture::for_edit(n);
    s.anchor_data = Some(sicp_anchor_data());
    s.handle(Action::CaptureAnchorPickerOpen);
    s.handle(Action::CaptureAnchorPickerSubmit);
    assert!(s.anchor_touched);
    let anchors = s.build_input().anchors.expect("the touched anchor is sent");
    assert_eq!(anchors[0].chapter_id, Some(3));
}

#[test]
fn for_edit_seeds_chapter_and_section_from_the_citation() {
    let mut n = note(7, "t");
    n.book_id = Some(11);
    n.book_title = Some("SICP".into());
    n.citations = vec![Citation {
        address_label: Some("ch 3 · §3.2 · p.294".into()),
        page: Some(294),
        book_chapter_id: Some(3),
        book_section_id: Some(32),
    }];
    let s = QuickCapture::for_edit(n);
    assert_eq!(s.chapter_id, Some(3));
    assert_eq!(s.section_id, Some(32));
    assert_eq!(s.anchor_echo.as_deref(), Some("ch 3 · §3.2 · p.294"));
    assert!(!s.anchor_touched);
}

// Edge cases and laws on concrete values.

#[test]
fn the_draft_takes_keys_where_its_cursor_stands() {
    let mut s = QuickCapture::with_text("one\ntwo");
    s.handle(Action::CaptureKey(key('!')));
    assert_eq!(s.body(), "one\ntwo!", "the cursor opens behind the text");
    s.handle(Action::CaptureKey(KeyEvent::plain(KeyCode::Enter)));
    s.handle(Action::CaptureKey(key('x')));
    assert_eq!(s.body(), "one\ntwo!\nx");
    s.handle(Action::CaptureKey(KeyEvent::plain(KeyCode::Backspace)));
    assert_eq!(s.body(), "one\ntwo!\n");
}

#[test]
fn a_body_that_was_set_reads_back() {
    let mut s = QuickCapture::new();
    s.set_content("from the editor\n\nlast");
    assert_eq!(s.body(), "from the editor\n\nlast");
}

#[test]
fn tab_walks_the_fields_and_comes_back() {
    let mut s = QuickCapture::new();
    let start = s.field;
    s.handle(Action::CaptureFieldNext);
    assert!(s.field != start);
    s.handle(Action::CaptureFieldPrev);
    assert_eq!(s.field, start);
    assert_eq!(start, Field::Content);
}

#[test]
fn the_overlay_translates_its_own_chords() {
    let s = QuickCapture::new();
    let ctrl = |c| KeyEvent::new(KeyCode::Char(c), Modifiers::control());
    assert!(matches!(s.translate(ctrl('s')), Some(Action::CaptureSave)));
    assert!(matches!(s.translate(ctrl('e')), Some(Action::CaptureEditExternal)));
    assert!(matches!(
        s.translate(KeyEvent::plain(KeyCode::Esc)),
        Some(Action::CaptureCancel)
    ));
    assert!(matches!(s.translate(key('q')), Some(Action::CaptureKey(_))));
}

#[test]
fn another_book_drops_the_pinned_place() {
    let mut s = QuickCapture::new();
    s.book_id = Some(11);
    s.chapter_id = Some(3);
    s.section_id = Some(32);
    s.picking = true;
    s.book_results = vec![Book {
        id: 12,
        title: "TAPL".into(),
        author: None,
        status: BookStatus::Reading,
        current_page: None,
        page_count: None,
        current_chapter_id: None,
        progress: None,
    }];
    s.book_cursor = Some(0);
    s.handle(Action::CaptureBookPickerSubmit);
    assert_eq!(s.book_id, Some(12));
    assert_eq!(s.chapter_id, None);
    assert_eq!(s.section_id, None);
}

#[test]
fn a_save_answers_with_the_close_or_the_failure() {
    assert!(matches!(saved(Ok(())).as_slice(), [Action::CaptureSaved]));
    let fault = Fault { kind: FaultKind::Other, shown: "boom".into() };
    match saved(Err(fault)).as_slice() {
        [Action::Notify { level: Level::Error, text }, Action::CaptureSaveFailed] => {
            assert_eq!(text, "save failed: boom");
        }
        other => panic!("expected the failure, got {other:?}"),
    }
    let lost = Fault { kind: FaultKind::Transport, shown: "gone".into() };
    assert!(matches!(
        anchors_read(Err(lost)),
        Action::Notify { level: Level::Error, text } if text == "chapters unavailable: gone"
    ));
}
