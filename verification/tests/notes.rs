//! The notes browser.

use engineer::action::{Action, Effect, Outcome, Request};
use engineer::keys::{KeyCode, KeyEvent};
use engineer::model::{Citation, Fault, FaultKind, Note, WriteReply};
use engineer::notify::Level;
use engineer::screens::notes::{
    anchor_line, archived, deleted, detail_lines, listed, note_headline, note_list_item, unlinked,
    Notes,
};

fn note(id: i64, title: &str) -> Note {
    Note {
        id,
        title: title.into(),
        content: None,
        book_id: None,
        book_title: None,
        archived_at: None,
        citations: vec![],
    }
}

fn level(out: &Outcome) -> Option<Level> {
    out.note.as_ref().map(|(l, _)| *l)
}

fn key(c: char) -> KeyEvent {
    KeyEvent::plain(KeyCode::Char(c))
}

#[test]
fn loaded_sets_items_and_clamps_selection() {
    let mut s = Notes::default();
    s.cursor = Some(9);
    s.handle(Action::NotesLoaded(vec![note(1, "a"), note(2, "b")]));
    assert_eq!(s.items.len(), 2);
    assert_eq!(s.cursor, Some(1));
}

#[test]
fn notes_loaded_empty_deselects() {
    let mut s = Notes::default();
    s.handle(Action::NotesLoaded(vec![]));
    assert_eq!(s.cursor, None);
}

#[test]
fn move_clamps_within_bounds() {
    let mut s = Notes::default();
    s.handle(Action::NotesLoaded(vec![note(1, "a"), note(2, "b")]));
    s.handle(Action::NotesMove(-5));
    assert_eq!(s.cursor, Some(0));
    s.handle(Action::NotesMove(5));
    assert_eq!(s.cursor, Some(1));
}

#[test]
fn search_input_builds_query_then_submit_exits_search() {
    let mut s = Notes::default();
    s.searching = true;
    for c in "blocks".chars() {
        s.handle(Action::NotesSearchInput(c));
    }
    assert_eq!(s.query, "blocks");
    s.handle(Action::NotesSearchSubmit);
    assert!(!s.searching);
    assert_eq!(s.query, "blocks");
}

#[test]
fn cancel_search_clears_query() {
    let mut s = Notes::default();
    s.searching = true;
    s.query = "x".into();
    s.handle(Action::NotesSearchCancel);
    assert!(!s.searching);
    assert!(s.query.is_empty());
}

#[test]
fn toggle_archived_flips_the_flag() {
    let mut s = Notes::default();
    assert!(!s.show_archived);
    s.handle(Action::NotesToggleArchived);
    assert!(s.show_archived);
    s.handle(Action::NotesToggleArchived);
    assert!(!s.show_archived);
}

#[test]
fn notes_open_then_close_detail_transitions() {
    let mut s = Notes::default();
    s.handle(Action::NotesLoaded(vec![note(7, "a")]));
    s.handle(Action::NotesOpenDetail);
    assert!(s.detail.is_some());
    s.handle(Action::NotesCloseDetail);
    assert!(s.detail.is_none());
}

#[test]
fn edit_selected_dispatches_capture_open_edit() {
    let mut s = Notes::default();
    s.handle(Action::NotesLoaded(vec![note(42, "edit me")]));
    let out = s.handle(Action::NotesEditSelected);
    match out.effects.as_slice() {
        [Effect::Send(Action::CaptureOpenEdit(n))] => assert_eq!(n.id, 42),
        other => panic!("expected CaptureOpenEdit, got {other:?}"),
    }
}

#[test]
fn anchor_line_reads_back_book_and_address_label() {
    let mut n = note(1, "closures");
    n.book_id = Some(3);
    n.book_title = Some("SICP".into());
    n.citations = vec![Citation {
        address_label: Some("ch 3 · p.142".into()),
        page: Some(142),
        book_chapter_id: None,
        book_section_id: None,
    }];
    assert_eq!(anchor_line(&n).as_deref(), Some("SICP · ch 3 · p.142"));
}

#[test]
fn anchor_line_falls_back_to_bare_page() {
    let mut n = note(1, "t");
    n.book_title = Some("TAPL".into());
    n.citations = vec![Citation {
        address_label: None,
        page: Some(88),
        book_chapter_id: None,
        book_section_id: None,
    }];
    assert_eq!(anchor_line(&n).as_deref(), Some("TAPL · p.88"));
}

#[test]
fn anchor_line_is_none_for_a_loose_note() {
    let n = note(1, "just a thought");
    assert_eq!(anchor_line(&n), None);
}

#[test]
fn headline_falls_back_to_content_head_when_title_blank() {
    let mut n = note(1, "");
    n.content = Some("\n  first real line\nsecond".into());
    assert_eq!(note_headline(&n), "first real line");
}

#[test]
fn detail_maps_unlink_and_delete_keys_only_while_open() {
    let mut n = note(4, "t");
    n.book_id = Some(11);
    let mut s = Notes::default();
    s.detail = Some(n);
    assert!(matches!(s.intercept_key(key('u')), Some(Action::NotesUnlinkSelected)));
    assert!(matches!(s.intercept_key(key('X')), Some(Action::NotesDeleteArm)));
    assert!(matches!(s.intercept_key(key('q')), Some(Action::NotesCloseDetail)));
    s.detail = None;
    assert!(s.intercept_key(key('X')).is_none());
    assert!(s.intercept_key(key('u')).is_none());
}

#[test]
fn delete_arms_then_a_second_press_confirms() {
    let mut s = Notes::default();
    s.detail = Some(note(9, "doomed"));
    assert!(matches!(s.intercept_key(key('X')), Some(Action::NotesDeleteArm)));
    let out = s.handle(Action::NotesDeleteArm);
    assert_eq!(level(&out), Some(Level::Warning));
    assert!(out.effects.is_empty());
    assert!(s.delete_armed);
    assert!(matches!(s.intercept_key(key('X')), Some(Action::NotesDeleteConfirm)));
    let out = s.handle(Action::NotesDeleteConfirm);
    assert!(matches!(out.effects.as_slice(), [Effect::Call(Request::DeleteNote(9))]));
    assert!(!s.delete_armed);
}

#[test]
fn delete_disarms_on_any_other_key() {
    let mut s = Notes::default();
    s.detail = Some(note(9, "doomed"));
    s.intercept_key(key('X'));
    s.handle(Action::NotesDeleteArm);
    assert!(s.delete_armed);
    assert!(matches!(s.intercept_key(key('j')), Some(Action::NotesDeleteDisarm)));
    let out = s.handle(Action::NotesDeleteDisarm);
    assert_eq!(level(&out), Some(Level::Info));
    assert!(!s.delete_armed);
}

#[test]
fn closing_the_detail_disarms_a_pending_delete() {
    let mut s = Notes::default();
    s.detail = Some(note(9, "doomed"));
    s.handle(Action::NotesDeleteArm);
    assert!(s.delete_armed);
    s.handle(Action::NotesCloseDetail);
    assert!(!s.delete_armed);
    assert!(s.detail.is_none());
}

#[test]
fn unlink_a_loose_note_refuses_honestly() {
    let mut s = Notes::default();
    s.detail = Some(note(5, "loose"));
    let out = s.handle(Action::NotesUnlinkSelected);
    assert_eq!(level(&out), Some(Level::Warning));
    assert!(out.effects.is_empty());
    assert!(s.detail.is_some());
}

#[test]
fn offline_archive_queues_a_note_archive_intent() {
    let mut s = Notes::default();
    s.items = vec![note(42, "shelve me")];
    let out = s.handle(Action::NotesArchiveSelected);
    assert!(matches!(
        out.effects.as_slice(),
        [Effect::Call(Request::ArchiveNote { id: 42, archived: false })]
    ));
    let sent = archived(false, WriteReply::Provisional(()));
    assert!(matches!(sent.as_slice(), [Action::Notify { level: Level::Info, .. }]));
}

#[test]
fn offline_unlink_queues_a_note_unlink_intent() {
    let mut n = note(4, "linked");
    n.book_id = Some(11);
    let mut s = Notes::default();
    s.detail = Some(n);
    let out = s.handle(Action::NotesUnlinkSelected);
    assert!(matches!(out.effects.as_slice(), [Effect::Call(Request::UnlinkNote(4))]));
    let sent = unlinked(WriteReply::Provisional(()));
    assert!(sent.iter().any(|a| matches!(a, Action::Notify { level: Level::Info, .. })));
}

#[test]
fn a_note_shows_as_its_headline_with_its_anchor_below() {
    let mut n = note(1, "closures");
    n.book_title = Some("SICP".into());
    n.archived_at = Some(1);
    let lines = note_list_item(&n);
    assert_eq!(lines[0].text(), "closures  (archived)");
    assert_eq!(lines[1].text(), "  SICP");
    let text: Vec<String> = detail_lines(&n, false).iter().map(|l| l.text()).collect();
    assert!(text.iter().any(|t| t.contains("closures")));
}

#[test]
fn finished_note_calls_answer_in_words() {
    let fault = || Fault { kind: FaultKind::Other, shown: "boom".into() };
    assert!(listed(Err(fault()))
        .iter()
        .any(|a| matches!(a, Action::Notify { level: Level::Error, text } if text.contains("boom"))));
    assert!(deleted(Err(fault()))
        .iter()
        .any(|a| matches!(a, Action::Notify { level: Level::Error, text } if text.contains("boom"))));
    assert!(deleted(Ok(())).iter().any(|a| matches!(a, Action::RefreshNotes)));
}
