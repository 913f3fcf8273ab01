//! Notes browser: lists, searches, reads, archives, detaches and deletes notes,
//! and hands one to the capture overlay for an edit. Archived notes are dimmed
//! in place; a permanent delete asks twice.

use crate::action::{notice, notifies, one, three, two, Action, Effect, Outcome, Request};
use crate::cursor::{in_list, select_clamp, select_clamped, select_step, select_stepped};
use crate::keys::{KeyCode, KeyEvent};
use crate::line::{no_lines, page, plain_lines, push_line, push_plain_lines, Footer, Line, Tone};
use crate::model::{Citation, Fault, FaultKind, Note, WriteReply};
use crate::notify::Level;
use crate::reply::{settle, settled};
use crate::text::{
    cat2, cat3, decimal, or_empty, own, pieces, show, split, text_or_empty, texts, trim, trimmed,
};
use vstd::prelude::*;

verus! {

/// The notes browser.
#[derive(Debug)]
pub struct Notes {
    pub items: Vec<Note>,
    pub cursor: Option<usize>,
    pub query: String,
    pub searching: bool,
    /// Whether archived notes are listed among the others.
    pub show_archived: bool,
    pub loading: bool,
    /// The note that the detail read shows, while it is open.
    pub detail: Option<Note>,
    /// A permanent delete caught its first press.
    pub delete_armed: bool,
}

impl Default for Notes {
    fn default() -> (res: Self)
        ensures
            res.fresh(),
    {
        Notes {
            items: Vec::new(),
            cursor: Some(0),
            query: String::new(),
            searching: false,
            show_archived: false,
            loading: false,
            detail: None,
            delete_armed: false,
        }
    }
}

impl Notes {
    /// A browser that has loaded nothing.
    pub open spec fn fresh(self) -> bool {
        &&& self.items@ == Seq::<Note>::empty()
        &&& self.cursor == Some(0usize)
        &&& self.query@ == Seq::<char>::empty()
        &&& !self.searching
        &&& !self.show_archived
        &&& !self.loading
        &&& self.detail is None
        &&& !self.delete_armed
    }

    /// The note under the cursor.
    pub open spec fn chosen(self) -> Option<Note> {
        match self.cursor {
            Some(i) => if i < self.items@.len() {
                Some(self.items@[i as int])
            } else {
                None
            },
            None => None,
        }
    }

    /// The note that the detail's gestures act on: the open one, else the one
    /// under the cursor.
    pub open spec fn subject(self) -> Option<Note> {
        if self.detail is Some {
            self.detail
        } else {
            self.chosen()
        }
    }

    /// Whether an effect is the read of the query and scope at hand.
    pub open spec fn fetches(self, e: Effect) -> bool {
        e matches Effect::Call(Request::ListNotes { query, with_archived }) && {
            &&& with_archived == self.show_archived
            &&& query is None <==> self.query@.len() == 0
            &&& query is Some ==> query->0 == self.query
        }
    }

    /// Nothing to say, and the read of `post` to make.
    pub open spec fn rereads(out: Outcome, post: Self) -> bool {
        &&& out.note is None
        &&& out.effects@.len() == 1
        &&& post.fetches(out.effects@[0])
    }

    /// How the browser answers an action.
    pub open spec fn handled(pre: Self, action: Action, post: Self, out: Outcome) -> bool {
        match action {
            Action::NotesLoaded(notes) => {
                &&& post == Notes {
                    items: notes,
                    loading: false,
                    cursor: select_clamped(pre.cursor, notes@.len() as int),
                    ..pre
                }
                &&& out.quiet()
            },
            Action::NotesMove(d) => {
                &&& post == Notes {
                    cursor: select_stepped(pre.cursor, d as int, pre.items@.len() as int),
                    ..pre
                }
                &&& out.quiet()
            },
            Action::NotesJumpStart => {
                &&& post == Notes {
                    cursor: if pre.items@.len() > 0 {
                        Some(0usize)
                    } else {
                        None
                    },
                    ..pre
                }
                &&& out.quiet()
            },
            Action::NotesJumpEnd => {
                &&& post == Notes {
                    cursor: if pre.items@.len() > 0 {
                        Some((pre.items@.len() - 1) as usize)
                    } else {
                        pre.cursor
                    },
                    ..pre
                }
                &&& out.quiet()
            },
            Action::NotesSearchInput(c) => {
                &&& post == Notes { query: post.query, ..pre }
                &&& post.query@ == pre.query@.push(c)
                &&& out.quiet()
            },
            Action::NotesSearchBackspace => {
                &&& post == Notes { query: post.query, ..pre }
                &&& post.query@ == (if pre.query@.len() > 0 {
                    pre.query@.drop_last()
                } else {
                    pre.query@
                })
                &&& out.quiet()
            },
            Action::NotesSearchSubmit => {
                &&& post == Notes { searching: false, loading: true, ..pre }
                &&& Self::rereads(out, post)
            },
            Action::NotesSearchCancel => {
                &&& post == Notes { searching: false, loading: true, query: post.query, ..pre }
                &&& post.query@ == Seq::<char>::empty()
                &&& Self::rereads(out, post)
            },
            Action::NotesToggleArchived => {
                &&& post == Notes { show_archived: !pre.show_archived, loading: true, ..pre }
                &&& Self::rereads(out, post)
            },
            Action::RefreshNotes => {
                &&& post == Notes { loading: true, ..pre }
                &&& Self::rereads(out, post)
            },
            Action::NotesOpenDetail => match pre.chosen() {
                None => post == pre && out.quiet(),
                Some(n) => {
                    &&& post == Notes { detail: post.detail, ..pre }
                    &&& post.detail is Some
                    &&& post.detail->0.alike(n)
                    &&& out.asks(seq![Effect::Call(Request::GetNote(n.id))])
                },
            },
            Action::NotesDetailLoaded(note) => {
                &&& post == Notes {
                    detail: if pre.detail is Some {
                        Some(*note)
                    } else {
                        None
                    },
                    ..pre
                }
                &&& out.quiet()
            },
            Action::NotesCloseDetail => {
                &&& post == Notes { detail: None, delete_armed: false, ..pre }
                &&& out.quiet()
            },
            Action::NotesArchiveSelected => {
                &&& post == pre
                &&& match pre.chosen() {
                    None => out.quiet(),
                    Some(n) => out.asks(
                        seq![
                            Effect::Call(
                                Request::ArchiveNote { id: n.id, archived: n.archived_at is Some },
                            ),
                        ],
                    ),
                }
            },
            Action::NotesEditSelected => {
                &&& post == pre
                &&& match pre.chosen() {
                    None => out.quiet(),
                    Some(n) => {
                        &&& out.note is None
                        &&& out.effects@.len() == 1
                        &&& out.effects@[0] matches Effect::Send(Action::CaptureOpenEdit(b))
                            && b.alike(n)
                    },
                }
            },
            Action::NotesUnlinkSelected => {
                &&& post == pre
                &&& match pre.subject() {
                    None => out.quiet(),
                    Some(n) => if n.book_id is Some || n.book_title is Some {
                        out.asks(seq![Effect::Call(Request::UnlinkNote(n.id))])
                    } else {
                        out.says(Level::Warning, "not linked to a book"@)
                    },
                }
            },
            Action::NotesDeleteArm => {
                &&& post == Notes { delete_armed: true, ..pre }
                &&& out.says(Level::Warning, "delete (permanent) — press X again to confirm"@)
            },
            Action::NotesDeleteDisarm => {
                &&& post == Notes { delete_armed: false, ..pre }
                &&& out.says(Level::Info, "delete cancelled"@)
            },
            Action::NotesDeleteConfirm => {
                &&& post == Notes { delete_armed: false, ..pre }
                &&& match pre.subject() {
                    None => out.quiet(),
                    Some(n) => out.asks(seq![Effect::Call(Request::DeleteNote(n.id))]),
                }
            },
            _ => post == pre && out.quiet(),
        }
    }

    fn fetch(&self) -> (res: Effect)
        ensures
            self.fetches(res),
    {
        let query = if self.query.as_str().is_empty() {
            None
        } else {
            Some(self.query.clone())
        };
        Effect::Call(Request::ListNotes { query, with_archived: self.show_archived })
    }

    /// Entering the screen reads the list.
    pub fn on_enter(&mut self) -> (out: Vec<Effect>)
        ensures
            *final(self) == (Notes { loading: true, ..*old(self) }),
            out@.len() == 1,
            old(self).fetches(out@[0]),
    {
        self.loading = true;
        let mut out: Vec<Effect> = Vec::new();
        out.push(self.fetch());
        out
    }

    fn selected(&self) -> (res: Option<&Note>)
        ensures
            res is Some <==> self.chosen() is Some,
            res is Some ==> *res->0 == self.chosen()->0,
    {
        match self.cursor {
            Some(i) => if i < self.items.len() {
                Some(&self.items[i])
            } else {
                None
            },
            None => None,
        }
    }

    fn subject_note(&self) -> (res: Option<&Note>)
        ensures
            res is Some <==> self.subject() is Some,
            res is Some ==> *res->0 == self.subject()->0,
    {
        match &self.detail {
            Some(n) => Some(n),
            None => self.selected(),
        }
    }

    /// How the browser answers an action.
    pub fn handle(&mut self, action: Action) -> (out: Outcome)
        ensures
            Self::handled(*old(self), action, *final(self), out),
    {
        match action {
            Action::NotesLoaded(notes) => {
                self.items = notes;
                self.loading = false;
                self.cursor = select_clamp(self.cursor, self.items.len());
            },
            Action::NotesMove(d) => {
                self.cursor = select_step(self.cursor, d, self.items.len());
            },
            Action::NotesJumpStart => {
                self.cursor = if self.items.len() > 0 {
                    Some(0)
                } else {
                    None
                };
            },
            Action::NotesJumpEnd => {
                if self.items.len() > 0 {
                    self.cursor = Some(self.items.len() - 1);
                }
            },
            Action::NotesSearchInput(c) => self.query.push(c),
            Action::NotesSearchBackspace => {
                let _ = self.query.pop();
            },
            Action::NotesSearchSubmit => {
                self.searching = false;
                self.loading = true;
                return Outcome::ask(self.fetch());
            },
            Action::NotesSearchCancel => {
                self.searching = false;
                self.query.clear();
                self.loading = true;
                return Outcome::ask(self.fetch());
            },
            Action::NotesToggleArchived => {
                self.show_archived = !self.show_archived;
                self.loading = true;
                return Outcome::ask(self.fetch());
            },
            Action::RefreshNotes => {
                self.loading = true;
                return Outcome::ask(self.fetch());
            },
            Action::NotesOpenDetail => {
                let picked = match self.selected() {
                    Some(n) => Some(n.clone()),
                    None => None,
                };
                if let Some(note) = picked {
                    let id: i64 = note.id;
                    self.detail = Some(note);
                    return Outcome::call(Request::GetNote(id));
                }
            },
            Action::NotesDetailLoaded(note) => {
                if self.detail.is_some() {
                    self.detail = Some(*note);
                }
            },
            Action::NotesCloseDetail => {
                self.detail = None;
                self.delete_armed = false;
            },
            Action::NotesArchiveSelected => {
                if let Some(n) = self.selected() {
                    return Outcome::call(
                        Request::ArchiveNote { id: n.id, archived: n.archived_at.is_some() },
                    );
                }
            },
            Action::NotesEditSelected => {
                if let Some(n) = self.selected() {
                    return Outcome::send(Action::CaptureOpenEdit(Box::new(n.clone())));
                }
            },
            Action::NotesUnlinkSelected => {
                if let Some(n) = self.subject_note() {
                    return if n.book_id.is_some() || n.book_title.is_some() {
                        Outcome::call(Request::UnlinkNote(n.id))
                    } else {
                        Outcome::say(Level::Warning, own("not linked to a book"))
                    };
                }
            },
            Action::NotesDeleteArm => {
                self.delete_armed = true;
                return Outcome::say(
                    Level::Warning,
                    own("delete (permanent) — press X again to confirm"),
                );
            },
            Action::NotesDeleteDisarm => {
                self.delete_armed = false;
                return Outcome::say(Level::Info, own("delete cancelled"));
            },
            Action::NotesDeleteConfirm => {
                self.delete_armed = false;
                if let Some(n) = self.subject_note() {
                    return Outcome::call(Request::DeleteNote(n.id));
                }
            },
            _ => {},
        }
        Outcome::none()
    }

    /// How the detail read and the search prompt take a key.
    pub open spec fn intercepted(
        pre: Self,
        key: KeyEvent,
        post: Self,
        res: Option<Action>,
    ) -> bool {
        if pre.detail is Some && pre.delete_armed {
            &&& post == pre
            &&& res == Some(
                if key.code == KeyCode::Char('X') {
                    Action::NotesDeleteConfirm
                } else {
                    Action::NotesDeleteDisarm
                },
            )
        } else if pre.detail is Some {
            &&& post == pre
            &&& res == (match key.code {
                KeyCode::Esc | KeyCode::Enter | KeyCode::Char('h') | KeyCode::Char('q') => Some(
                    Action::NotesCloseDetail,
                ),
                KeyCode::Char('u') => Some(Action::NotesUnlinkSelected),
                KeyCode::Char('X') => Some(Action::NotesDeleteArm),
                _ => None,
            })
        } else if pre.searching {
            &&& post == pre
            &&& res == (match key.code {
                KeyCode::Esc => Some(Action::NotesSearchCancel),
                KeyCode::Enter => Some(Action::NotesSearchSubmit),
                KeyCode::Backspace => Some(Action::NotesSearchBackspace),
                KeyCode::Char(c) => Some(Action::NotesSearchInput(c)),
                _ => None,
            })
        } else if key.code == KeyCode::Char('/') {
            &&& post == Notes { searching: true, query: post.query, ..pre }
            &&& post.query@ == Seq::<char>::empty()
            &&& res is Some
            &&& notifies(res->0, Level::Info, "search: type then Enter"@)
        } else {
            post == pre && res is None
        }
    }

    /// The detail read and the search prompt own keys before the global keymap.
    pub fn intercept_key(&mut self, key: KeyEvent) -> (res: Option<Action>)
        ensures
            Self::intercepted(*old(self), key, *final(self), res),
    {
        if self.detail.is_some() {
            if self.delete_armed {
                return Some(
                    if key.code == KeyCode::Char('X') {
                        Action::NotesDeleteConfirm
                    } else {
                        Action::NotesDeleteDisarm
                    },
                );
            }
            return match key.code {
                KeyCode::Esc | KeyCode::Enter | KeyCode::Char('h') | KeyCode::Char('q') => Some(
                    Action::NotesCloseDetail,
                ),
                KeyCode::Char('u') => Some(Action::NotesUnlinkSelected),
                KeyCode::Char('X') => Some(Action::NotesDeleteArm),
                _ => None,
            };
        }
        if !self.searching {
            if let KeyCode::Char('/') = key.code {
                self.searching = true;
                self.query.clear();
                return Some(notice(Level::Info, own("search: type then Enter")));
            }
            return None;
        }
        match key.code {
            KeyCode::Esc => Some(Action::NotesSearchCancel),
            KeyCode::Enter => Some(Action::NotesSearchSubmit),
            KeyCode::Backspace => Some(Action::NotesSearchBackspace),
            KeyCode::Char(c) => Some(Action::NotesSearchInput(c)),
            _ => None,
        }
    }

    // ---- what the panel says ----

    /// The panel's title.
    pub open spec fn title_text(self) -> Seq<char> {
        if self.searching || self.query@.len() > 0 {
            "Notes · /"@ + self.query@ + "_"@
        } else if self.show_archived {
            "Notes · incl. archived"@
        } else {
            "Notes"@
        }
    }

    /// The panel's title.
    pub fn panel_title(&self) -> (res: String)
        ensures
            res@ == self.title_text(),
    {
        if self.searching || !self.query.as_str().is_empty() {
            cat3("Notes · /", self.query.as_str(), "_")
        } else if self.show_archived {
            own("Notes · incl. archived")
        } else {
            own("Notes")
        }
    }

    /// What stands in place of the list, where it is empty.
    pub open spec fn empty_text(self) -> Option<&'static str> {
        if self.items@.len() > 0 {
            None
        } else if self.loading {
            Some("loading…")
        } else if self.query@.len() == 0 {
            Some("No notes yet. Press <Space>c anywhere to capture one.")
        } else {
            Some("No notes match that search.")
        }
    }

    /// What stands in place of the list, where it is empty.
    pub fn empty_message(&self) -> (res: Option<&'static str>)
        ensures
            res == self.empty_text(),
    {
        if self.items.len() > 0 {
            None
        } else if self.loading {
            Some("loading…")
        } else if self.query.as_str().is_empty() {
            Some("No notes yet. Press <Space>c anywhere to capture one.")
        } else {
            Some("No notes match that search.")
        }
    }

    /// What the footer offers.
    pub open spec fn offered(self, f: Footer) -> bool {
        if self.delete_armed {
            f.reads(Tone::Focused, "delete (permanent) — X again to confirm · any key cancels"@)
        } else if self.detail is Some {
            f.offers(
                seq![
                    ("e", "edit"),
                    ("a", "archive"),
                    ("u", "detach book"),
                    ("X", "delete"),
                    ("q", "back"),
                ],
            )
        } else if self.searching {
            f.reads(Tone::Muted, "type to search · Enter to apply · Esc to cancel"@)
        } else {
            f.offers(
                seq![
                    ("j/k", "move"),
                    ("↵", "open"),
                    ("/", "search"),
                    ("a", "archive"),
                    ("e", "edit"),
                    ("t", "archived"),
                    ("h", "back"),
                ],
            )
        }
    }

    /// What the footer offers.
    pub fn hints(&self) -> (res: Footer)
        ensures
            self.offered(res),
    {
        if self.delete_armed {
            return Footer::Text(
                Line::of(
                    Tone::Focused,
                    own("delete (permanent) — X again to confirm · any key cancels"),
                ),
            );
        }
        if self.detail.is_some() {
            return Footer::Keys(
                vec![
                    ("e", "edit"),
                    ("a", "archive"),
                    ("u", "detach book"),
                    ("X", "delete"),
                    ("q", "back"),
                ],
            );
        }
        if self.searching {
            return Footer::Text(
                Line::of(Tone::Muted, own("type to search · Enter to apply · Esc to cancel")),
            );
        }
        Footer::Keys(
            vec![
                ("j/k", "move"),
                ("↵", "open"),
                ("/", "search"),
                ("a", "archive"),
                ("e", "edit"),
                ("t", "archived"),
                ("h", "back"),
            ],
        )
    }
}

// ---- one note in words ----

/// The first piece with more than white space in it, trimmed.
pub open spec fn first_filled(parts: Seq<Seq<char>>) -> Option<Seq<char>>
    decreases parts.len(),
{
    if parts.len() == 0 {
        None
    } else if trimmed(parts[0]).len() > 0 {
        Some(trimmed(parts[0]))
    } else {
        first_filled(parts.drop_first())
    }
}

/// The one-line preview: the title, else the first filled line of the content.
pub open spec fn headline(note: Note) -> Seq<char> {
    if trimmed(note.title@).len() > 0 {
        trimmed(note.title@)
    } else {
        match first_filled(pieces(or_empty(note.content), '\n')) {
            Some(line) => line,
            None => "(empty note)"@,
        }
    }
}

/// The one-line preview of a note.
pub fn note_headline(note: &Note) -> (res: String)
    ensures
        res@ == headline(*note),
{
    let title = trim(note.title.as_str());
    if !title.as_str().is_empty() {
        return title;
    }
    let lines = split(text_or_empty(&note.content).as_str(), '\n');
    let mut i: usize = 0;
    assert(texts(lines@).skip(0) =~= texts(lines@));
    while i < lines.len()
        invariant
            i <= lines.len(),
            trimmed(note.title@).len() == 0,
            texts(lines@) == pieces(or_empty(note.content), '\n'),
            first_filled(texts(lines@).skip(i as int)) == first_filled(texts(lines@)),
        decreases lines.len() - i,
    {
        let line = trim(lines[i].as_str());
        assert(texts(lines@).skip(i as int)[0] == lines@[i as int]@);
        if !line.as_str().is_empty() {
            return line;
        }
        assert(texts(lines@).skip(i as int).drop_first() =~= texts(lines@).skip(i as int + 1));
        i = i + 1;
    }
    own("(empty note)")
}

/// The place of a citation: the server's own words, else its page.
pub open spec fn place(c: Citation) -> Option<Seq<char>> {
    if c.address_label is Some {
        Some(c.address_label->0@)
    } else {
        match c.page {
            Some(p) => Some("p."@ + decimal(p as nat)),
            None => None,
        }
    }
}

/// The one-line anchor of a note: its book, and the place of its first
/// citation. None for a loose note.
pub open spec fn anchor_text(note: Note) -> Option<Seq<char>> {
    let book = if note.book_title is Some {
        note.book_title->0@
    } else {
        "book"@
    };
    if note.book_id is None && note.book_title is None {
        None
    } else if note.citations@.len() > 0 && place(note.citations@[0]) is Some {
        Some(book + " · "@ + place(note.citations@[0])->0)
    } else {
        Some(book)
    }
}

/// The one-line anchor of a note.
pub fn anchor_line(note: &Note) -> (res: Option<String>)
    ensures
        res is Some <==> anchor_text(*note) is Some,
        res matches Some(s) ==> s@ == anchor_text(*note)->0,
{
    if note.book_id.is_none() && note.book_title.is_none() {
        return None;
    }
    let book = match &note.book_title {
        Some(t) => t.clone(),
        None => own("book"),
    };
    if note.citations.len() > 0 {
        let c = &note.citations[0];
        if let Some(label) = &c.address_label {
            return Some(cat3(book.as_str(), " · ", label.as_str()));
        }
        if let Some(p) = c.page {
            let place = cat2("p.", show(p as u64).as_str());
            return Some(cat3(book.as_str(), " · ", place.as_str()));
        }
    }
    Some(book)
}

/// A note as the list shows it: its headline, dimmed where archived, and its
/// anchor beneath.
pub open spec fn item_page(note: Note) -> Seq<Seq<(Tone, Seq<char>)>> {
    let head = if note.archived_at is Some {
        seq![(Tone::Muted, headline(note)), (Tone::Muted, "  (archived)"@)]
    } else {
        seq![(Tone::Bold, headline(note)), (Tone::Plain, ""@)]
    };
    match anchor_text(note) {
        Some(a) => seq![head, seq![(Tone::Muted, "  "@ + a)]],
        None => seq![head],
    }
}

/// A note as the list shows it.
pub fn note_list_item(note: &Note) -> (res: Vec<Line>)
    ensures
        page(res@) == item_page(*note),
{
    let mut lines = no_lines();
    let head = if note.archived_at.is_some() {
        Line::of(Tone::Muted, note_headline(note)).with(Tone::Muted, own("  (archived)"))
    } else {
        Line::of(Tone::Bold, note_headline(note)).with(Tone::Plain, own(""))
    };
    push_line(&mut lines, head);
    if let Some(a) = anchor_line(note) {
        push_line(&mut lines, Line::of(Tone::Muted, cat2("  ", a.as_str())));
    }
    assert(page(lines@) =~~= item_page(*note));
    lines
}

/// The labels of the citations that have one.
pub open spec fn cited(citations: Seq<Citation>) -> Seq<Seq<(Tone, Seq<char>)>>
    decreases citations.len(),
{
    if citations.len() == 0 {
        Seq::empty()
    } else {
        let before = cited(citations.drop_last());
        match citations.last().address_label {
            Some(label) => before.push(seq![(Tone::Muted, "  · "@ + label@)]),
            None => before,
        }
    }
}

/// The lines of the detail read.
pub open spec fn detail_page(note: Note, armed: bool) -> Seq<Seq<(Tone, Seq<char>)>> {
    seq![
        seq![(Tone::Bold, headline(note))],
        match anchor_text(note) {
            Some(a) => seq![(Tone::Focused, a)],
            None => seq![(Tone::Muted, "loose note"@)],
        },
    ] + (if note.archived_at is Some {
        seq![seq![(Tone::Muted, "archived"@)]]
    } else {
        Seq::empty()
    }) + (if armed {
        seq![
            seq![
                (
                    Tone::DangerBold,
                    "✖ delete (permanent) — X again to confirm, cannot be undone"@,
                ),
            ],
        ]
    } else {
        Seq::empty()
    }) + seq![seq![(Tone::Plain, ""@)]] + plain_lines(pieces(or_empty(note.content), '\n')) + (
    if cited(note.citations@).len() > 0 {
        seq![seq![(Tone::Plain, ""@)], seq![(Tone::Muted, "citations"@)]] + cited(note.citations@)
    } else {
        Seq::empty()
    })
}

fn cite_lines(note: &Note) -> (res: Vec<Line>)
    ensures
        page(res@) == cited(note.citations@),
{
    let mut lines = no_lines();
    let mut i: usize = 0;
    while i < note.citations.len()
        invariant
            i <= note.citations.len(),
            page(lines@) == cited(note.citations@.take(i as int)),
        decreases note.citations.len() - i,
    {
        proof {
            let here = note.citations@.take(i as int + 1);
            assert(here.drop_last() =~= note.citations@.take(i as int));
            assert(here.last() == note.citations@[i as int]);
        }
        if let Some(label) = &note.citations[i].address_label {
            push_line(&mut lines, Line::of(Tone::Muted, cat2("  · ", label.as_str())));
        }
        i = i + 1;
    }
    assert(note.citations@.take(note.citations@.len() as int) =~= note.citations@);
    lines
}

/// The lines of the detail read.
pub fn detail_lines(note: &Note, armed: bool) -> (res: Vec<Line>)
    ensures
        page(res@) == detail_page(*note, armed),
{
    let mut lines = no_lines();
    push_line(&mut lines, Line::of(Tone::Bold, note_headline(note)));
    match anchor_line(note) {
        Some(a) => push_line(&mut lines, Line::of(Tone::Focused, a)),
        None => push_line(&mut lines, Line::of(Tone::Muted, own("loose note"))),
    }
    if note.archived_at.is_some() {
        push_line(&mut lines, Line::of(Tone::Muted, own("archived")));
    }
    if armed {
        push_line(
            &mut lines,
            Line::of(
                Tone::DangerBold,
                own("✖ delete (permanent) — X again to confirm, cannot be undone"),
            ),
        );
    }
    push_line(&mut lines, Line::of(Tone::Plain, own("")));
    push_plain_lines(&mut lines, &split(text_or_empty(&note.content).as_str(), '\n'));
    let mut cites = cite_lines(note);
    assert(page(cites@).len() == cites@.len());
    if cites.len() > 0 {
        push_line(&mut lines, Line::of(Tone::Plain, own("")));
        push_line(&mut lines, Line::of(Tone::Muted, own("citations")));
        let ghost (head, tail) = (lines@, cites@);
        lines.append(&mut cites);
        assert(page(lines@) =~= page(head) + page(tail));
    }
    assert(page(lines@) =~~= detail_page(*note, armed));
    lines
}

// ---- what the calls answer ----

/// What the read of the list sends back: a failure is said, and lists nothing.
pub fn listed(reply: Result<Vec<Note>, Fault>) -> (res: Vec<Action>)
    ensures
        match reply {
            Ok(notes) => res@ == seq![Action::NotesLoaded(notes)],
            Err(e) => {
                &&& res@.len() == 2
                &&& notifies(res@[0], Level::Error, "notes load failed: "@ + e.shown@)
                &&& res@[1] matches Action::NotesLoaded(notes) && notes@ == Seq::<Note>::empty()
            },
        },
{
    match reply {
        Ok(notes) => one(Action::NotesLoaded(notes)),
        Err(e) => two(
            notice(Level::Error, cat2("notes load failed: ", e.shown.as_str())),
            Action::NotesLoaded(Vec::new()),
        ),
    }
}

/// What archiving (or unarchiving) a note sends back.
pub fn archived<T>(was_archived: bool, reply: WriteReply<T>) -> (res: Vec<Action>)
    ensures
        settled(
            reply,
            if was_archived {
                "note unarchived"@
            } else {
                "note archived"@
            },
            if was_archived {
                "unarchived · queued (offline) — will sync"@
            } else {
                "archived · queued (offline) — will sync"@
            },
            "archive failed"@,
            Action::RefreshNotes,
            res@,
        ),
{
    if was_archived {
        settle(
            reply,
            own("note unarchived"),
            own("unarchived · queued (offline) — will sync"),
            "archive failed",
            Action::RefreshNotes,
        )
    } else {
        settle(
            reply,
            own("note archived"),
            own("archived · queued (offline) — will sync"),
            "archive failed",
            Action::RefreshNotes,
        )
    }
}

/// What detaching a note from its book sends back.
pub fn unlinked<T>(reply: WriteReply<T>) -> (res: Vec<Action>)
    ensures
        match reply {
            WriteReply::Confirmed(_) => {
                &&& res@.len() == 3
                &&& notifies(res@[0], Level::Success, "detached from book"@)
                &&& res@[1] == Action::NotesCloseDetail
                &&& res@[2] == Action::RefreshNotes
            },
            WriteReply::Provisional(_) => {
                &&& res@.len() == 2
                &&& notifies(res@[0], Level::Info, "detached · queued (offline) — will sync"@)
                &&& res@[1] == Action::NotesCloseDetail
            },
            WriteReply::Failed(e) => {
                &&& res@.len() == 1
                &&& notifies(res@[0], Level::Error, "unlink failed: "@ + e.shown@)
            },
        },
{
    match reply {
        WriteReply::Confirmed(_) => three(
            notice(Level::Success, own("detached from book")),
            Action::NotesCloseDetail,
            Action::RefreshNotes,
        ),
        WriteReply::Provisional(_) => two(
            notice(Level::Info, own("detached · queued (offline) — will sync")),
            Action::NotesCloseDetail,
        ),
        WriteReply::Failed(e) => one(
            notice(Level::Error, cat2("unlink failed: ", e.shown.as_str())),
        ),
    }
}

/// What deleting a note sends back. A delete never waits in the queue: without
/// the server it is refused.
pub fn deleted(reply: Result<(), Fault>) -> (res: Vec<Action>)
    ensures
        match reply {
            Ok(_) => {
                &&& res@.len() == 3
                &&& notifies(res@[0], Level::Success, "deleted (permanent)"@)
                &&& res@[1] == Action::NotesCloseDetail
                &&& res@[2] == Action::RefreshNotes
            },
            Err(e) => {
                &&& res@.len() == 1
                &&& notifies(
                    res@[0],
                    Level::Error,
                    if e.kind is Transport {
                        "offline — delete needs the server; retry online"@
                    } else {
                        "delete failed: "@ + e.shown@
                    },
                )
            },
        },
{
    match reply {
        Ok(_) => three(
            notice(Level::Success, own("deleted (permanent)")),
            Action::NotesCloseDetail,
            Action::RefreshNotes,
        ),
        Err(e) => match e.kind {
            FaultKind::Transport => one(
                notice(Level::Error, own("offline — delete needs the server; retry online")),
            ),
            _ => one(notice(Level::Error, cat2("delete failed: ", e.shown.as_str()))),
        },
    }
}

// ---- laws ----

/// Whether an outcome asks the server to delete a note.
pub open spec fn asks_delete(out: Outcome) -> bool {
    exists|i: int|
        0 <= i < out.effects@.len() && (#[trigger] out.effects@[i] matches Effect::Call(r)
            && r is DeleteNote)
}

/// A note is deleted only by the confirmed gesture, and no key confirms it but
/// `X` on a detail where the delete is already armed.
pub proof fn a_delete_takes_two_presses(
    pre: Notes,
    action: Action,
    post: Notes,
    out: Outcome,
    key: KeyEvent,
    after: Notes,
    res: Option<Action>,
)
    requires
        Notes::handled(pre, action, post, out),
        Notes::intercepted(pre, key, after, res),
    ensures
        asks_delete(out) ==> action is NotesDeleteConfirm,
        res == Some(Action::NotesDeleteConfirm) ==> {
            &&& pre.delete_armed
            &&& pre.detail is Some
            &&& key.code == KeyCode::Char('X')
        },
{
    if asks_delete(out) {
        let i = choose|i: int|
            0 <= i < out.effects@.len() && (#[trigger] out.effects@[i] matches Effect::Call(r)
                && r is DeleteNote);
        assert(out.effects@[i] matches Effect::Call(r) && r is DeleteNote);
    }
}

/// While a delete is armed, every key but `X` cancels it and the note stands.
pub proof fn any_other_key_disarms(
    pre: Notes,
    key: KeyEvent,
    mid: Notes,
    res: Option<Action>,
    post: Notes,
    out: Outcome,
)
    requires
        pre.detail is Some,
        pre.delete_armed,
        key.code != KeyCode::Char('X'),
        Notes::intercepted(pre, key, mid, res),
        res is Some,
        Notes::handled(mid, res->0, post, out),
    ensures
        !post.delete_armed,
        post.detail == pre.detail,
        !asks_delete(out),
{
}

/// Arming changes nothing but the guard, and closing the detail lifts it.
pub proof fn closing_the_detail_disarms(pre: Notes, post: Notes, out: Outcome)
    requires
        Notes::handled(pre, Action::NotesCloseDetail, post, out),
    ensures
        !post.delete_armed,
        post.detail is None,
        post.items == pre.items,
{
}

/// Showing the archived notes and hiding them again comes home.
pub proof fn toggling_twice_comes_home(a: Notes, b: Notes, c: Notes, x: Outcome, y: Outcome)
    requires
        Notes::handled(a, Action::NotesToggleArchived, b, x),
        Notes::handled(b, Action::NotesToggleArchived, c, y),
    ensures
        c.show_archived == a.show_archived,
        c.items == a.items,
        c.query == a.query,
{
}

/// The cursor stays on the list through a load, a move or a jump.
pub proof fn the_cursor_stays_on_the_list(pre: Notes, action: Action, post: Notes, out: Outcome)
    requires
        Notes::handled(pre, action, post, out),
        pre.items@.len() <= usize::MAX,
        action matches Action::NotesLoaded(notes) ==> notes@.len() <= usize::MAX,
        action is NotesLoaded || in_list(pre.cursor, pre.items@.len() as int),
    ensures
        in_list(post.cursor, post.items@.len() as int),
{
}

/// The note under the cursor, whichever row that is, is the one that a gesture on
/// the list acts on: archived or brought back, opened, or put into the overlay.
pub proof fn a_gesture_goes_to_the_note_under_the_cursor(
    pre: Notes,
    row: usize,
    action: Action,
    post: Notes,
    out: Outcome,
)
    requires
        pre.cursor == Some(row),
        row < pre.items@.len(),
        Notes::handled(pre, action, post, out),
    ensures
        action is NotesArchiveSelected ==> out.effects@ == seq![
            Effect::Call(
                Request::ArchiveNote {
                    id: pre.items@[row as int].id,
                    archived: pre.items@[row as int].archived_at is Some,
                },
            ),
        ] && post == pre,
        action is NotesOpenDetail ==> out.effects@ == seq![
            Effect::Call(Request::GetNote(pre.items@[row as int].id)),
        ] && post.detail is Some && post.detail->0.id == pre.items@[row as int].id
            && post.detail->0.title@ == pre.items@[row as int].title@,
        action is NotesEditSelected ==> out.effects@.len() == 1 && (
        out.effects@[0] matches Effect::Send(Action::CaptureOpenEdit(n)) && n.id
            == pre.items@[row as int].id && n.title@ == pre.items@[row as int].title@ && n.book_id
            == pre.items@[row as int].book_id) && post == pre,
        post.items == pre.items || action is NotesLoaded,
{
}

/// A live note is archived and an archived one brought back: the two never take the
/// same way.
pub proof fn archiving_turns_the_note_over(pre: Notes, row: usize, post: Notes, out: Outcome)
    requires
        pre.cursor == Some(row),
        row < pre.items@.len(),
        Notes::handled(pre, Action::NotesArchiveSelected, post, out),
    ensures
        out.effects@.len() == 1,
        pre.items@[row as int].archived_at is None ==> out.effects@[0] == Effect::Call(
            Request::ArchiveNote { id: pre.items@[row as int].id, archived: false },
        ),
        pre.items@[row as int].archived_at is Some ==> out.effects@[0] == Effect::Call(
            Request::ArchiveNote { id: pre.items@[row as int].id, archived: true },
        ),
{
}

/// With a note open, the destructive gestures go to that note, wherever the cursor
/// stands; with none open they go to the note under the cursor.
pub proof fn the_open_note_is_the_one_detached_or_deleted(
    pre: Notes,
    note: Note,
    action: Action,
    post: Notes,
    out: Outcome,
)
    requires
        pre.detail == Some(note) || (pre.detail is None && pre.cursor is Some && pre.cursor->0
            < pre.items@.len() && note == pre.items@[pre.cursor->0 as int]),
        action is NotesUnlinkSelected || action is NotesDeleteConfirm,
        Notes::handled(pre, action, post, out),
    ensures
        action is NotesDeleteConfirm ==> out.effects@ == seq![
            Effect::Call(Request::DeleteNote(note.id)),
        ] && !post.delete_armed,
        action is NotesUnlinkSelected && (note.book_id is Some || note.book_title is Some)
            ==> out.effects@ == seq![Effect::Call(Request::UnlinkNote(note.id))],
        action is NotesUnlinkSelected && note.book_id is None && note.book_title is None
            ==> out.effects@.len() == 0 && out.note is Some && (out.note->0).0 == Level::Warning,
        post.detail == pre.detail,
        post.items == pre.items,
{
}

/// `X` twice on an open note deletes that note and no other.
pub proof fn two_presses_delete_the_open_note(
    a: Notes,
    note: Note,
    key: KeyEvent,
    first: Option<Action>,
    b: Notes,
    x: Outcome,
    second: Option<Action>,
    c: Notes,
    y: Outcome,
)
    requires
        a.detail == Some(note),
        !a.delete_armed,
        key.code == KeyCode::Char('X'),
        Notes::intercepted(a, key, a, first),
        first is Some,
        Notes::handled(a, first->0, b, x),
        Notes::intercepted(b, key, b, second),
        second is Some,
        Notes::handled(b, second->0, c, y),
    ensures
        x.effects@.len() == 0,
        b.delete_armed,
        y.effects@ == seq![Effect::Call(Request::DeleteNote(note.id))],
        !c.delete_armed,
{
}

/// An empty list has no note to act on.
pub proof fn no_note_no_gesture(pre: Notes, action: Action, post: Notes, out: Outcome)
    requires
        pre.detail is None,
        pre.cursor is None || pre.cursor->0 >= pre.items@.len(),
        action is NotesArchiveSelected || action is NotesOpenDetail || action is NotesEditSelected
            || action is NotesUnlinkSelected || action is NotesDeleteConfirm,
        Notes::handled(pre, action, post, out),
    ensures
        out.effects@.len() == 0,
        post.detail is None,
{
}

/// What is typed at the search prompt is the query, letter by letter.
pub proof fn typing_fills_the_search(
    states: Seq<Notes>,
    typed: Seq<char>,
    outs: Seq<Outcome>,
    n: int,
)
    requires
        0 <= n <= typed.len(),
        states.len() == typed.len() + 1,
        forall|i: int|
            #![trigger states[i]]
            0 <= i < typed.len() ==> Notes::handled(
                states[i],
                Action::NotesSearchInput(typed[i]),
                states[i + 1],
                outs[i],
            ),
    ensures
        states[n].query@ == states[0].query@ + typed.take(n),
        states[n].show_archived == states[0].show_archived,
        states[n].items == states[0].items,
        n > 0 ==> outs[n - 1].effects@.len() == 0,
    decreases n,
{
    if n > 0 {
        typing_fills_the_search(states, typed, outs, n - 1);
        assert(Notes::handled(
            states[n - 1],
            Action::NotesSearchInput(typed[n - 1]),
            states[n],
            outs[n - 1],
        ));
        assert(typed.take(n) =~= typed.take(n - 1).push(typed[n - 1]));
        assert(states[n].query@ =~= states[0].query@ + typed.take(n));
    } else {
        assert(states[0].query@ + typed.take(0) =~= states[0].query@);
    }
}

/// `/`, a text, `Enter`: the server is asked for the notes that match that very text,
/// archived ones with them exactly where they are shown. With nothing typed it is
/// asked for all of them.
pub proof fn a_search_asks_for_what_was_typed(
    pre: Notes,
    slash: KeyEvent,
    opened: Option<Action>,
    states: Seq<Notes>,
    typed: Seq<char>,
    outs: Seq<Outcome>,
    post: Notes,
    out: Outcome,
)
    requires
        pre.detail is None,
        !pre.searching,
        slash.code == KeyCode::Char('/'),
        states.len() == typed.len() + 1,
        Notes::intercepted(pre, slash, states[0], opened),
        forall|i: int|
            #![trigger states[i]]
            0 <= i < typed.len() ==> Notes::handled(
                states[i],
                Action::NotesSearchInput(typed[i]),
                states[i + 1],
                outs[i],
            ),
        Notes::handled(states.last(), Action::NotesSearchSubmit, post, out),
    ensures
        states[0].searching,
        out.note is None,
        out.effects@.len() == 1,
        out.effects@[0] matches Effect::Call(Request::ListNotes { query, with_archived }) && {
            &&& with_archived == pre.show_archived
            &&& typed.len() > 0 ==> query is Some && query->0@ == typed
            &&& typed.len() == 0 ==> query is None
        },
        !post.searching,
        post.loading,
{
    typing_fills_the_search(states, typed, outs, typed.len() as int);
    assert(typed.take(typed.len() as int) =~= typed);
    assert(Seq::<char>::empty() + typed =~= typed);
}

/// Leaving the prompt reads everything again, and a refresh reads what is searched
/// for at the time.
pub proof fn what_a_read_asks_for(pre: Notes, action: Action, post: Notes, out: Outcome)
    requires
        action is NotesSearchCancel || action is RefreshNotes || action is NotesToggleArchived,
        Notes::handled(pre, action, post, out),
    ensures
        out.effects@.len() == 1,
        out.effects@[0] matches Effect::Call(Request::ListNotes { query, with_archived }) && {
            &&& action is NotesSearchCancel ==> query is None
            &&& !(action is NotesSearchCancel) ==> match query {
                Some(text) => text@ == pre.query@ && text@.len() > 0,
                None => pre.query@.len() == 0,
            }
            &&& action is NotesToggleArchived <==> with_archived != pre.show_archived
        },
        post.show_archived == (if action is NotesToggleArchived {
            !pre.show_archived
        } else {
            pre.show_archived
        }),
{
}

/// The list is shown as it came, and a step lands on the row that far away, or on an
/// end.
pub proof fn a_step_walks_the_notes(pre: Notes, row: usize, d: i32, post: Notes, out: Outcome)
    requires
        pre.cursor == Some(row),
        row < pre.items@.len() <= usize::MAX,
        Notes::handled(pre, Action::NotesMove(d), post, out),
    ensures
        post.cursor is Some,
        0 <= row + d < pre.items@.len() ==> post.cursor->0 == row + d,
        row + d < 0 ==> post.cursor->0 == 0,
        row + d >= pre.items@.len() ==> post.cursor->0 == pre.items@.len() - 1,
        post == (Notes { cursor: post.cursor, ..pre }),
        out.effects@.len() == 0,
{
}

/// A list that came in is shown as it came.
pub proof fn a_list_is_shown_as_it_came(pre: Notes, notes: Vec<Note>, post: Notes, out: Outcome)
    requires
        Notes::handled(pre, Action::NotesLoaded(notes), post, out),
    ensures
        post.items@ == notes@,
        !post.loading,
        post.query == pre.query,
        post.show_archived == pre.show_archived,
        post.detail == pre.detail,
        out.effects@.len() == 0,
{
}

/// `gg` and `G` land on the first and the last note.
pub proof fn the_jumps_land_on_the_ends(pre: Notes, action: Action, post: Notes, out: Outcome)
    requires
        action is NotesJumpStart || action is NotesJumpEnd,
        0 < pre.items@.len() <= usize::MAX,
        Notes::handled(pre, action, post, out),
    ensures
        post.cursor is Some,
        action is NotesJumpStart ==> post.cursor->0 == 0,
        action is NotesJumpEnd ==> post.cursor->0 == pre.items@.len() - 1,
        post.items == pre.items,
{
}

/// The keys of an open note: `u` detaches it, `X` arms its deletion, and leaving it
/// asks for nothing.
pub proof fn the_open_notes_keys(pre: Notes, key: KeyEvent, post: Notes, res: Option<Action>)
    requires
        pre.detail is Some,
        !pre.delete_armed,
        Notes::intercepted(pre, key, post, res),
    ensures
        post == pre,
        key.code == KeyCode::Char('u') ==> res == Some(Action::NotesUnlinkSelected),
        key.code == KeyCode::Char('X') ==> res == Some(Action::NotesDeleteArm),
        key.code == KeyCode::Esc || key.code == KeyCode::Enter || key.code == KeyCode::Char('h')
            || key.code == KeyCode::Char('q') ==> res == Some(Action::NotesCloseDetail),
        res != Some(Action::NotesDeleteConfirm),
{
}

/// A note that is gone from the server is gone from the screen: the detail closes and the
/// list is read again. A deletion that failed leaves both, and never waits in the queue.
pub proof fn a_deleted_note_leaves_the_screen(reply: Result<(), Fault>, sent: Vec<Action>)
    requires
        call_ensures(deleted, (reply,), sent),
    ensures
        reply is Ok ==> sent@.len() == 3 && sent@[1] is NotesCloseDetail && sent@[2]
            is RefreshNotes && (sent@[0] matches Action::Notify { level, .. } && level
            == Level::Success),
        reply is Err ==> sent@.len() == 1 && (sent@[0] matches Action::Notify { level, .. } && level
            == Level::Error),
{
}

/// A detached note closes its detail, at once where the write waits and with a fresh
/// list where the server has it; a failure leaves it open.
pub proof fn how_detaching_is_answered(reply: WriteReply<()>, sent: Vec<Action>)
    requires
        call_ensures(unlinked::<()>, (reply,), sent),
    ensures
        reply is Confirmed ==> sent@.len() == 3 && sent@[1] is NotesCloseDetail && sent@[2]
            is RefreshNotes,
        reply is Provisional ==> sent@.len() == 2 && sent@[1] is NotesCloseDetail,
        reply is Failed ==> sent@.len() == 1 && (sent@[0] matches Action::Notify { level, .. }
            && level == Level::Error),
{
}

/// A headline is the title, or the first line that is not blank, or says that there is
/// none; it is never empty.
pub proof fn a_headline_is_never_empty(n: Note)
    ensures
        headline(n).len() > 0,
        trimmed(n.title@).len() > 0 ==> headline(n) == trimmed(n.title@),
{
    reveal_strlit("(empty note)");
    lemma_filled(pieces(or_empty(n.content), '\n'));
}

proof fn lemma_filled(parts: Seq<Seq<char>>)
    ensures
        first_filled(parts) matches Some(line) ==> line.len() > 0,
    decreases parts.len(),
{
    if parts.len() > 0 {
        lemma_filled(parts.drop_first());
    }
}

/// A note is shown under its headline, marked where it is archived, and with its place
/// where it has one.
pub proof fn a_note_is_shown_under_its_headline(n: Note)
    ensures
        item_page(n).len() > 0,
        item_page(n)[0][0].1 == headline(n),
        item_page(n).len() == 2 <==> n.book_id is Some || n.book_title is Some,
        n.archived_at is Some ==> item_page(n)[0][0].0 == Tone::Muted,
        n.archived_at is None ==> item_page(n)[0][0].0 == Tone::Bold,
{
}

/// The place of a note is its book's title, with the first citation's place behind it; a
/// note without a book has none.
pub proof fn the_place_of_a_note(n: Note)
    ensures
        n.book_id is None && n.book_title is None ==> anchor_text(n) is None,
        n.book_title matches Some(t) && n.citations@.len() == 0 ==> anchor_text(n) == Some(
            n.book_title->0@,
        ),
        n.book_title is Some && n.citations@.len() > 0 && n.citations@[0].address_label is Some
            ==> anchor_text(n) == Some(
            n.book_title->0@ + " · "@ + n.citations@[0].address_label->0@,
        ),
        n.book_title is Some && n.citations@.len() > 0 && n.citations@[0].address_label is None
            && n.citations@[0].page is Some ==> anchor_text(n) == Some(
            n.book_title->0@ + " · "@ + ("p."@ + decimal(n.citations@[0].page->0 as nat)),
        ),
{
}

/// What was read reaches the list as it came; a failed read is said and shows no notes.
pub proof fn a_read_reaches_the_list(reply: Result<Vec<Note>, Fault>, sent: Vec<Action>)
    requires
        call_ensures(listed, (reply,), sent),
    ensures
        reply matches Ok(notes) ==> sent@ == seq![Action::NotesLoaded(notes)],
        reply is Err ==> sent@.len() == 2 && (sent@[0] matches Action::Notify { level, .. } && level
            == Level::Error) && (sent@[1] matches Action::NotesLoaded(n) && n@.len() == 0),
{
}

/// Archiving is answered by what it did, either way.
pub proof fn the_answer_says_which_way_it_went(
    reply: WriteReply<()>,
    there: Vec<Action>,
    back: Vec<Action>,
)
    requires
        reply is Confirmed,
        call_ensures(archived::<()>, (false, reply), there),
        call_ensures(archived::<()>, (true, reply), back),
    ensures
        there@[0] matches Action::Notify { text, .. } && text@ == "note archived"@,
        back@[0] matches Action::Notify { text, .. } && text@ == "note unarchived"@,
        there@[1] is RefreshNotes,
        back@[1] is RefreshNotes,
{
}

/// A fresh list keeps the cursor on its row where that row is there, and else puts it on the
/// last one.
pub proof fn a_load_keeps_the_row(
    pre: Notes,
    notes: Vec<Note>,
    row: usize,
    post: Notes,
    out: Outcome,
)
    requires
        pre.cursor == Some(row),
        notes@.len() <= usize::MAX,
        Notes::handled(pre, Action::NotesLoaded(notes), post, out),
    ensures
        row < notes@.len() ==> post.cursor == Some(row),
        row >= notes@.len() && notes@.len() > 0 ==> post.cursor is Some && post.cursor->0
            == notes@.len() - 1,
        notes@.len() == 0 ==> post.cursor is None,
{
}

/// The title shows the typed text while there is a search, else whether archived notes
/// are among those listed.
pub proof fn the_title_shows_what_is_listed(s: Notes)
    ensures
        s.searching || s.query@.len() > 0 ==> s.title_text() == "Notes · /"@ + s.query@ + "_"@,
        !s.searching && s.query@.len() == 0 && s.show_archived ==> s.title_text()
            == "Notes · incl. archived"@,
        !s.searching && s.query@.len() == 0 && !s.show_archived ==> s.title_text() == "Notes"@,
{
}

/// Notes are shown where there are any; what stands in their place tells a read under
/// way from a search without a match and from an empty list.
pub proof fn an_empty_list_says_why(s: Notes)
    ensures
        s.items@.len() > 0 ==> s.empty_text() is None,
        s.items@.len() == 0 && s.loading ==> s.empty_text() == Some("loading…"),
        s.items@.len() == 0 && !s.loading && s.query@.len() > 0 ==> s.empty_text() == Some(
            "No notes match that search.",
        ),
        s.items@.len() == 0 && !s.loading && s.query@.len() == 0 ==> s.empty_text() == Some(
            "No notes yet. Press <Space>c anywhere to capture one.",
        ),
{
}

/// Every field keeps its value but through the actions that are about it.
pub proof fn what_an_action_leaves_alone(
    pre: Notes,
    action: Action,
    post: Notes,
    out: Outcome,
)
    requires
        Notes::handled(pre, action, post, out),
    ensures
        post.items == pre.items || action is NotesLoaded,
        post.cursor == pre.cursor || action is NotesLoaded || action is NotesMove
            || action is NotesJumpStart || action is NotesJumpEnd,
        post.query == pre.query || action is NotesSearchInput || action is NotesSearchBackspace
            || action is NotesSearchCancel,
        post.searching == pre.searching || action is NotesSearchSubmit
            || action is NotesSearchCancel,
        post.show_archived == pre.show_archived || action is NotesToggleArchived,
        post.loading == pre.loading || action is NotesLoaded || action is NotesSearchSubmit
            || action is NotesSearchCancel || action is NotesToggleArchived
            || action is RefreshNotes,
        post.detail == pre.detail || action is NotesOpenDetail || action is NotesDetailLoaded
            || action is NotesCloseDetail,
        post.delete_armed == pre.delete_armed || action is NotesCloseDetail
            || action is NotesDeleteArm || action is NotesDeleteDisarm
            || action is NotesDeleteConfirm,
{
}

/// Only these actions say something, and only these send something; a read under way is
/// marked until it is answered.
pub proof fn which_actions_are_heard(
    pre: Notes,
    action: Action,
    post: Notes,
    out: Outcome,
)
    requires
        Notes::handled(pre, action, post, out),
    ensures
        out.note is None || action is NotesUnlinkSelected || action is NotesDeleteArm
            || action is NotesDeleteDisarm,
        out.effects@.len() == 0 || action is NotesSearchSubmit || action is NotesSearchCancel
            || action is NotesToggleArchived || action is RefreshNotes || action is NotesOpenDetail
            || action is NotesArchiveSelected || action is NotesEditSelected
            || action is NotesUnlinkSelected || action is NotesDeleteConfirm,
        out.effects@.len() <= 1,
        (action is NotesSearchSubmit || action is NotesSearchCancel
            || action is NotesToggleArchived || action is RefreshNotes) ==> post.loading,
        action is NotesLoaded ==> !post.loading,
{
}

/// What a gesture on a note says: that it has no book to be detached from, that a second
/// press deletes it, and that the delete was called off.
pub proof fn what_a_gesture_on_a_note_is_told(
    pre: Notes,
    action: Action,
    post: Notes,
    out: Outcome,
)
    requires
        Notes::handled(pre, action, post, out),
    ensures
        action is NotesUnlinkSelected && out.note is Some ==> (out.note->0).0 == Level::Warning && (
        out.note->0).1@ == "not linked to a book"@ && out.effects@.len() == 0,
        action is NotesDeleteArm ==> out.note is Some && (out.note->0).0 == Level::Warning && (
        out.note->0).1@ == "delete (permanent) — press X again to confirm"@,
        action is NotesDeleteDisarm ==> out.note is Some && (out.note->0).0 == Level::Info && (
        out.note->0).1@ == "delete cancelled"@,
{
}

/// The screen starts empty, without the archived notes, with no search and nothing armed.
pub proof fn how_the_screen_starts(s: Notes)
    requires
        call_ensures(Notes::default, (), s),
    ensures
        s.items@.len() == 0,
        s.cursor == Some(0usize),
        s.query@.len() == 0,
        !s.searching,
        !s.show_archived,
        !s.loading,
        s.detail is None,
        !s.delete_armed,
{
}

} // verus!
