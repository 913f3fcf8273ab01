//! Book detail: one book with its chapters, a page edit and a status picker.

use crate::action::{notice, notifies, one, two, Action, Effect, Outcome, Request};
use crate::cursor::{select_step, select_stepped, step, stepped};
use crate::keys::{digit_key, is_digit, KeyCode, KeyEvent};
use crate::line::{no_lines, page, push_line, Footer, Line, Tone};
use crate::model::{Book, BookChapter, BookStatus, BookUpdate, WriteReply};
use crate::notify::Level;
use crate::text::{
    align, aligned, cat2, cat3, cat4, decimal, number, or_empty, own, parse_number, show,
    text_or_empty,
};
use vstd::prelude::*;

verus! {

/// The book detail screen.
#[derive(Debug)]
pub struct BookDetail {
    pub book: Option<Book>,
    pub chapters: Vec<BookChapter>,
    pub cursor: Option<usize>,
    pub edit_page: Option<String>,
    /// The row of the status picker, while it is open.
    pub status_picker: Option<usize>,
}

impl Default for BookDetail {
    fn default() -> (res: Self)
        ensures
            res.book is None,
            res.chapters@ == Seq::<BookChapter>::empty(),
            res.cursor == Some(0usize),
            res.edit_page is None,
            res.status_picker is None,
            res.wf(),
    {
        BookDetail {
            book: None,
            chapters: Vec::new(),
            cursor: Some(0),
            edit_page: None,
            status_picker: None,
        }
    }
}

/// The number of statuses on offer.
pub const STATUS_ROWS: usize = 5;

/// The status on a row of the picker.
pub open spec fn status_on(row: int) -> BookStatus {
    if row == 0 {
        BookStatus::Reading
    } else if row == 1 {
        BookStatus::Completed
    } else if row == 2 {
        BookStatus::Unread
    } else if row == 3 {
        BookStatus::OnHold
    } else {
        BookStatus::Abandoned
    }
}

/// The row of the picker that shows a status.
pub open spec fn row_of(status: BookStatus) -> int {
    match status {
        BookStatus::Reading => 0,
        BookStatus::Completed => 1,
        BookStatus::Unread => 2,
        BookStatus::OnHold => 3,
        BookStatus::Abandoned => 4,
    }
}

/// The status on a row of the picker.
pub fn status_at(row: usize) -> (res: BookStatus)
    requires
        row < STATUS_ROWS,
    ensures
        res == status_on(row as int),
{
    match row {
        0 => BookStatus::Reading,
        1 => BookStatus::Completed,
        2 => BookStatus::Unread,
        3 => BookStatus::OnHold,
        _ => BookStatus::Abandoned,
    }
}

/// The row of the picker that shows a status.
pub fn status_index(status: BookStatus) -> (res: usize)
    ensures
        res == row_of(status),
        res < STATUS_ROWS,
{
    match status {
        BookStatus::Reading => 0,
        BookStatus::Completed => 1,
        BookStatus::Unread => 2,
        BookStatus::OnHold => 3,
        BookStatus::Abandoned => 4,
    }
}

/// The key that picks a status.
pub open spec fn mnemonic_of(status: BookStatus) -> char {
    match status {
        BookStatus::Reading => 'r',
        BookStatus::Completed => 'c',
        BookStatus::Unread => 'u',
        BookStatus::OnHold => 'h',
        BookStatus::Abandoned => 'a',
    }
}

/// The key that picks a status.
pub fn mnemonic(status: BookStatus) -> (res: char)
    ensures
        res == mnemonic_of(status),
{
    match status {
        BookStatus::Reading => 'r',
        BookStatus::Completed => 'c',
        BookStatus::Unread => 'u',
        BookStatus::OnHold => 'h',
        BookStatus::Abandoned => 'a',
    }
}

/// The ids of the chapters, in order.
pub open spec fn chapter_ids(chapters: Seq<BookChapter>) -> Seq<i64> {
    chapters.map_values(|c: BookChapter| c.id)
}

fn chapter_at(chapters: &Vec<BookChapter>, id: i64) -> (res: Option<usize>)
    ensures
        match chapter_ids(chapters@).index_of_first(id) {
            Some(i) => res == Some(i as usize) && 0 <= i < chapters@.len(),
            None => res is None,
        },
{
    let ghost ids = chapter_ids(chapters@);
    proof {
        ids.index_of_first_ensures(id);
    }
    let mut i: usize = 0;
    while i < chapters.len()
        invariant
            i <= chapters.len(),
            ids == chapter_ids(chapters@),
            forall|j: int| 0 <= j < i ==> #[trigger] ids[j] != id,
            match ids.index_of_first(id) {
                Some(k) => 0 <= k < ids.len() && ids[k] == id && forall|j: int|
                    0 <= j < k ==> ids[j] != id,
                None => !ids.contains(id),
            },
        decreases chapters.len() - i,
    {
        assert(ids[i as int] == chapters@[i as int].id);
        if chapters[i].id == id {
            assert(ids.contains(id));
            return Some(i);
        }
        i = i + 1;
    }
    None
}

/// Whether an effect is this write of a book, with the words for either fate.
pub open spec fn writes(
    e: Effect,
    book: Book,
    update: BookUpdate,
    done: Option<Seq<char>>,
    queued: Seq<char>,
) -> bool {
    e matches Effect::Call(Request::UpdateBook { current, update: u, done: d, queued: q }) && {
        &&& *current == book
        &&& u == update
        &&& match done {
            Some(t) => d is Some && d->0@ == t,
            None => d is None,
        }
        &&& q@ == queued
    }
}

/// A write that changes the page alone.
pub open spec fn page_update(page: u32) -> BookUpdate {
    BookUpdate { status: None, current_page: Some(page), current_chapter_id: None }
}

/// A write that changes the chapter alone.
pub open spec fn chapter_update(id: i64) -> BookUpdate {
    BookUpdate { status: None, current_page: None, current_chapter_id: Some(id) }
}

/// A write that changes the status alone.
pub open spec fn status_update(status: BookStatus) -> BookUpdate {
    BookUpdate { status: Some(status), current_page: None, current_chapter_id: None }
}

impl BookDetail {
    /// An open picker stands on one of its rows.
    pub open spec fn wf(self) -> bool {
        self.status_picker matches Some(i) ==> i < STATUS_ROWS
    }

    /// The row a freshly loaded book opens on: its current chapter, or the first.
    pub open spec fn opening_row(book: Book, chapters: Seq<BookChapter>) -> Option<usize> {
        match book.current_chapter_id {
            Some(id) => match chapter_ids(chapters).index_of_first(id) {
                Some(i) => Some(i as usize),
                None => Some(0usize),
            },
            None => Some(0usize),
        }
    }

    /// The chapter under the cursor.
    pub open spec fn chosen(self) -> Option<BookChapter> {
        match self.cursor {
            Some(i) => if i < self.chapters@.len() {
                Some(self.chapters@[i as int])
            } else {
                None
            },
            None => None,
        }
    }

    /// Nothing to say, and this write of the book to make.
    pub open spec fn asks_write(
        out: Outcome,
        book: Book,
        update: BookUpdate,
        done: Option<Seq<char>>,
        queued: Seq<char>,
    ) -> bool {
        &&& out.note is None
        &&& out.effects@.len() == 1
        &&& writes(out.effects@[0], book, update, done, queued)
    }

    /// How the screen answers an action.
    pub open spec fn handled(pre: Self, action: Action, post: Self, out: Outcome) -> bool {
        match action {
            Action::BookDetailLoaded { book, chapters } => {
                &&& post == BookDetail {
                    book: Some(*book),
                    chapters,
                    cursor: Self::opening_row(*book, chapters@),
                    ..pre
                }
                &&& out.quiet()
            },
            Action::ChapterMove(d) => {
                &&& post == BookDetail {
                    cursor: select_stepped(pre.cursor, d as int, pre.chapters@.len() as int),
                    ..pre
                }
                &&& out.quiet()
            },
            Action::BeginEditPage => {
                &&& post == BookDetail { edit_page: post.edit_page, ..pre }
                &&& post.edit_page is Some
                &&& post.edit_page->0@ == Seq::<char>::empty()
                &&& out.quiet()
            },
            Action::EditPageInput(c) => {
                &&& post == BookDetail { edit_page: post.edit_page, ..pre }
                &&& post.edit_page is Some <==> pre.edit_page is Some
                &&& pre.edit_page matches Some(b) ==> post.edit_page->0@ == b@.push(c)
                &&& out.quiet()
            },
            Action::EditPageBackspace => {
                &&& post == BookDetail { edit_page: post.edit_page, ..pre }
                &&& post.edit_page is Some <==> pre.edit_page is Some
                &&& pre.edit_page matches Some(b) ==> post.edit_page->0@ == (if b@.len() > 0 {
                    b@.drop_last()
                } else {
                    b@
                })
                &&& out.quiet()
            },
            Action::CancelEdit => post == BookDetail { edit_page: None, ..pre } && out.quiet(),
            Action::SubmitPage => {
                &&& post == BookDetail { edit_page: None, ..pre }
                &&& match (pre.book, pre.edit_page) {
                    (Some(book), Some(buf)) => match number(buf@) {
                        Some(page) => Self::asks_write(
                            out,
                            book,
                            page_update(page),
                            Some("page updated"@),
                            "page "@ + decimal(page as nat) + " · queued (offline) — will sync"@,
                        ),
                        None => out.quiet(),
                    },
                    _ => out.quiet(),
                }
            },
            Action::ToggleChapterDone => match (pre.chosen(), pre.book) {
                (Some(chapter), Some(book)) => {
                    &&& post == BookDetail {
                        cursor: select_stepped(pre.cursor, 1, pre.chapters@.len() as int),
                        ..pre
                    }
                    &&& Self::asks_write(
                        out,
                        book,
                        chapter_update(chapter.id),
                        None,
                        "chapter · queued (offline) — will sync"@,
                    )
                },
                _ => post == pre && out.quiet(),
            },
            Action::BookStatusPicker => {
                &&& post == BookDetail {
                    status_picker: match pre.book {
                        Some(book) => Some(row_of(book.status) as usize),
                        None => pre.status_picker,
                    },
                    ..pre
                }
                &&& out.quiet()
            },
            Action::BookStatusMove(d) => {
                &&& post == BookDetail {
                    status_picker: match pre.status_picker {
                        Some(i) => Some(stepped(i as int, d as int, STATUS_ROWS as int) as usize),
                        None => None,
                    },
                    ..pre
                }
                &&& out.quiet()
            },
            Action::BookStatusSelect(status) => {
                &&& post == BookDetail {
                    status_picker: match pre.status_picker {
                        Some(_) => Some(row_of(status) as usize),
                        None => None,
                    },
                    ..pre
                }
                &&& out.quiet()
            },
            Action::BookStatusCancel => {
                post == BookDetail { status_picker: None, ..pre } && out.quiet()
            },
            Action::BookStatusConfirm => {
                &&& post == BookDetail { status_picker: None, ..pre }
                &&& match (pre.status_picker, pre.book) {
                    (Some(i), Some(book)) => {
                        let words = "status → "@ + status_on(i as int).label_text();
                        Self::asks_write(
                            out,
                            book,
                            status_update(status_on(i as int)),
                            Some(words),
                            words + " · queued (offline) — will sync"@,
                        )
                    },
                    _ => out.quiet(),
                }
            },
            Action::BookUpdated(b) => post == BookDetail { book: Some(*b), ..pre } && out.quiet(),
            _ => post == pre && out.quiet(),
        }
    }

    /// The opening of a book loads it: entering the screen asks for nothing.
    pub fn on_enter(&mut self) -> (out: Vec<Effect>)
        ensures
            *final(self) == *old(self),
            out@ == Seq::<Effect>::empty(),
    {
        Vec::new()
    }

    fn write(book: &Book, update: BookUpdate, done: Option<String>, queued: String) -> (out: Outcome)
        ensures
            Self::asks_write(
                out,
                *book,
                update,
                match done {
                    Some(t) => Some(t@),
                    None => None,
                },
                queued@,
            ),
    {
        Outcome::call(
            Request::UpdateBook { current: Box::new(book.clone()), update, done, queued },
        )
    }

    fn submit_page(&mut self) -> (out: Outcome)
        ensures
            Self::handled(*old(self), Action::SubmitPage, *final(self), out),
    {
        let mut out = Outcome::none();
        if let (Some(book), Some(buf)) = (&self.book, &self.edit_page) {
            if let Some(page) = parse_number(buf.as_str()) {
                let n = show(page as u64);
                out = Self::write(
                    book,
                    BookUpdate {
                        status: None,
                        current_page: Some(page),
                        current_chapter_id: None,
                    },
                    Some(own("page updated")),
                    cat3("page ", n.as_str(), " · queued (offline) — will sync"),
                );
            }
        }
        self.edit_page = None;
        out
    }

    fn toggle_chapter(&mut self) -> (out: Outcome)
        ensures
            Self::handled(*old(self), Action::ToggleChapterDone, *final(self), out),
    {
        let id = match self.cursor {
            Some(i) => if i < self.chapters.len() {
                Some(self.chapters[i].id)
            } else {
                None
            },
            None => None,
        };
        if let (Some(id), Some(book)) = (id, &self.book) {
            let out = Self::write(
                book,
                BookUpdate { status: None, current_page: None, current_chapter_id: Some(id) },
                None,
                own("chapter · queued (offline) — will sync"),
            );
            let n: usize = self.chapters.len();
            self.cursor = select_step(self.cursor, 1, n);
            return out;
        }
        Outcome::none()
    }

    fn confirm_status(&mut self) -> (out: Outcome)
        requires
            old(self).wf(),
        ensures
            Self::handled(*old(self), Action::BookStatusConfirm, *final(self), out),
    {
        let mut out = Outcome::none();
        if let (Some(row), Some(book)) = (self.status_picker, &self.book) {
            let status = status_at(row);
            let words = cat2("status → ", status.label());
            let queued = cat2(words.as_str(), " · queued (offline) — will sync");
            out = Self::write(
                book,
                BookUpdate {
                    status: Some(status),
                    current_page: None,
                    current_chapter_id: None,
                },
                Some(words),
                queued,
            );
        }
        self.status_picker = None;
        out
    }

    /// How the screen answers an action.
    #[verifier::rlimit(40)]
    pub fn handle(&mut self, action: Action) -> (out: Outcome)
        requires
            old(self).wf(),
        ensures
            final(self).wf(),
            Self::handled(*old(self), action, *final(self), out),
    {
        match action {
            Action::BookDetailLoaded { book, chapters } => {
                let row = match book.current_chapter_id {
                    Some(id) => chapter_at(&chapters, id),
                    None => None,
                };
                self.book = Some(*book);
                self.chapters = chapters;
                self.cursor = match row {
                    Some(i) => Some(i),
                    None => Some(0),
                };
            },
            Action::ChapterMove(d) => {
                let n: usize = self.chapters.len();
                self.cursor = select_step(self.cursor, d, n);
            },
            Action::BeginEditPage => self.edit_page = Some(String::new()),
            Action::EditPageInput(c) => {
                if let Some(b) = &mut self.edit_page {
                    b.push(c);
                }
            },
            Action::EditPageBackspace => {
                if let Some(b) = &mut self.edit_page {
                    let _ = b.pop();
                }
            },
            Action::CancelEdit => self.edit_page = None,
            Action::SubmitPage => {
                return self.submit_page();
            },
            Action::ToggleChapterDone => {
                return self.toggle_chapter();
            },
            Action::BookStatusPicker => {
                if let Some(book) = &self.book {
                    self.status_picker = Some(status_index(book.status));
                }
            },
            Action::BookStatusMove(d) => {
                if let Some(i) = self.status_picker {
                    self.status_picker = Some(step(i, d, STATUS_ROWS));
                }
            },
            Action::BookStatusSelect(status) => {
                if self.status_picker.is_some() {
                    self.status_picker = Some(status_index(status));
                }
            },
            Action::BookStatusCancel => self.status_picker = None,
            Action::BookStatusConfirm => {
                return self.confirm_status();
            },
            Action::BookUpdated(b) => self.book = Some(*b),
            _ => {},
        }
        Outcome::none()
    }

    /// What the picker and the page edit make of a key: the picker owns its keys
    /// first, so `h` picks a status rather than stepping back.
    pub open spec fn intercepted(self, key: KeyEvent) -> Option<Action> {
        if self.status_picker is Some {
            match key.code {
                KeyCode::Esc => Some(Action::BookStatusCancel),
                KeyCode::Enter => Some(Action::BookStatusConfirm),
                KeyCode::Down => Some(Action::BookStatusMove(1)),
                KeyCode::Up => Some(Action::BookStatusMove((-1) as i32)),
                KeyCode::Char(c) => if c == 'j' {
                    Some(Action::BookStatusMove(1))
                } else if c == 'k' {
                    Some(Action::BookStatusMove((-1) as i32))
                } else if c == 'r' {
                    Some(Action::BookStatusSelect(BookStatus::Reading))
                } else if c == 'c' {
                    Some(Action::BookStatusSelect(BookStatus::Completed))
                } else if c == 'u' {
                    Some(Action::BookStatusSelect(BookStatus::Unread))
                } else if c == 'h' {
                    Some(Action::BookStatusSelect(BookStatus::OnHold))
                } else if c == 'a' {
                    Some(Action::BookStatusSelect(BookStatus::Abandoned))
                } else {
                    None
                },
                _ => None,
            }
        } else if self.edit_page is Some {
            match key.code {
                KeyCode::Esc => Some(Action::CancelEdit),
                KeyCode::Enter => Some(Action::SubmitPage),
                KeyCode::Backspace => Some(Action::EditPageBackspace),
                KeyCode::Char(c) => if is_digit(c) {
                    Some(Action::EditPageInput(c))
                } else {
                    None
                },
                _ => None,
            }
        } else {
            None
        }
    }

    /// The picker and the page edit own keys before the global keymap.
    pub fn intercept_key(&mut self, key: KeyEvent) -> (res: Option<Action>)
        ensures
            *final(self) == *old(self),
            res == old(self).intercepted(key),
    {
        if self.status_picker.is_some() {
            return match key.code {
                KeyCode::Esc => Some(Action::BookStatusCancel),
                KeyCode::Enter => Some(Action::BookStatusConfirm),
                KeyCode::Char('j') | KeyCode::Down => Some(Action::BookStatusMove(1)),
                KeyCode::Char('k') | KeyCode::Up => Some(Action::BookStatusMove(-1)),
                KeyCode::Char('r') => Some(Action::BookStatusSelect(BookStatus::Reading)),
                KeyCode::Char('c') => Some(Action::BookStatusSelect(BookStatus::Completed)),
                KeyCode::Char('u') => Some(Action::BookStatusSelect(BookStatus::Unread)),
                KeyCode::Char('h') => Some(Action::BookStatusSelect(BookStatus::OnHold)),
                KeyCode::Char('a') => Some(Action::BookStatusSelect(BookStatus::Abandoned)),
                _ => None,
            };
        }
        if self.edit_page.is_none() {
            return None;
        }
        match key.code {
            KeyCode::Esc => Some(Action::CancelEdit),
            KeyCode::Enter => Some(Action::SubmitPage),
            KeyCode::Backspace => Some(Action::EditPageBackspace),
            KeyCode::Char(c) => if digit_key(c) {
                Some(Action::EditPageInput(c))
            } else {
                None
            },
            _ => None,
        }
    }

    // ---- what the panel says ----

    /// The heading: the pill, the title and the author.
    pub open spec fn heading_text(book: Book) -> Seq<(Tone, Seq<char>)> {
        seq![
            (book.status.tone(), book.status.pill_text()),
            (Tone::Plain, "  "@),
            (Tone::Header, book.title@),
            (Tone::Muted, "  · "@ + or_empty(book.author)),
        ]
    }

    /// The heading: the pill, the title and the author.
    pub fn heading(book: &Book) -> (res: Line)
        ensures
            res@ == Self::heading_text(*book),
    {
        let author = text_or_empty(&book.author);
        let line = Line::of(book.status.pill_tone(), own(book.status.pill())).with(
            Tone::Plain,
            own("  "),
        ).with(Tone::Header, book.title.clone()).with(Tone::Muted, cat2("  · ", author.as_str()));
        assert(line@ =~= Self::heading_text(*book));
        line
    }

    /// The page, out of how many where known.
    pub open spec fn page_text(page: u32, count: Option<u32>) -> Seq<char> {
        "page "@ + decimal(page as nat) + match count {
            Some(t) => " / "@ + decimal(t as nat),
            None => Seq::empty(),
        }
    }

    /// The lines below the bar: the page, and the edit while one is open.
    pub open spec fn page_lines_text(self, book: Book) -> Seq<Seq<(Tone, Seq<char>)>> {
        (match book.current_page {
            Some(p) => seq![seq![(Tone::Muted, Self::page_text(p, book.page_count))]],
            None => Seq::empty(),
        }) + (match self.edit_page {
            Some(buf) => seq![
                seq![
                    (Tone::Focused, "set page → "@),
                    (Tone::Plain, buf@),
                    (Tone::Muted, "█"@),
                ],
            ],
            None => Seq::empty(),
        })
    }

    /// The lines below the bar: the page, and the edit while one is open.
    pub fn page_lines(&self, book: &Book) -> (res: Vec<Line>)
        ensures
            page(res@) == self.page_lines_text(*book),
    {
        let mut lines = no_lines();
        if let Some(p) = book.current_page {
            let shown = show(p as u64);
            let text = match book.page_count {
                Some(t) => {
                    let total = show(t as u64);
                    cat4("page ", shown.as_str(), " / ", total.as_str())
                },
                None => cat2("page ", shown.as_str()),
            };
            assert(text@ =~= Self::page_text(p, book.page_count));
            push_line(&mut lines, Line::of(Tone::Muted, text));
        }
        if let Some(buf) = &self.edit_page {
            let line = Line::of(Tone::Focused, own("set page → ")).with(
                Tone::Plain,
                buf.clone(),
            ).with(Tone::Muted, own("█"));
            assert(line@ =~= seq![
                (Tone::Focused, "set page → "@),
                (Tone::Plain, buf@),
                (Tone::Muted, "█"@),
            ]);
            push_line(&mut lines, line);
        }
        assert(page(lines@) =~= self.page_lines_text(*book));
        lines
    }

    /// A chapter's row: its mark, its number and its title; the current chapter
    /// stands out.
    pub open spec fn chapter_text(c: BookChapter, current: Option<i64>) -> Seq<(Tone, Seq<char>)> {
        seq![
            (
                if c.done {
                    Tone::Focused
                } else {
                    Tone::Muted
                },
                " ["@ + (if c.done {
                    "✓"@
                } else if c.skipped {
                    "·"@
                } else {
                    " "@
                }) + "] "@,
            ),
            (Tone::Muted, aligned(decimal(c.number as nat), 3) + ".  "@),
            (
                if current == Some(c.id) {
                    Tone::Focused
                } else {
                    Tone::Plain
                },
                c.title@,
            ),
        ]
    }

    /// A chapter's row.
    pub fn chapter_line(c: &BookChapter, current: Option<i64>) -> (res: Line)
        ensures
            res@ == Self::chapter_text(*c, current),
    {
        let mark = if c.done {
            "✓"
        } else if c.skipped {
            "·"
        } else {
            " "
        };
        let number = align(show(c.number as u64).as_str(), 3);
        let is_current = match current {
            Some(id) => id == c.id,
            None => false,
        };
        let line = Line::of(
            if c.done {
                Tone::Focused
            } else {
                Tone::Muted
            },
            cat3(" [", mark, "] "),
        ).with(Tone::Muted, cat2(number.as_str(), ".  ")).with(
            if is_current {
                Tone::Focused
            } else {
                Tone::Plain
            },
            c.title.clone(),
        );
        assert(line@ =~= Self::chapter_text(*c, current));
        line
    }

    /// A row of the status picker: the key, the pill and the words.
    pub open spec fn status_text(status: BookStatus) -> Seq<(Tone, Seq<char>)> {
        seq![
            (Tone::Muted, " "@ + seq![mnemonic_of(status)] + " "@),
            (status.tone(), status.pill_text()),
            (Tone::Muted, "  "@ + status.label_text()),
        ]
    }

    /// A row of the status picker.
    pub fn status_line(status: BookStatus) -> (res: Line)
        ensures
            res@ == Self::status_text(status),
    {
        let mut key = String::new();
        key.push(mnemonic(status));
        assert(key@ =~= seq![mnemonic_of(status)]);
        let line = Line::of(Tone::Muted, cat3(" ", key.as_str(), " ")).with(
            status.pill_tone(),
            own(status.pill()),
        ).with(Tone::Muted, cat2("  ", status.label()));
        assert(line@ =~= Self::status_text(status));
        line
    }

    /// What the footer offers.
    pub open spec fn offered(self, f: Footer) -> bool {
        if self.status_picker is Some {
            f.reads(Tone::Muted, "status · j/k or r/c/u/h/a pick · ↵ set · Esc cancel"@)
        } else if self.edit_page is Some {
            f.reads(Tone::Muted, "page · digits + Enter · Esc cancel"@)
        } else {
            f.offers(
                seq![
                    ("j/k", "chapter"),
                    ("⎵", "done & next"),
                    ("p", "page"),
                    ("s", "status"),
                    ("h", "back"),
                ],
            )
        }
    }

    /// What the footer offers.
    pub fn hints(&self) -> (res: Footer)
        ensures
            self.offered(res),
    {
        if self.status_picker.is_some() {
            return Footer::Text(
                Line::of(
                    Tone::Muted,
                    own("status · j/k or r/c/u/h/a pick · ↵ set · Esc cancel"),
                ),
            );
        }
        if self.edit_page.is_some() {
            return Footer::Text(Line::of(Tone::Muted, own("page · digits + Enter · Esc cancel")));
        }
        Footer::Keys(
            vec![
                ("j/k", "chapter"),
                ("⎵", "done & next"),
                ("p", "page"),
                ("s", "status"),
                ("h", "back"),
            ],
        )
    }
}

// ---- what the calls answer ----

/// What a book write sends back: the book as it now stands, and the word on it.
pub open spec fn updated(
    reply: WriteReply<Book>,
    done: Option<String>,
    queued: String,
    res: Seq<Action>,
) -> bool {
    match reply {
        WriteReply::Confirmed(b) => match done {
            Some(text) => {
                &&& res.len() == 2
                &&& res[0] == Action::BookUpdated(Box::new(b))
                &&& notifies(res[1], Level::Success, text@)
            },
            None => res == seq![Action::BookUpdated(Box::new(b))],
        },
        WriteReply::Provisional(b) => {
            &&& res.len() == 2
            &&& res[0] == Action::BookUpdated(Box::new(b))
            &&& notifies(res[1], Level::Info, queued@)
        },
        WriteReply::Failed(e) => {
            &&& res.len() == 1
            &&& notifies(res[0], Level::Error, "update failed: "@ + e.shown@)
        },
    }
}

/// What a book write sends back.
pub fn book_written(reply: WriteReply<Book>, done: Option<String>, queued: String) -> (res: Vec<
    Action,
>)
    ensures
        updated(reply, done, queued, res@),
{
    match reply {
        WriteReply::Confirmed(b) => {
            let first = Action::BookUpdated(Box::new(b));
            match done {
                Some(text) => two(first, notice(Level::Success, text)),
                None => one(first),
            }
        },
        WriteReply::Provisional(b) => two(
            Action::BookUpdated(Box::new(b)),
            notice(Level::Info, queued),
        ),
        WriteReply::Failed(e) => one(
            notice(Level::Error, cat2("update failed: ", e.shown.as_str())),
        ),
    }
}

// ---- laws ----

/// Every status has its own row of the picker, and its own key.
pub proof fn the_picker_offers_every_status_once(a: BookStatus, b: BookStatus)
    ensures
        status_on(row_of(a)) == a,
        0 <= row_of(a) < STATUS_ROWS,
        row_of(a) == row_of(b) ==> a == b,
        mnemonic_of(a) == mnemonic_of(b) ==> a == b,
{
}

/// While the picker is open, the key of a status selects it.
pub proof fn a_mnemonic_selects_its_status(s: BookDetail, status: BookStatus, key: KeyEvent)
    requires
        s.status_picker is Some,
        key.code == KeyCode::Char(mnemonic_of(status)),
    ensures
        s.intercepted(key) == Some(Action::BookStatusSelect(status)),
{
}

/// A picker opened and confirmed without a move writes the status the book has.
pub proof fn an_unmoved_confirm_keeps_the_status(
    a: BookDetail,
    b: BookDetail,
    c: BookDetail,
    x: Outcome,
    y: Outcome,
    book: Book,
)
    requires
        a.book == Some(book),
        BookDetail::handled(a, Action::BookStatusPicker, b, x),
        BookDetail::handled(b, Action::BookStatusConfirm, c, y),
    ensures
        c.status_picker is None,
        y.effects@.len() == 1,
        y.effects@[0] matches Effect::Call(Request::UpdateBook { current, update, .. })
            && *current == book && update == status_update(book.status),
{
}

/// A cancelled picker asks for no write, and leaves the book alone.
pub proof fn a_cancelled_picker_writes_nothing(pre: BookDetail, post: BookDetail, out: Outcome)
    requires
        BookDetail::handled(pre, Action::BookStatusCancel, post, out),
    ensures
        post.status_picker is None,
        post.book == pre.book,
        out.quiet(),
{
}

/// Whatever becomes of a write that was not refused, the screen shows the book
/// it answered with.
pub proof fn a_kept_write_is_shown(
    reply: WriteReply<Book>,
    done: Option<String>,
    queued: String,
    sent: Seq<Action>,
    pre: BookDetail,
    post: BookDetail,
    out: Outcome,
)
    requires
        updated(reply, done, queued, sent),
        !(reply is Failed),
        BookDetail::handled(pre, sent[0], post, out),
    ensures
        reply matches WriteReply::Confirmed(b) ==> post.book == Some(b),
        reply matches WriteReply::Provisional(b) ==> post.book == Some(b),
{
}

/// A page that was typed is written to the book on display: that page, and nothing else
/// of the book. A buffer that spells no number writes nothing.
pub proof fn a_typed_page_is_written_to_the_book(
    pre: BookDetail,
    book: Book,
    buf: String,
    post: BookDetail,
    out: Outcome,
)
    requires
        pre.book == Some(book),
        pre.edit_page == Some(buf),
        BookDetail::handled(pre, Action::SubmitPage, post, out),
    ensures
        post.edit_page is None,
        post.book == pre.book,
        number(buf@) is None ==> out.effects@.len() == 0,
        number(buf@) matches Some(page) ==> out.effects@.len() == 1 && (
        out.effects@[0] matches Effect::Call(Request::UpdateBook { current, update, .. })
            && *current == book && update.current_page == Some(page) && update.status is None
            && update.current_chapter_id is None),
{
}

/// Digits typed one after the other spell the page that is written.
pub proof fn the_digits_typed_are_the_page(
    pre: BookDetail,
    book: Book,
    begun: Outcome,
    states: Seq<BookDetail>,
    typed: Seq<char>,
    outs: Seq<Outcome>,
    post: BookDetail,
    out: Outcome,
)
    requires
        pre.book == Some(book),
        BookDetail::handled(pre, Action::BeginEditPage, states[0], begun),
        states.len() == typed.len() + 1,
        forall|i: int|
            #![trigger states[i]]
            0 <= i < typed.len() ==> BookDetail::handled(
                states[i],
                Action::EditPageInput(typed[i]),
                states[i + 1],
                outs[i],
            ),
        number(typed) is Some,
        BookDetail::handled(states.last(), Action::SubmitPage, post, out),
    ensures
        out.effects@.len() == 1,
        out.effects@[0] matches Effect::Call(Request::UpdateBook { current, update, .. })
            && *current == book && update.current_page == number(typed) && update.status is None
            && update.current_chapter_id is None,
{
    lemma_typed_page(states, typed, outs, typed.len() as int);
    assert(typed.take(typed.len() as int) =~= typed);
    assert(Seq::<char>::empty() + typed =~= typed);
}

proof fn lemma_typed_page(
    states: Seq<BookDetail>,
    typed: Seq<char>,
    outs: Seq<Outcome>,
    n: int,
)
    requires
        0 <= n <= typed.len(),
        states.len() == typed.len() + 1,
        states[0].edit_page is Some,
        forall|i: int|
            #![trigger states[i]]
            0 <= i < typed.len() ==> BookDetail::handled(
                states[i],
                Action::EditPageInput(typed[i]),
                states[i + 1],
                outs[i],
            ),
    ensures
        states[n].edit_page is Some,
        states[n].edit_page->0@ == states[0].edit_page->0@ + typed.take(n),
        states[n].book == states[0].book,
    decreases n,
{
    if n > 0 {
        lemma_typed_page(states, typed, outs, n - 1);
        assert(BookDetail::handled(
            states[n - 1],
            Action::EditPageInput(typed[n - 1]),
            states[n],
            outs[n - 1],
        ));
        assert(typed.take(n) =~= typed.take(n - 1).push(typed[n - 1]));
        assert(states[n].edit_page->0@ =~= states[0].edit_page->0@ + typed.take(n));
    } else {
        assert(states[0].edit_page->0@ + typed.take(0) =~= states[0].edit_page->0@);
    }
}

/// Marking a chapter goes to the one under the cursor, whichever row that is, and the
/// cursor goes on to the next one, as far as there is one.
pub proof fn the_chapter_under_the_cursor_is_marked(
    pre: BookDetail,
    row: usize,
    book: Book,
    post: BookDetail,
    out: Outcome,
)
    requires
        pre.book == Some(book),
        pre.cursor == Some(row),
        row < pre.chapters@.len() <= usize::MAX,
        BookDetail::handled(pre, Action::ToggleChapterDone, post, out),
    ensures
        out.effects@.len() == 1,
        out.effects@[0] matches Effect::Call(Request::UpdateBook { current, update, .. })
            && *current == book && update.current_chapter_id == Some(pre.chapters@[row as int].id)
            && update.current_page is None && update.status is None,
        post.cursor is Some,
        post.cursor->0 == (if row + 1 < pre.chapters@.len() {
            row + 1
        } else {
            row as int
        }),
        post.book == pre.book,
        post.chapters == pre.chapters,
{
}

/// Confirming the picker writes the status of the row it stands on to the book on
/// display, and nothing else of it.
pub proof fn the_status_under_the_cursor_is_written(
    pre: BookDetail,
    row: usize,
    book: Book,
    post: BookDetail,
    out: Outcome,
)
    requires
        pre.book == Some(book),
        pre.status_picker == Some(row),
        row < 5,
        BookDetail::handled(pre, Action::BookStatusConfirm, post, out),
    ensures
        out.effects@.len() == 1,
        out.effects@[0] matches Effect::Call(Request::UpdateBook { current, update, .. })
            && *current == book && update.current_page is None && update.current_chapter_id
            is None && (row == 0 ==> update.status == Some(BookStatus::Reading)) && (row == 1
            ==> update.status == Some(BookStatus::Completed)) && (row == 2 ==> update.status
            == Some(BookStatus::Unread)) && (row == 3 ==> update.status == Some(
            BookStatus::OnHold,
        )) && (row == 4 ==> update.status == Some(BookStatus::Abandoned)),
        post.status_picker is None,
        post.book == pre.book,
{
}

/// The key of a status, then `Enter`: that status is written, wherever the picker
/// stood.
pub proof fn a_chosen_status_is_written(
    a: BookDetail,
    status: BookStatus,
    b: BookDetail,
    c: BookDetail,
    x: Outcome,
    y: Outcome,
)
    requires
        a.book is Some,
        a.status_picker is Some,
        BookDetail::handled(a, Action::BookStatusSelect(status), b, x),
        BookDetail::handled(b, Action::BookStatusConfirm, c, y),
    ensures
        x.effects@.len() == 0,
        y.effects@.len() == 1,
        y.effects@[0] matches Effect::Call(Request::UpdateBook { current, update, .. })
            && *current == a.book->0 && update.status == Some(status) && update.current_page
            is None && update.current_chapter_id is None,
{
}

/// The keys of the statuses while the picker is open.
pub proof fn the_pickers_keys(s: BookDetail, key: KeyEvent)
    requires
        s.status_picker is Some,
    ensures
        key.code == KeyCode::Char('r') ==> s.intercepted(key) == Some(
            Action::BookStatusSelect(BookStatus::Reading),
        ),
        key.code == KeyCode::Char('c') ==> s.intercepted(key) == Some(
            Action::BookStatusSelect(BookStatus::Completed),
        ),
        key.code == KeyCode::Char('u') ==> s.intercepted(key) == Some(
            Action::BookStatusSelect(BookStatus::Unread),
        ),
        key.code == KeyCode::Char('h') ==> s.intercepted(key) == Some(
            Action::BookStatusSelect(BookStatus::OnHold),
        ),
        key.code == KeyCode::Char('a') ==> s.intercepted(key) == Some(
            Action::BookStatusSelect(BookStatus::Abandoned),
        ),
        key.code == KeyCode::Enter ==> s.intercepted(key) == Some(Action::BookStatusConfirm),
        key.code == KeyCode::Esc ==> s.intercepted(key) == Some(Action::BookStatusCancel),
{
}

/// A step in the picker goes one row on or back and stops at the ends.
pub proof fn a_step_walks_the_statuses(
    pre: BookDetail,
    row: usize,
    d: i32,
    post: BookDetail,
    out: Outcome,
)
    requires
        pre.status_picker == Some(row),
        row < 5,
        BookDetail::handled(pre, Action::BookStatusMove(d), post, out),
    ensures
        post.status_picker is Some,
        0 <= row + d < 5 ==> post.status_picker->0 == row + d,
        row + d < 0 ==> post.status_picker->0 == 0,
        row + d >= 5 ==> post.status_picker->0 == 4,
        post.book == pre.book,
        out.effects@.len() == 0,
{
}

/// A book opens on the chapter it is at, where it is at one that it has; on its first
/// one otherwise.
pub proof fn a_book_opens_on_its_chapter(
    pre: BookDetail,
    book: Box<Book>,
    chapters: Vec<BookChapter>,
    post: BookDetail,
    out: Outcome,
)
    requires
        chapters@.len() <= usize::MAX,
        BookDetail::handled(pre, Action::BookDetailLoaded { book, chapters }, post, out),
    ensures
        post.book == Some(*book),
        post.chapters == chapters,
        post.cursor is Some,
        book.current_chapter_id matches Some(id) && (exists|k: int|
            0 <= k < chapters@.len() && (#[trigger] chapters@[k]).id == id) ==> post.cursor->0
            < chapters@.len() && chapters@[post.cursor->0 as int].id
            == book.current_chapter_id->0,
        book.current_chapter_id is None ==> post.cursor->0 == 0,
        out.effects@.len() == 0,
{
    let ids = chapter_ids(chapters@);
    if let Some(id) = book.current_chapter_id {
        ids.index_of_first_ensures(id);
        if exists|k: int| 0 <= k < chapters@.len() && (#[trigger] chapters@[k]).id == id {
            let k = choose|k: int| 0 <= k < chapters@.len() && (#[trigger] chapters@[k]).id == id;
            assert(ids[k] == id);
            assert(ids.contains(id));
            let i = ids.index_of_first(id)->0;
            assert(ids[i] == chapters@[i].id);
        }
    }
}

/// A step lands on the chapter that far away, or on an end.
pub proof fn a_step_walks_the_chapters(
    pre: BookDetail,
    row: usize,
    d: i32,
    post: BookDetail,
    out: Outcome,
)
    requires
        pre.cursor == Some(row),
        row < pre.chapters@.len() <= usize::MAX,
        BookDetail::handled(pre, Action::ChapterMove(d), post, out),
    ensures
        post.cursor is Some,
        0 <= row + d < pre.chapters@.len() ==> post.cursor->0 == row + d,
        row + d < 0 ==> post.cursor->0 == 0,
        row + d >= pre.chapters@.len() ==> post.cursor->0 == pre.chapters@.len() - 1,
        post == (BookDetail { cursor: post.cursor, ..pre }),
        out.effects@.len() == 0,
{
}

/// A write that failed changes nothing on display and is loud; one that went through or
/// waits shows the book as it now stands.
pub proof fn a_failed_write_is_loud(
    reply: WriteReply<Book>,
    done: Option<String>,
    queued: String,
    res: Vec<Action>,
)
    requires
        call_ensures(book_written, (reply, done, queued), res),
    ensures
        reply is Failed ==> res@.len() == 1 && (res@[0] matches Action::Notify { level, .. }
            && level == Level::Error),
        reply matches WriteReply::Confirmed(b) ==> res@[0] == Action::BookUpdated(Box::new(b)),
        reply matches WriteReply::Provisional(b) ==> res@.len() == 2 && res@[0]
            == Action::BookUpdated(Box::new(b)) && (res@[1] matches Action::Notify { level, text }
            && level == Level::Info && text@ == queued@),
{
}

/// What is said of a write names what was written: the page by its number, the status by
/// its word, whether it went through or waits.
pub proof fn the_words_name_what_was_written(
    pre: BookDetail,
    book: Book,
    action: Action,
    post: BookDetail,
    out: Outcome,
)
    requires
        pre.book == Some(book),
        BookDetail::handled(pre, action, post, out),
    ensures
        action is SubmitPage && pre.edit_page is Some && number(pre.edit_page->0@) is Some ==> (
        out.effects@[0] matches Effect::Call(Request::UpdateBook { done, queued, .. }) && done
            is Some && crate::text::holds(
            queued@,
            decimal(number(pre.edit_page->0@)->0 as nat),
        )),
        action is BookStatusConfirm && pre.status_picker is Some ==> (
        out.effects@[0] matches Effect::Call(Request::UpdateBook { update, done, queued, .. })
            && update.status is Some && done is Some && crate::text::holds(
            done->0@,
            update.status->0.label_text(),
        ) && crate::text::holds(queued@, update.status->0.label_text())),
{
    if action is SubmitPage && pre.edit_page is Some && number(pre.edit_page->0@) is Some {
        let n = decimal(number(pre.edit_page->0@)->0 as nat);
        let head = "page "@;
        let tail = " · queued (offline) — will sync"@;
        let text = head + n + tail;
        assert(text.subrange(head.len() as int, (head.len() + n.len()) as int) =~= n);
        assert(crate::text::stands_at(text, n, head.len() as int));
    }
    if action is BookStatusConfirm && pre.status_picker is Some {
        let word = status_on(pre.status_picker->0 as int).label_text();
        let head = "status → "@;
        let done = head + word;
        let queued = done + " · queued (offline) — will sync"@;
        assert(done.subrange(head.len() as int, (head.len() + word.len()) as int) =~= word);
        assert(crate::text::stands_at(done, word, head.len() as int));
        assert(queued.subrange(head.len() as int, (head.len() + word.len()) as int) =~= word);
        assert(crate::text::stands_at(queued, word, head.len() as int));
    }
}

/// The heading shows the book on display, a chapter's row its own chapter, and a row of
/// the picker its own status with the key that picks it.
pub proof fn what_the_detail_shows(b: Book, c: BookChapter, current: Option<i64>, s: BookStatus)
    ensures
        BookDetail::heading_text(b)[0].1 == b.status.pill_text(),
        BookDetail::heading_text(b)[2].1 == b.title@,
        BookDetail::heading_text(b)[3].1 == "  · "@ + or_empty(b.author),
        BookDetail::chapter_text(c, current)[2].1 == c.title@,
        c.done ==> BookDetail::chapter_text(c, current)[0].1 == " ["@ + "✓"@ + "] "@,
        !c.done && !c.skipped ==> BookDetail::chapter_text(c, current)[0].1 == " ["@ + " "@ + "] "@,
        current == Some(c.id) <==> BookDetail::chapter_text(c, current)[2].0 == Tone::Focused,
        BookDetail::status_text(s)[0].1 == " "@ + seq![mnemonic_of(s)] + " "@,
        BookDetail::status_text(s)[1].1 == s.pill_text(),
{
}

/// The page is shown as it stands, out of how many where that is known.
pub proof fn the_page_is_shown_as_it_stands(page: u32, count: u32)
    ensures
        BookDetail::page_text(page, None) == "page "@ + decimal(page as nat),
        BookDetail::page_text(page, Some(count)) == "page "@ + decimal(page as nat) + (" / "@
            + decimal(count as nat)),
{
    assert(BookDetail::page_text(page, None) =~= "page "@ + decimal(page as nat));
}

/// Every field keeps its value but through the actions that are about it.
pub proof fn what_an_action_leaves_alone(
    pre: BookDetail,
    action: Action,
    post: BookDetail,
    out: Outcome,
)
    requires
        BookDetail::handled(pre, action, post, out),
    ensures
        post.book == pre.book || action is BookDetailLoaded || action is BookUpdated,
        post.chapters == pre.chapters || action is BookDetailLoaded,
        post.cursor == pre.cursor || action is BookDetailLoaded || action is ChapterMove
            || action is ToggleChapterDone,
        post.edit_page == pre.edit_page || action is BeginEditPage || action is EditPageInput
            || action is EditPageBackspace || action is CancelEdit || action is SubmitPage,
        post.status_picker == pre.status_picker || action is BookStatusPicker
            || action is BookStatusMove || action is BookStatusSelect || action is BookStatusCancel
            || action is BookStatusConfirm,
{
}

/// Only these actions say something, and only these send something; a read under way is
/// marked until it is answered.
pub proof fn which_actions_are_heard(
    pre: BookDetail,
    action: Action,
    post: BookDetail,
    out: Outcome,
)
    requires
        BookDetail::handled(pre, action, post, out),
    ensures
        out.note is None,
        out.effects@.len() == 0 || action is SubmitPage || action is ToggleChapterDone
            || action is BookStatusConfirm,
{
}

/// The screen starts without a book, with nothing typed or picked.
pub proof fn how_the_screen_starts(s: BookDetail)
    requires
        call_ensures(BookDetail::default, (), s),
    ensures
        s.book is None,
        s.chapters@.len() == 0,
        s.cursor == Some(0usize),
        s.edit_page is None,
        s.status_picker is None,
{
}

} // verus!
