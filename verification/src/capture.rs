//! Quick-capture overlay: a thought never costs a navigation, and is never lost.
//! An `Esc` on a draft that holds anything only arms a discard: a second one
//! confirms, any other key resumes. The draft can be pinned to a book, and there
//! to a chapter, a section or a page.

use crate::action::{notice, notifies, one, two, Action, Effect, Outcome, Request};
use crate::cursor::{select_step, select_stepped};
use crate::edit::{
    appended, at_end, draft_at_end, draft_drawn, draft_keyed, draft_lines, draft_marked, draft_place,
    draft_seen, draft_text, drawable, fresh_draft, glyphs, is_letter, make_textarea, show_draft,
    text_of, to_end, type_key, Draft, Glyph, LineInput, REVERSED,
};
use crate::keys::{digit_key, is_digit, KeyCode, KeyEvent};
use crate::line::{no_lines, page, push_line, Footer, Line, Tone};
use crate::model::{dup_text, Anchor, AnchorChapter, AnchorData, AnchorSection, Book, Fault, Note,
    NoteInput};
use crate::notify::Level;
use crate::picker::{item, Picker, PickerItem};
use crate::screens::notes::first_filled;
use crate::text::{
    blank, cat2, cat3, cat4, decimal, number, own, parse_number, pieces, show, show_signed,
    signed_decimal, split, texts, trim, trimmed,
};
use vstd::prelude::*;

verus! {

/// The field that the keys go to.
#[derive(Debug, Clone, Copy, PartialEq, Eq, Structural)]
pub enum Field {
    Content,
    Book,
    Anchor,
    Page,
}

impl Field {
    /// The next field in the ring.
    pub open spec fn after(self) -> Field {
        match self {
            Field::Content => Field::Book,
            Field::Book => Field::Anchor,
            Field::Anchor => Field::Page,
            Field::Page => Field::Content,
        }
    }

    /// The field before in the ring.
    pub open spec fn before(self) -> Field {
        match self {
            Field::Content => Field::Page,
            Field::Book => Field::Content,
            Field::Anchor => Field::Book,
            Field::Page => Field::Anchor,
        }
    }
}

/// What a row of the chapter picker pins: a chapter, or a chapter and one of its
/// sections. `echo` is the place in short, shown while composing.
#[derive(Debug)]
pub struct AnchorChoice {
    pub chapter_id: Option<i64>,
    pub section_id: Option<i64>,
    pub echo: String,
}

/// A row of the chapter picker.
pub struct AnchorRow {
    pub label: Seq<char>,
    pub chapter_id: Option<i64>,
    pub section_id: Option<i64>,
    pub echo: Seq<char>,
}

/// The models of the chapter picker's rows.
pub open spec fn anchor_rows(items: Seq<PickerItem<AnchorChoice>>) -> Seq<AnchorRow> {
    items.map_values(
        |i: PickerItem<AnchorChoice>|
            AnchorRow {
                label: i.label@,
                chapter_id: i.value.chapter_id,
                section_id: i.value.section_id,
                echo: i.value.echo@,
            },
    )
}

/// A place with its title behind it, where it has one.
pub open spec fn titled(place: Seq<char>, title: Option<String>) -> Seq<char> {
    match title {
        Some(t) => place + " · "@ + t@,
        None => place,
    }
}

/// A chapter in short: its number, or its id where it has none.
pub open spec fn chapter_place(ch: AnchorChapter) -> Seq<char> {
    match ch.number {
        Some(n) => "ch "@ + decimal(n as nat),
        None => "ch #"@ + signed_decimal(ch.id as int),
    }
}

/// A section in short: its number, or its id where it has none.
pub open spec fn section_place(sec: AnchorSection) -> Seq<char> {
    match sec.number {
        Some(n) => "§"@ + n@,
        None => "§#"@ + signed_decimal(sec.id as int),
    }
}

/// The row of a section, indented beneath its chapter.
pub open spec fn section_row(ch: AnchorChapter, sec: AnchorSection) -> AnchorRow {
    AnchorRow {
        label: titled("  "@ + section_place(sec), sec.title),
        chapter_id: Some(ch.id),
        section_id: Some(sec.id),
        echo: chapter_place(ch) + " · "@ + section_place(sec),
    }
}

/// The rows of a chapter: its own, then those of its sections.
pub open spec fn chapter_rows(ch: AnchorChapter) -> Seq<AnchorRow> {
    seq![
        AnchorRow {
            label: titled(chapter_place(ch), ch.title),
            chapter_id: Some(ch.id),
            section_id: None,
            echo: chapter_place(ch),
        },
    ] + ch.sections@.map_values(|sec: AnchorSection| section_row(ch, sec))
}

/// The rows of a book's chapters, flattened.
pub open spec fn flattened(chapters: Seq<AnchorChapter>) -> Seq<AnchorRow>
    decreases chapters.len(),
{
    if chapters.len() == 0 {
        Seq::empty()
    } else {
        flattened(chapters.drop_last()) + chapter_rows(chapters.last())
    }
}

fn with_title(place: String, title: &Option<String>) -> (res: String)
    ensures
        res@ == titled(place@, *title),
{
    match title {
        Some(t) => cat3(place.as_str(), " · ", t.as_str()),
        None => place,
    }
}

fn chapter_label(ch: &AnchorChapter) -> (res: String)
    ensures
        res@ == chapter_place(*ch),
{
    match ch.number {
        Some(n) => cat2("ch ", show(n as u64).as_str()),
        None => cat2("ch #", show_signed(ch.id).as_str()),
    }
}

fn section_label(sec: &AnchorSection) -> (res: String)
    ensures
        res@ == section_place(*sec),
{
    match &sec.number {
        Some(n) => cat2("§", n.as_str()),
        None => cat2("§#", show_signed(sec.id).as_str()),
    }
}

fn push_chapter(items: &mut Vec<PickerItem<AnchorChoice>>, ch: &AnchorChapter)
    ensures
        anchor_rows(final(items)@) == anchor_rows(old(items)@) + chapter_rows(*ch),
{
    let place = chapter_label(ch);
    let ghost start = anchor_rows(items@);
    items.push(
        item(
            with_title(place.clone(), &ch.title),
            AnchorChoice { chapter_id: Some(ch.id), section_id: None, echo: place.clone() },
        ),
    );
    let ghost head = chapter_rows(*ch).take(1);
    let mut i: usize = 0;
    assert(chapter_rows(*ch).take(1) =~= chapter_rows(*ch).take(1 + i as int));
    assert(anchor_rows(items@) =~= start + chapter_rows(*ch).take(1));
    while i < ch.sections.len()
        invariant
            i <= ch.sections.len(),
            place@ == chapter_place(*ch),
            anchor_rows(items@) == start + chapter_rows(*ch).take(1 + i as int),
        decreases ch.sections.len() - i,
    {
        let sec = &ch.sections[i];
        let here = section_label(sec);
        let ghost before = items@;
        items.push(
            item(
                with_title(cat2("  ", here.as_str()), &sec.title),
                AnchorChoice {
                    chapter_id: Some(ch.id),
                    section_id: Some(sec.id),
                    echo: cat3(place.as_str(), " · ", here.as_str()),
                },
            ),
        );
        assert(chapter_rows(*ch)[1 + i as int] == section_row(*ch, *sec));
        assert(anchor_rows(items@) =~= anchor_rows(before).push(section_row(*ch, *sec)));
        assert(anchor_rows(items@) =~= start + chapter_rows(*ch).take(2 + i as int));
        i = i + 1;
    }
    assert(chapter_rows(*ch).take(chapter_rows(*ch).len() as int) =~= chapter_rows(*ch));
}

/// Flatten a book's chapters into picker rows: a chapter, then its sections
/// indented beneath it.
pub fn anchor_items(data: &AnchorData) -> (res: Vec<PickerItem<AnchorChoice>>)
    ensures
        anchor_rows(res@) == flattened(data.chapters@),
{
    let mut items: Vec<PickerItem<AnchorChoice>> = Vec::new();
    assert(anchor_rows(items@) =~= Seq::<AnchorRow>::empty());
    let mut i: usize = 0;
    while i < data.chapters.len()
        invariant
            i <= data.chapters.len(),
            anchor_rows(items@) == flattened(data.chapters@.take(i as int)),
        decreases data.chapters.len() - i,
    {
        proof {
            let here = data.chapters@.take(i as int + 1);
            assert(here.drop_last() =~= data.chapters@.take(i as int));
            assert(here.last() == data.chapters@[i as int]);
        }
        push_chapter(&mut items, &data.chapters[i]);
        i = i + 1;
    }
    assert(data.chapters@.take(data.chapters@.len() as int) =~= data.chapters@);
    items
}

/// The quick-capture overlay.
#[derive(Debug)]
pub struct QuickCapture {
    pub content: Draft,
    pub page: LineInput,
    pub field: Field,
    pub book_id: Option<i64>,
    pub book_label: Option<String>,
    pub chapter_id: Option<i64>,
    pub section_id: Option<i64>,
    /// The pinned place in short; none while only a book (and maybe a page) is
    /// set.
    pub anchor_echo: Option<String>,
    /// The book's chapters, once read.
    pub anchor_data: Option<AnchorData>,
    pub anchor_loading: bool,
    pub anchor_picker: Option<Picker<AnchorChoice>>,
    /// Whether the anchor was touched: an edit that leaves it alone keeps the
    /// note's citations.
    pub anchor_touched: bool,
    /// The note being edited, where it is not a new one.
    pub editing: Option<i64>,
    pub pending: bool,
    /// A filled draft caught one `Esc`; the next one discards it.
    pub confirm_discard: bool,
    pub picking: bool,
    pub book_query: String,
    pub book_results: Vec<Book>,
    pub book_cursor: Option<usize>,
}

impl Default for QuickCapture {
    fn default() -> (res: Self)
        ensures
            res.blank_draft(),
            res.content == fresh_draft(Seq::empty()),
            draft_lines(res.content) == pieces(Seq::<char>::empty(), '\n'),
            draft_place(res.content) == Some((0int, 0int)),
    {
        let content = make_textarea("");
        proof {
            reveal_strlit("");
            assert(""@ =~= Seq::<char>::empty());
        }
        QuickCapture {
            content,
            page: LineInput::new(String::new()),
            field: Field::Content,
            book_id: None,
            book_label: None,
            chapter_id: None,
            section_id: None,
            anchor_echo: None,
            anchor_data: None,
            anchor_loading: false,
            anchor_picker: None,
            anchor_touched: false,
            editing: None,
            pending: false,
            confirm_discard: false,
            picking: false,
            book_query: String::new(),
            book_results: Vec::new(),
            book_cursor: None,
        }
    }
}

impl QuickCapture {
    /// Nothing but (maybe) content: no anchor, no edit, nothing under way.
    pub open spec fn blank_draft(self) -> bool {
        &&& self.wf()
        &&& self.page.value@ == Seq::<char>::empty()
        &&& self.field == Field::Content
        &&& self.book_id is None
        &&& self.book_label is None
        &&& self.chapter_id is None
        &&& self.section_id is None
        &&& self.anchor_echo is None
        &&& self.anchor_data is None
        &&& !self.anchor_loading
        &&& self.anchor_picker is None
        &&& !self.anchor_touched
        &&& self.editing is None
        &&& !self.pending
        &&& !self.confirm_discard
        &&& !self.picking
        &&& self.book_query@ == Seq::<char>::empty()
        &&& self.book_results@ == Seq::<Book>::empty()
        &&& self.book_cursor is None
    }

    /// The page field's cursor is inside its text.
    pub open spec fn wf(self) -> bool {
        self.page.wf()
    }

    /// A blank capture.
    pub fn new() -> (res: Self)
        ensures
            res.blank_draft(),
            res.content == fresh_draft(Seq::empty()),
            draft_text(res.content) == Seq::<char>::empty(),
            at_end(res.content),
    {
        let res = QuickCapture::default();
        proof {
            crate::edit::a_draft_reads_back(res.content, Seq::empty());
        }
        res
    }

    /// A new draft that holds a text, the cursor behind it.
    pub fn with_text(text: &str) -> (res: Self)
        ensures
            res.blank_draft(),
            res.content == draft_at_end(fresh_draft(text@)),
            draft_text(res.content) == text@,
            at_end(res.content),
    {
        let mut content = make_textarea(text);
        proof {
            crate::edit::a_draft_reads_back(content, text@);
            crate::text::lemma_pieces(text@, '\n');
        }
        to_end(&mut content);
        let mut res = QuickCapture::default();
        res.content = content;
        res
    }

    /// Whether this is the overlay opened on an existing note: its text, its
    /// book, and the place of its first citation, none of it touched.
    pub open spec fn opened_on(self, note: Note) -> bool {
        let text = if note.content is Some {
            note.content->0@
        } else {
            note.title@
        };
        let cited = note.citations@.len() > 0;
        let cite = note.citations@[0];
        &&& self.wf()
        &&& self.content == fresh_draft(text)
        &&& draft_text(self.content) == text
        &&& self.editing == Some(note.id)
        &&& self.book_id == note.book_id
        &&& self.book_label == note.book_title
        &&& self.chapter_id == (if cited {
            cite.book_chapter_id
        } else {
            None
        })
        &&& self.section_id == (if cited {
            cite.book_section_id
        } else {
            None
        })
        &&& self.anchor_echo == (if cited {
            cite.address_label
        } else {
            None
        })
        &&& self.page.value@ == (if cited && cite.page is Some {
            decimal(cite.page->0 as nat)
        } else {
            Seq::empty()
        })
        &&& draft_place(self.content) == Some((0int, 0int))
        &&& !self.anchor_touched
        &&& self.field == Field::Content
        &&& self.anchor_data is None
        &&& !self.anchor_loading
        &&& self.anchor_picker is None
        &&& !self.pending
        &&& !self.confirm_discard
        &&& !self.picking
        &&& self.book_query@ == Seq::<char>::empty()
        &&& self.book_results@ == Seq::<Book>::empty()
        &&& self.book_cursor is None
    }

    /// The overlay opened on an existing note: one editor, two verbs.
    pub fn for_edit(note: Note) -> (res: Self)
        ensures
            res.opened_on(note),
    {
        let text = match &note.content {
            Some(c) => c.clone(),
            None => note.title.clone(),
        };
        let mut s = QuickCapture::default();
        s.content = make_textarea(text.as_str());
        proof {
            crate::edit::a_draft_reads_back(s.content, text@);
        }
        s.editing = Some(note.id);
        s.book_id = note.book_id;
        if note.citations.len() > 0 {
            let cite = &note.citations[0];
            s.chapter_id = cite.book_chapter_id;
            s.section_id = cite.book_section_id;
            s.anchor_echo = dup_text(&cite.address_label);
            if let Some(p) = cite.page {
                s.page = LineInput::new(show(p as u64));
            }
        }
        s.book_label = note.book_title;
        s
    }

    /// The action that a key means to the overlay: the book search owns keys
    /// while open, then the chapter picker; otherwise `Ctrl-S` saves, `Ctrl-E`
    /// hands the draft to the editor, `Esc` leaves, `Tab` cycles the fields, and
    /// the rest goes to the focused field.
    pub open spec fn translated(self, key: KeyEvent) -> Option<Action> {
        let ctrl = key.modifiers.has_control();
        if self.picking {
            match key.code {
                KeyCode::Esc => Some(Action::CaptureBookPickerClose),
                KeyCode::Enter => Some(Action::CaptureBookPickerSubmit),
                KeyCode::Up => Some(Action::CaptureBookMove((-1) as i32)),
                KeyCode::Down => Some(Action::CaptureBookMove(1)),
                KeyCode::Backspace => Some(Action::CaptureBookBackspace),
                KeyCode::Char(c) => Some(Action::CaptureBookInput(c)),
                _ => None,
            }
        } else if self.anchor_picker is Some {
            match key.code {
                KeyCode::Esc => Some(Action::CaptureAnchorPickerClose),
                KeyCode::Enter => Some(Action::CaptureAnchorPickerSubmit),
                KeyCode::Up => Some(Action::CaptureAnchorMove((-1) as i32)),
                KeyCode::Down => Some(Action::CaptureAnchorMove(1)),
                KeyCode::Backspace => Some(Action::CaptureAnchorBackspace),
                KeyCode::Char(c) => if !ctrl {
                    Some(Action::CaptureAnchorInput(c))
                } else if c == 'n' {
                    Some(Action::CaptureAnchorMove(1))
                } else if c == 'p' {
                    Some(Action::CaptureAnchorMove((-1) as i32))
                } else {
                    None
                },
                _ => None,
            }
        } else if key.code == KeyCode::Char('s') && key.modifiers.bits == 2 {
            Some(Action::CaptureSave)
        } else if key.code == KeyCode::Char('e') && key.modifiers.bits == 2 {
            Some(Action::CaptureEditExternal)
        } else {
            match key.code {
                KeyCode::Esc => Some(Action::CaptureCancel),
                KeyCode::Tab => Some(Action::CaptureFieldNext),
                KeyCode::BackTab => Some(Action::CaptureFieldPrev),
                _ => Some(Action::CaptureKey(key)),
            }
        }
    }

    /// Map a raw key to a capture action.
    pub fn translate(&self, key: KeyEvent) -> (res: Option<Action>)
        ensures
            res == self.translated(key),
    {
        let ctrl = key.modifiers.with_control();
        if self.picking {
            return match key.code {
                KeyCode::Esc => Some(Action::CaptureBookPickerClose),
                KeyCode::Enter => Some(Action::CaptureBookPickerSubmit),
                KeyCode::Up => Some(Action::CaptureBookMove(-1)),
                KeyCode::Down => Some(Action::CaptureBookMove(1)),
                KeyCode::Backspace => Some(Action::CaptureBookBackspace),
                KeyCode::Char(c) => Some(Action::CaptureBookInput(c)),
                _ => None,
            };
        }
        if self.anchor_picker.is_some() {
            return match key.code {
                KeyCode::Esc => Some(Action::CaptureAnchorPickerClose),
                KeyCode::Enter => Some(Action::CaptureAnchorPickerSubmit),
                KeyCode::Up => Some(Action::CaptureAnchorMove(-1)),
                KeyCode::Down => Some(Action::CaptureAnchorMove(1)),
                KeyCode::Backspace => Some(Action::CaptureAnchorBackspace),
                KeyCode::Char(c) => if !ctrl {
                    Some(Action::CaptureAnchorInput(c))
                } else if c == 'n' {
                    Some(Action::CaptureAnchorMove(1))
                } else if c == 'p' {
                    Some(Action::CaptureAnchorMove(-1))
                } else {
                    None
                },
                _ => None,
            };
        }
        if key.modifiers.bits == 2 {
            if key.code == KeyCode::Char('s') {
                return Some(Action::CaptureSave);
            }
            if key.code == KeyCode::Char('e') {
                return Some(Action::CaptureEditExternal);
            }
        }
        match key.code {
            KeyCode::Esc => Some(Action::CaptureCancel),
            KeyCode::Tab => Some(Action::CaptureFieldNext),
            KeyCode::BackTab => Some(Action::CaptureFieldPrev),
            _ => Some(Action::CaptureKey(key)),
        }
    }

    // ---- the draft ----

    /// Whether the draft holds anything worth protecting.
    pub open spec fn filled(self) -> bool {
        ||| !blank(draft_text(self.content))
        ||| self.book_id is Some
        ||| self.chapter_id is Some
        ||| self.section_id is Some
        ||| !blank(self.page.value@)
    }

    /// The place that the draft describes: a book, and in it at least one of a
    /// chapter, a section and a page.
    pub open spec fn pinned(self) -> Option<Anchor> {
        let page = number(trimmed(self.page.value@));
        if self.book_id is Some && (self.chapter_id is Some || self.section_id is Some
            || page is Some) {
            Some(Anchor { chapter_id: self.chapter_id, section_id: self.section_id, page })
        } else {
            None
        }
    }

    /// The anchors that a save sends: none on an edit that left them alone.
    pub open spec fn sent_anchor(self) -> Option<Anchor> {
        if self.editing is Some && !self.anchor_touched {
            None
        } else {
            self.pinned()
        }
    }

    /// Whether a note body is the draft's.
    pub open spec fn drafts(self, input: NoteInput) -> bool {
        &&& input.title@ == derived_title(draft_text(self.content))
        &&& input.content is Some
        &&& input.content->0@ == draft_text(self.content)
        &&& input.book_id == self.book_id
        &&& input.anchors is Some <==> self.sent_anchor() is Some
        &&& input.anchors matches Some(v) ==> v@ == seq![self.sent_anchor()->0]
    }

    /// Whether the draft holds anything worth protecting.
    pub fn has_input(&self) -> (res: bool)
        ensures
            res == self.filled(),
    {
        !trim(text_of(&self.content).as_str()).as_str().is_empty() || self.book_id.is_some()
            || self.chapter_id.is_some() || self.section_id.is_some() || !trim(
            self.page.value(),
        ).as_str().is_empty()
    }

    /// The current note body: the seed handed to the editor.
    pub fn body(&self) -> (res: String)
        ensures
            res@ == draft_text(self.content),
    {
        text_of(&self.content)
    }

    /// Replace the body with a text that came back from the editor.
    pub fn set_content(&mut self, text: &str)
        ensures
            *final(self) == (QuickCapture {
                content: draft_at_end(fresh_draft(text@)),
                ..*old(self)
            }),
            draft_text(final(self).content) == text@,
            at_end(final(self).content),
    {
        let mut content = make_textarea(text);
        proof {
            crate::edit::a_draft_reads_back(content, text@);
            crate::text::lemma_pieces(text@, '\n');
        }
        to_end(&mut content);
        self.content = content;
    }

    /// The marks that the draft's cursor is shown under: reversed while the body
    /// has the focus, none otherwise.
    pub open spec fn cursor_marks(self) -> u16 {
        if self.field == Field::Content {
            REVERSED
        } else {
            0
        }
    }

    /// Draw the body in a window, row by row, and remember the window for the keys
    /// that go by it; none where the body is too large to be drawn.
    pub fn draw_body(&mut self, width: u16, height: u16) -> (res: Option<Vec<Glyph>>)
        ensures
            res is Some <==> drawable(draft_lines(old(self).content), width, height),
            res is None ==> *final(self) == *old(self),
            res matches Some(cells) ==> {
                let marked = draft_marked(old(self).content, old(self).cursor_marks());
                &&& *final(self) == (QuickCapture {
                    content: draft_seen(marked, width, height),
                    ..*old(self)
                })
                &&& glyphs(cells@) == draft_drawn(marked, width, height)
                &&& cells@.len() == width * height
            },
            draft_lines(final(self).content) == draft_lines(old(self).content),
            draft_place(final(self).content) == draft_place(old(self).content),
    {
        let marks: u16 = if self.field == Field::Content {
            REVERSED
        } else {
            0
        };
        show_draft(&mut self.content, marks, width, height)
    }

    /// The place that the draft describes, as the one anchor of a note.
    pub fn current_anchors(&self) -> (res: Option<Vec<Anchor>>)
        ensures
            res is Some <==> self.pinned() is Some,
            res matches Some(v) ==> v@ == seq![self.pinned()->0],
    {
        if self.book_id.is_none() {
            return None;
        }
        let page = parse_number(trim(self.page.value()).as_str());
        if self.chapter_id.is_none() && self.section_id.is_none() && page.is_none() {
            return None;
        }
        let mut v: Vec<Anchor> = Vec::new();
        v.push(Anchor { chapter_id: self.chapter_id, section_id: self.section_id, page });
        assert(v@ =~= seq![self.pinned()->0]);
        Some(v)
    }

    /// Build the note body from the draft.
    pub fn build_input(&self) -> (res: NoteInput)
        ensures
            self.drafts(res),
    {
        let text = text_of(&self.content);
        let title = derive_title(text.as_str());
        let anchors = if self.editing.is_some() && !self.anchor_touched {
            None
        } else {
            self.current_anchors()
        };
        NoteInput { title, content: Some(text), book_id: self.book_id, anchors }
    }
}

/// The title that a content-first note gets: its first filled line.
pub open spec fn derived_title(text: Seq<char>) -> Seq<char> {
    match first_filled(pieces(text, '\n')) {
        Some(line) => line,
        None => Seq::empty(),
    }
}

fn derive_title(text: &str) -> (res: String)
    ensures
        res@ == derived_title(text@),
{
    let lines = split(text, '\n');
    let mut i: usize = 0;
    assert(texts(lines@).skip(0) =~= texts(lines@));
    while i < lines.len()
        invariant
            i <= lines.len(),
            texts(lines@) == pieces(text@, '\n'),
            first_filled(texts(lines@).skip(i as int)) == first_filled(texts(lines@)),
        decreases lines.len() - i,
    {
        let line = trim(lines[i].as_str());
        assert(texts(lines@).skip(i as int)[0] == lines@[i as int]@);
        if !line.as_str().is_empty() {
            return line;
        }
        assert(texts(lines@).skip(i as int).drop_first() =~= texts(lines@).skip(i as int + 1));
        i = i + 1;
    }
    String::new()
}

// ---- the reducer ----

/// Whether an effect is the book search for a query.
pub open spec fn searches(e: Effect, query: Seq<char>) -> bool {
    e matches Effect::Call(Request::SearchBooks(q)) && {
        &&& q is None <==> blank(query)
        &&& q matches Some(text) ==> text@ == trimmed(query)
    }
}

fn search(query: &str) -> (res: Effect)
    ensures
        searches(res, query@),
{
    let q = trim(query);
    if q.as_str().is_empty() {
        Effect::Call(Request::SearchBooks(None))
    } else {
        Effect::Call(Request::SearchBooks(Some(q)))
    }
}

/// Nothing to say, and one book search to make.
pub open spec fn only_searches(out: Outcome, query: Seq<char>) -> bool {
    &&& out.note is None
    &&& out.effects@.len() == 1
    &&& searches(out.effects@[0], query)
}

/// The keys that clear the focused anchor field.
pub open spec fn clearing(code: KeyCode) -> bool {
    code == KeyCode::Char('x') || code == KeyCode::Delete || code == KeyCode::Backspace
}

impl QuickCapture {
    /// The draft without its chapter and section, the book link and page kept.
    pub open spec fn without_anchor(self) -> Self {
        QuickCapture {
            chapter_id: None,
            section_id: None,
            anchor_echo: None,
            anchor_touched: true,
            ..self
        }
    }

    /// The draft without its book, and with it the anchor that it scoped.
    pub open spec fn without_book(self) -> Self {
        QuickCapture { book_id: None, book_label: None, anchor_data: None, ..self.without_anchor() }
    }

    /// The book search, closed.
    pub open spec fn search_closed(pre: Self, post: Self) -> bool {
        &&& post == QuickCapture {
            picking: false,
            book_query: post.book_query,
            book_results: post.book_results,
            ..pre
        }
        &&& post.book_query@ == Seq::<char>::empty()
        &&& post.book_results@ == Seq::<Book>::empty()
    }

    /// The book search, open and empty.
    pub open spec fn search_opened(pre: Self, post: Self) -> bool {
        &&& post == QuickCapture {
            picking: true,
            book_query: post.book_query,
            book_results: post.book_results,
            book_cursor: Some(0usize),
            ..pre
        }
        &&& post.book_query@ == Seq::<char>::empty()
        &&& post.book_results@ == Seq::<Book>::empty()
    }

    /// How the focused field takes a key.
    pub open spec fn keyed(old_self: Self, key: KeyEvent, post: Self, out: Outcome) -> bool {
        let pre = QuickCapture { confirm_discard: false, ..old_self };
        match pre.field {
            Field::Content => {
                &&& post == QuickCapture { content: draft_keyed(pre.content, key), ..pre }
                &&& appended(pre.content, key, post.content)
                &&& out.quiet()
            },
            Field::Book => if key.code == KeyCode::Enter {
                Self::search_opened(pre, post) && only_searches(out, Seq::empty())
            } else if clearing(key.code) {
                post == pre.without_book() && out.quiet()
            } else {
                post == pre && out.quiet()
            },
            Field::Anchor => if key.code == KeyCode::Enter {
                post == pre && out.asks(seq![Effect::Send(Action::CaptureAnchorPickerOpen)])
            } else if clearing(key.code) {
                post == pre.without_anchor() && out.quiet()
            } else {
                post == pre && out.quiet()
            },
            Field::Page => if key.code matches KeyCode::Char(c) && !is_digit(c) {
                post == pre && out.quiet()
            } else {
                &&& post == QuickCapture { page: post.page, anchor_touched: true, ..pre }
                &&& LineInput::keyed(pre.page, key, post.page)
                &&& out.quiet()
            },
        }
    }

    /// The book under the search's cursor.
    pub open spec fn chosen_book(self) -> Option<Book> {
        match self.book_cursor {
            Some(i) => if i < self.book_results@.len() {
                Some(self.book_results@[i as int])
            } else {
                None
            },
            None => None,
        }
    }

    /// The draft linked to a book: another book drops the anchor of the old
    /// one, and the focus goes on to the chapter.
    pub open spec fn linked(self, book: Book) -> Self {
        if self.book_id == Some(book.id) {
            QuickCapture { book_label: Some(book.title), field: Field::Anchor, ..self }
        } else {
            QuickCapture {
                book_id: Some(book.id),
                book_label: Some(book.title),
                anchor_data: None,
                field: Field::Anchor,
                ..self.without_anchor()
            }
        }
    }

    /// The chapter picker put up over the chapters at hand, where there are any.
    pub open spec fn mounted(pre: Self, post: Self, out: Outcome) -> bool {
        let rows = match pre.anchor_data {
            Some(data) => flattened(data.chapters@),
            None => Seq::empty(),
        };
        if rows.len() == 0 {
            &&& post == pre
            &&& out.says(Level::Warning, "no chapters to anchor for this book"@)
        } else {
            &&& post == QuickCapture { anchor_picker: post.anchor_picker, ..pre }
            &&& post.anchor_picker is Some
            &&& post.anchor_picker->0.opened(
                "chapter · §section",
                post.anchor_picker->0.items@,
            )
            &&& anchor_rows(post.anchor_picker->0.items@) == rows
            &&& out.quiet()
        }
    }

    /// How the overlay answers an action. Every action that a key other than `Esc`
    /// means takes a discard warning back.
    pub open spec fn handled(pre: Self, action: Action, post: Self, out: Outcome) -> bool {
        let calm = QuickCapture { confirm_discard: false, ..pre };
        match action {
            Action::CaptureKey(key) => Self::keyed(pre, key, post, out),
            Action::CaptureFieldNext => {
                &&& post == QuickCapture { field: pre.field.after(), ..calm }
                &&& out.quiet()
            },
            Action::CaptureFieldPrev => {
                &&& post == QuickCapture { field: pre.field.before(), ..calm }
                &&& out.quiet()
            },
            Action::CaptureSave => if pre.pending {
                post == calm && out.says(Level::Warning, "saving…"@)
            } else if blank(draft_text(pre.content)) {
                post == calm && out.says(Level::Warning, "note is empty — type a thought first"@)
            } else {
                &&& post == QuickCapture { pending: true, ..calm }
                &&& out.note is None
                &&& out.effects@.len() == 1
                &&& out.effects@[0] matches Effect::Call(Request::SaveNote { editing, input }) && {
                    &&& editing == pre.editing
                    &&& pre.drafts(input)
                }
            },
            Action::CaptureEditExternal => post == calm && out.quiet(),
            Action::CaptureSaveFailed => {
                &&& post == QuickCapture { pending: false, ..pre }
                &&& out.quiet()
            },
            Action::CaptureCancel => if pre.filled() && !pre.confirm_discard {
                &&& post == QuickCapture { confirm_discard: true, ..pre }
                &&& out.says(
                    Level::Warning,
                    "unsaved note — Esc again to discard · Ctrl-S to save"@,
                )
            } else {
                post == pre && out.asks(seq![Effect::Send(Action::CaptureClose)])
            },
            Action::CaptureBookInput(c) => {
                &&& post == QuickCapture {
                    book_query: post.book_query,
                    book_cursor: Some(0usize),
                    ..calm
                }
                &&& post.book_query@ == pre.book_query@.push(c)
                &&& only_searches(out, post.book_query@)
            },
            Action::CaptureBookBackspace => {
                &&& post == QuickCapture {
                    book_query: post.book_query,
                    book_cursor: Some(0usize),
                    ..calm
                }
                &&& post.book_query@ == (if pre.book_query@.len() > 0 {
                    pre.book_query@.drop_last()
                } else {
                    pre.book_query@
                })
                &&& only_searches(out, post.book_query@)
            },
            Action::CaptureBookMove(delta) => {
                &&& post == QuickCapture {
                    book_cursor: if pre.book_results@.len() == 0 {
                        None
                    } else {
                        select_stepped(
                            pre.book_cursor,
                            delta as int,
                            pre.book_results@.len() as int,
                        )
                    },
                    ..calm
                }
                &&& out.quiet()
            },
            Action::CaptureBookResults(list) => {
                let cur: int = match pre.book_cursor {
                    Some(i) => i as int,
                    None => 0,
                };
                &&& post == QuickCapture {
                    book_results: list,
                    book_cursor: if list@.len() == 0 {
                        None
                    } else if cur >= list@.len() {
                        Some((list@.len() - 1) as usize)
                    } else {
                        pre.book_cursor
                    },
                    ..pre
                }
                &&& out.quiet()
            },
            Action::CaptureBookPickerSubmit => {
                &&& match pre.chosen_book() {
                    Some(book) => Self::search_closed(calm.linked(book), post),
                    None => Self::search_closed(calm, post),
                }
                &&& out.quiet()
            },
            Action::CaptureBookPickerClose => Self::search_closed(pre, post) && out.quiet(),
            Action::CaptureAnchorPickerOpen => if pre.book_id is None {
                post == pre && out.says(Level::Warning, "pick a book first"@)
            } else if pre.anchor_data is Some {
                Self::mounted(pre, post, out)
            } else {
                &&& post == QuickCapture { anchor_loading: true, ..pre }
                &&& out.noted(Level::Info, "loading chapters…"@)
                &&& out.effects@ == seq![Effect::Call(Request::LoadAnchors(pre.book_id->0))]
            },
            Action::CaptureAnchorDataLoaded(data) => Self::mounted(
                QuickCapture { anchor_data: Some(*data), anchor_loading: false, ..pre },
                post,
                out,
            ),
            Action::CaptureAnchorInput(c) => {
                &&& post == QuickCapture { anchor_picker: post.anchor_picker, ..calm }
                &&& post.anchor_picker is Some <==> pre.anchor_picker is Some
                &&& pre.anchor_picker matches Some(p) ==> Picker::typed(
                    p,
                    c,
                    post.anchor_picker->0,
                )
                &&& out.quiet()
            },
            Action::CaptureAnchorBackspace => {
                &&& post == QuickCapture { anchor_picker: post.anchor_picker, ..calm }
                &&& post.anchor_picker is Some <==> pre.anchor_picker is Some
                &&& pre.anchor_picker matches Some(p) ==> Picker::untyped(p, post.anchor_picker->0)
                &&& out.quiet()
            },
            Action::CaptureAnchorMove(delta) => {
                &&& post == QuickCapture { anchor_picker: post.anchor_picker, ..calm }
                &&& post.anchor_picker is Some <==> pre.anchor_picker is Some
                &&& pre.anchor_picker matches Some(p) ==> Picker::moved(
                    p,
                    delta as int,
                    post.anchor_picker->0,
                )
                &&& out.quiet()
            },
            Action::CaptureAnchorPickerSubmit => {
                &&& if pre.anchor_picker is Some && pre.anchor_picker->0.chosen() is Some {
                    let choice = pre.anchor_picker->0.chosen()->0.value;
                    post == QuickCapture {
                        chapter_id: choice.chapter_id,
                        section_id: choice.section_id,
                        anchor_echo: Some(choice.echo),
                        anchor_touched: true,
                        field: Field::Page,
                        anchor_picker: None,
                        ..calm
                    }
                } else {
                    post == QuickCapture { anchor_picker: None, ..calm }
                }
                &&& out.quiet()
            },
            Action::CaptureAnchorPickerClose => {
                &&& post == QuickCapture { anchor_picker: None, ..pre }
                &&& out.quiet()
            },
            _ => post == pre && out.quiet(),
        }
    }

    fn clear_anchor(&mut self)
        ensures
            *final(self) == old(self).without_anchor(),
    {
        self.chapter_id = None;
        self.section_id = None;
        self.anchor_echo = None;
        self.anchor_touched = true;
    }

    fn clear_book(&mut self)
        ensures
            *final(self) == old(self).without_book(),
    {
        self.book_id = None;
        self.book_label = None;
        self.clear_anchor();
        self.anchor_data = None;
    }

    fn open_picker(&mut self) -> (out: Outcome)
        ensures
            Self::search_opened(*old(self), *final(self)),
            only_searches(out, Seq::empty()),
    {
        self.picking = true;
        self.book_query.clear();
        self.book_results.clear();
        self.book_cursor = Some(0);
        Outcome::ask(search(self.book_query.as_str()))
    }

    fn close_picker(&mut self)
        ensures
            Self::search_closed(*old(self), *final(self)),
    {
        self.picking = false;
        self.book_query.clear();
        self.book_results.clear();
    }

    fn press(&mut self, key: KeyEvent) -> (out: Outcome)
        requires
            old(self).wf(),
        ensures
            final(self).wf(),
            Self::keyed(*old(self), key, *final(self), out),
    {
        self.confirm_discard = false;
        match self.field {
            Field::Content => {
                type_key(&mut self.content, key);
            },
            Field::Book => match key.code {
                KeyCode::Enter => {
                    return self.open_picker();
                },
                KeyCode::Char('x') | KeyCode::Delete | KeyCode::Backspace => self.clear_book(),
                _ => {},
            },
            Field::Anchor => match key.code {
                KeyCode::Enter => {
                    return Outcome::send(Action::CaptureAnchorPickerOpen);
                },
                KeyCode::Char('x') | KeyCode::Delete | KeyCode::Backspace => self.clear_anchor(),
                _ => {},
            },
            Field::Page => {
                if let KeyCode::Char(c) = key.code {
                    if !digit_key(c) {
                        return Outcome::none();
                    }
                }
                self.page.press(key);
                self.anchor_touched = true;
            },
        }
        Outcome::none()
    }

    fn pick_book(&mut self)
        ensures
            match old(self).chosen_book() {
                Some(book) => Self::search_closed(old(self).linked(book), *final(self)),
                None => Self::search_closed(*old(self), *final(self)),
            },
    {
        let picked = match self.book_cursor {
            Some(i) => if i < self.book_results.len() {
                Some((self.book_results[i].id, self.book_results[i].title.clone()))
            } else {
                None
            },
            None => None,
        };
        if let Some((id, title)) = picked {
            let changed = match self.book_id {
                Some(had) => had != id,
                None => true,
            };
            self.book_id = Some(id);
            self.book_label = Some(title);
            if changed {
                self.clear_anchor();
                self.anchor_data = None;
            }
            self.field = Field::Anchor;
        }
        self.close_picker();
    }

    fn mount_anchor_picker(&mut self) -> (out: Outcome)
        ensures
            Self::mounted(*old(self), *final(self), out),
    {
        let items = match &self.anchor_data {
            Some(data) => anchor_items(data),
            None => Vec::new(),
        };
        assert(anchor_rows(items@).len() == items@.len());
        if items.len() == 0 {
            return Outcome::say(Level::Warning, own("no chapters to anchor for this book"));
        }
        self.anchor_picker = Some(Picker::new("chapter · §section", items));
        Outcome::none()
    }

    fn open_anchor_picker(&mut self) -> (out: Outcome)
        ensures
            Self::handled(*old(self), Action::CaptureAnchorPickerOpen, *final(self), out),
    {
        match self.book_id {
            None => Outcome::say(Level::Warning, own("pick a book first")),
            Some(id) => {
                if self.anchor_data.is_some() {
                    return self.mount_anchor_picker();
                }
                self.anchor_loading = true;
                let mut out = Outcome::call(Request::LoadAnchors(id));
                out.note = Some((Level::Info, own("loading chapters…")));
                out
            },
        }
    }

    fn pin_choice(&mut self)
        ensures
            if old(self).anchor_picker is Some && old(self).anchor_picker->0.chosen() is Some {
                let choice = old(self).anchor_picker->0.chosen()->0.value;
                *final(self) == (QuickCapture {
                    chapter_id: choice.chapter_id,
                    section_id: choice.section_id,
                    anchor_echo: Some(choice.echo),
                    anchor_touched: true,
                    field: Field::Page,
                    anchor_picker: None,
                    ..*old(self)
                })
            } else {
                *final(self) == (QuickCapture { anchor_picker: None, ..*old(self) })
            },
    {
        let picked = match &self.anchor_picker {
            Some(p) => match p.selected() {
                Some(c) => Some((c.chapter_id, c.section_id, c.echo.clone())),
                None => None,
            },
            None => None,
        };
        if let Some((chapter_id, section_id, echo)) = picked {
            self.chapter_id = chapter_id;
            self.section_id = section_id;
            self.anchor_echo = Some(echo);
            self.anchor_touched = true;
            self.field = Field::Page;
        }
        self.anchor_picker = None;
    }

    /// How the overlay answers an action.
    #[verifier::rlimit(60)]
    #[verifier::spinoff_prover]
    pub fn handle(&mut self, action: Action) -> (out: Outcome)
        requires
            old(self).wf(),
        ensures
            final(self).wf(),
            Self::handled(*old(self), action, *final(self), out),
    {
        match action {
            Action::CaptureKey(key) => {
                return self.press(key);
            },
            Action::CaptureFieldNext => {
                self.confirm_discard = false;
                self.field = self.next_field();
            },
            Action::CaptureFieldPrev => {
                self.confirm_discard = false;
                self.field = self.prev_field();
            },
            Action::CaptureEditExternal => self.confirm_discard = false,
            Action::CaptureSave => {
                self.confirm_discard = false;
                if self.pending {
                    return Outcome::say(Level::Warning, own("saving…"));
                }
                if trim(text_of(&self.content).as_str()).as_str().is_empty() {
                    return Outcome::say(
                        Level::Warning,
                        own("note is empty — type a thought first"),
                    );
                }
                let input = self.build_input();
                self.pending = true;
                return Outcome::call(Request::SaveNote { editing: self.editing, input });
            },
            Action::CaptureSaveFailed => self.pending = false,
            Action::CaptureCancel => {
                if self.has_input() && !self.confirm_discard {
                    self.confirm_discard = true;
                    return Outcome::say(
                        Level::Warning,
                        own("unsaved note — Esc again to discard · Ctrl-S to save"),
                    );
                }
                return Outcome::send(Action::CaptureClose);
            },
            Action::CaptureBookInput(c) => {
                self.confirm_discard = false;
                self.book_query.push(c);
                self.book_cursor = Some(0);
                return Outcome::ask(search(self.book_query.as_str()));
            },
            Action::CaptureBookBackspace => {
                self.confirm_discard = false;
                let _ = self.book_query.pop();
                self.book_cursor = Some(0);
                return Outcome::ask(search(self.book_query.as_str()));
            },
            Action::CaptureBookMove(delta) => {
                self.confirm_discard = false;
                if self.book_results.len() == 0 {
                    self.book_cursor = None;
                } else {
                    self.book_cursor = select_step(
                        self.book_cursor,
                        delta,
                        self.book_results.len(),
                    );
                }
            },
            Action::CaptureBookResults(list) => {
                self.book_results = list;
                let cur: usize = match self.book_cursor {
                    Some(i) => i,
                    None => 0,
                };
                if self.book_results.len() == 0 {
                    self.book_cursor = None;
                } else if cur >= self.book_results.len() {
                    self.book_cursor = Some(self.book_results.len() - 1);
                }
            },
            Action::CaptureBookPickerSubmit => {
                self.confirm_discard = false;
                self.pick_book();
            },
            Action::CaptureBookPickerClose => self.close_picker(),
            Action::CaptureAnchorPickerOpen => {
                return self.open_anchor_picker();
            },
            Action::CaptureAnchorDataLoaded(data) => {
                self.anchor_data = Some(*data);
                self.anchor_loading = false;
                return self.mount_anchor_picker();
            },
            Action::CaptureAnchorInput(c) => {
                self.confirm_discard = false;
                if let Some(p) = &mut self.anchor_picker {
                    p.input(c);
                }
            },
            Action::CaptureAnchorBackspace => {
                self.confirm_discard = false;
                if let Some(p) = &mut self.anchor_picker {
                    p.backspace();
                }
            },
            Action::CaptureAnchorMove(delta) => {
                self.confirm_discard = false;
                if let Some(p) = &mut self.anchor_picker {
                    p.move_cursor(delta);
                }
            },
            Action::CaptureAnchorPickerSubmit => {
                self.confirm_discard = false;
                self.pin_choice();
            },
            Action::CaptureAnchorPickerClose => self.anchor_picker = None,
            _ => {},
        }
        Outcome::none()
    }

    fn next_field(&self) -> (res: Field)
        ensures
            res == self.field.after(),
    {
        match self.field {
            Field::Content => Field::Book,
            Field::Book => Field::Anchor,
            Field::Anchor => Field::Page,
            Field::Page => Field::Content,
        }
    }

    fn prev_field(&self) -> (res: Field)
        ensures
            res == self.field.before(),
    {
        match self.field {
            Field::Content => Field::Page,
            Field::Book => Field::Content,
            Field::Anchor => Field::Book,
            Field::Page => Field::Anchor,
        }
    }
}

// ---- what the overlay says ----

impl QuickCapture {
    /// The overlay's title.
    pub open spec fn title_text(self) -> &'static str {
        if self.editing is Some {
            "Edit note"
        } else {
            "Quick capture"
        }
    }

    /// The overlay's title.
    pub fn title(&self) -> (res: &'static str)
        ensures
            res == self.title_text(),
    {
        if self.editing.is_some() {
            "Edit note"
        } else {
            "Quick capture"
        }
    }

    /// The place as composed so far: the pinned chapter or section, and the
    /// page.
    pub open spec fn place_text(self) -> Seq<char> {
        let page = trimmed(self.page.value@);
        let echo = crate::text::or_empty(self.anchor_echo);
        if page.len() == 0 {
            echo
        } else if echo.len() == 0 {
            "p."@ + page
        } else {
            echo + " · p."@ + page
        }
    }

    /// What will be pinned, echoed while composing.
    pub open spec fn preview_text(self) -> Option<Seq<char>> {
        let place = self.place_text();
        match self.book_label {
            Some(b) => if place.len() > 0 {
                Some("anchor: "@ + b@ + " · "@ + place)
            } else {
                Some("anchor: "@ + b@)
            },
            None => if place.len() > 0 {
                Some("anchor: "@ + place + " — pick a book to save it"@)
            } else {
                None
            },
        }
    }

    /// What will be pinned, echoed while composing.
    pub fn preview(&self) -> (res: Option<String>)
        ensures
            res is Some <==> self.preview_text() is Some,
            res matches Some(s) ==> s@ == self.preview_text()->0,
    {
        let page = trim(self.page.value());
        let echo = crate::text::text_or_empty(&self.anchor_echo);
        let place = if page.as_str().is_empty() {
            echo
        } else if echo.as_str().is_empty() {
            cat2("p.", page.as_str())
        } else {
            cat3(echo.as_str(), " · p.", page.as_str())
        };
        match &self.book_label {
            Some(b) => if !place.as_str().is_empty() {
                Some(cat4("anchor: ", b.as_str(), " · ", place.as_str()))
            } else {
                Some(cat2("anchor: ", b.as_str()))
            },
            None => if !place.as_str().is_empty() {
                Some(cat3("anchor: ", place.as_str(), " — pick a book to save it"))
            } else {
                None
            },
        }
    }

    /// The lines beneath the draft: book, chapter, page, and the preview where
    /// there is one.
    pub open spec fn meta_page(self) -> Seq<Seq<(Tone, Seq<char>)>> {
        let book = match self.book_label {
            Some(b) => b@,
            None => "none — Enter to pick"@,
        };
        let anchor = match self.anchor_echo {
            Some(e) => e@,
            None => if self.book_id is Some {
                "none — Enter to pick"@
            } else {
                "— pick a book first"@
            },
        };
        seq![
            field_spans(self.field == Field::Book, "book"@, book, false),
            field_spans(self.field == Field::Anchor, "chapter/§"@, anchor, false),
            field_spans(self.field == Field::Page, "page"@, self.page.value@, true),
        ] + (match self.preview_text() {
            Some(p) => seq![seq![(Tone::Muted, "  "@ + p)]],
            None => Seq::empty(),
        })
    }

    /// The lines beneath the draft.
    pub fn meta_lines(&self) -> (res: Vec<Line>)
        ensures
            page(res@) == self.meta_page(),
    {
        let book = match &self.book_label {
            Some(b) => b.clone(),
            None => own("none — Enter to pick"),
        };
        let anchor = match &self.anchor_echo {
            Some(e) => e.clone(),
            None => if self.book_id.is_some() {
                own("none — Enter to pick")
            } else {
                own("— pick a book first")
            },
        };
        let mut lines = no_lines();
        push_line(&mut lines, field_line(self.field == Field::Book, "book", book, false));
        push_line(&mut lines, field_line(self.field == Field::Anchor, "chapter/§", anchor, false));
        push_line(
            &mut lines,
            field_line(self.field == Field::Page, "page", self.page.value.clone(), true),
        );
        if let Some(p) = self.preview() {
            push_line(&mut lines, Line::of(Tone::Muted, cat2("  ", p.as_str())));
        }
        assert(page(lines@) =~~= self.meta_page());
        lines
    }

    /// The prompt of the book search.
    pub fn search_prompt(&self) -> (res: Line)
        ensures
            res@ == seq![
                (Tone::Plain, "anchor to  "@),
                (Tone::Focused, self.book_query@ + "_"@),
            ],
    {
        let l = Line::of(Tone::Plain, own("anchor to  ")).with(
            Tone::Focused,
            cat2(self.book_query.as_str(), "_"),
        );
        assert(l@ =~= seq![
            (Tone::Plain, "anchor to  "@),
            (Tone::Focused, self.book_query@ + "_"@),
        ]);
        l
    }

    /// What the footer offers.
    pub open spec fn offered(self, f: Footer) -> bool {
        if self.picking {
            f.reads(Tone::Muted, "type to search · ↑/↓ pick · ↵ select · Esc back"@)
        } else if self.anchor_picker is Some {
            f.reads(Tone::Muted, "type to filter · ↑/↓ chapter/§ · ↵ pin · Esc back"@)
        } else if self.confirm_discard {
            f.reads(Tone::Focused, "unsaved — Esc again to discard · Ctrl-S to save"@)
        } else {
            f.offers(
                seq![
                    ("^S", "save"),
                    ("^E", "$EDITOR"),
                    ("Tab", "field"),
                    ("↵", "book/newline"),
                    ("Esc", "close"),
                ],
            )
        }
    }

    /// What the footer offers.
    pub fn hints(&self) -> (res: Footer)
        ensures
            self.offered(res),
    {
        if self.picking {
            return Footer::Text(
                Line::of(Tone::Muted, own("type to search · ↑/↓ pick · ↵ select · Esc back")),
            );
        }
        if self.anchor_picker.is_some() {
            return Footer::Text(
                Line::of(Tone::Muted, own("type to filter · ↑/↓ chapter/§ · ↵ pin · Esc back")),
            );
        }
        if self.confirm_discard {
            return Footer::Text(
                Line::of(Tone::Focused, own("unsaved — Esc again to discard · Ctrl-S to save")),
            );
        }
        Footer::Keys(
            vec![
                ("^S", "save"),
                ("^E", "$EDITOR"),
                ("Tab", "field"),
                ("↵", "book/newline"),
                ("Esc", "close"),
            ],
        )
    }
}

/// A field's line: a marker where it has the focus, its label, its value, and a
/// cursor where it takes text.
pub open spec fn field_spans(
    focused: bool,
    label: Seq<char>,
    value: Seq<char>,
    cursor: bool,
) -> Seq<(Tone, Seq<char>)> {
    seq![
        (
            Tone::Focused,
            if focused {
                "▌ "@
            } else {
                "  "@
            },
        ),
        (Tone::Muted, label + "  "@),
        (
            Tone::Plain,
            if focused && cursor {
                value + "_"@
            } else {
                value
            },
        ),
    ]
}

fn field_line(focused: bool, label: &str, value: String, cursor: bool) -> (res: Line)
    ensures
        res@ == field_spans(focused, label@, value@, cursor),
{
    let marker = if focused {
        own("▌ ")
    } else {
        own("  ")
    };
    let shown = if focused && cursor {
        cat2(value.as_str(), "_")
    } else {
        value
    };
    let l = Line::of(Tone::Focused, marker).with(Tone::Muted, cat2(label, "  ")).with(
        Tone::Plain,
        shown,
    );
    assert(l@ =~= field_spans(focused, label@, value@, cursor));
    l
}

// ---- what the calls answer ----

/// What a save sends back; a failed one can be tried again.
pub fn saved(reply: Result<(), Fault>) -> (res: Vec<Action>)
    ensures
        match reply {
            Ok(_) => res@ == seq![Action::CaptureSaved],
            Err(e) => {
                &&& res@.len() == 2
                &&& notifies(res@[0], Level::Error, "save failed: "@ + e.shown@)
                &&& res@[1] == Action::CaptureSaveFailed
            },
        },
{
    match reply {
        Ok(_) => one(Action::CaptureSaved),
        Err(e) => two(
            notice(Level::Error, cat2("save failed: ", e.shown.as_str())),
            Action::CaptureSaveFailed,
        ),
    }
}

/// What the read of a book's chapters sends back.
pub fn anchors_read(reply: Result<Box<AnchorData>, Fault>) -> (res: Action)
    ensures
        match reply {
            Ok(data) => res == Action::CaptureAnchorDataLoaded(data),
            Err(e) => notifies(res, Level::Error, "chapters unavailable: "@ + e.shown@),
        },
{
    match reply {
        Ok(data) => Action::CaptureAnchorDataLoaded(data),
        Err(e) => notice(Level::Error, cat2("chapters unavailable: ", e.shown.as_str())),
    }
}

// ---- laws ----

/// Typing behind the text records it: a letter goes in at the end, `Enter` breaks
/// the line, and the cursor stays behind what was typed.
pub proof fn typing_records_the_text(pre: QuickCapture, key: KeyEvent, post: QuickCapture, out: Outcome)
    requires
        pre.field == Field::Content,
        at_end(pre.content),
        is_letter(key) || key.code == KeyCode::Enter,
        QuickCapture::handled(pre, Action::CaptureKey(key), post, out),
    ensures
        at_end(post.content),
        draft_text(post.content) == draft_text(pre.content).push(
            if key.code == KeyCode::Enter {
                '\n'
            } else {
                key.code->0
            },
        ),
        post.field == Field::Content,
{
}

/// Whether an outcome asks to close the overlay.
pub open spec fn closes(out: Outcome) -> bool {
    exists|i: int|
        0 <= i < out.effects@.len() && #[trigger] out.effects@[i] == Effect::Send(
            Action::CaptureClose,
        )
}

/// Capture is sacred: nothing but `Esc` closes the overlay, and on a draft that
/// holds anything only an `Esc` that follows the warning.
pub proof fn only_a_confirmed_discard_closes(
    pre: QuickCapture,
    action: Action,
    post: QuickCapture,
    out: Outcome,
)
    requires
        QuickCapture::handled(pre, action, post, out),
        closes(out),
    ensures
        action is CaptureCancel,
        pre.filled() ==> pre.confirm_discard,
{
    let i = choose|i: int|
        0 <= i < out.effects@.len() && #[trigger] out.effects@[i] == Effect::Send(
            Action::CaptureClose,
        );
    assert(out.effects@[i] == Effect::Send(Action::CaptureClose));
}

/// The first `Esc` on a filled draft only arms the discard: the draft stays
/// whole. The second one closes.
pub proof fn two_escapes_discard(
    a: QuickCapture,
    b: QuickCapture,
    c: QuickCapture,
    x: Outcome,
    y: Outcome,
)
    requires
        a.filled(),
        !a.confirm_discard,
        QuickCapture::handled(a, Action::CaptureCancel, b, x),
        QuickCapture::handled(b, Action::CaptureCancel, c, y),
    ensures
        b == (QuickCapture { confirm_discard: true, ..a }),
        !closes(x),
        y.asks(seq![Effect::Send(Action::CaptureClose)]),
{
}

/// Any key but `Esc` takes the warning back, whatever it means, and closes
/// nothing.
pub proof fn a_keystroke_resumes_editing(
    pre: QuickCapture,
    key: KeyEvent,
    post: QuickCapture,
    out: Outcome,
)
    requires
        key.code != KeyCode::Esc,
        pre.translated(key) is Some,
        QuickCapture::handled(pre, pre.translated(key)->0, post, out),
    ensures
        !post.confirm_discard,
        !closes(out),
{
}

/// A save that failed is never followed by the loss of the draft at one `Esc`:
/// the discard is armed anew first.
pub proof fn a_failed_save_keeps_the_draft(
    a: QuickCapture,
    b: QuickCapture,
    c: QuickCapture,
    d: QuickCapture,
    x: Outcome,
    y: Outcome,
    z: Outcome,
)
    requires
        a.filled(),
        QuickCapture::handled(a, Action::CaptureSave, b, x),
        QuickCapture::handled(b, Action::CaptureSaveFailed, c, y),
        QuickCapture::handled(c, Action::CaptureCancel, d, z),
    ensures
        d.content == a.content,
        d.confirm_discard,
        z.noted(Level::Warning, "unsaved note — Esc again to discard · Ctrl-S to save"@),
        !closes(z),
{
}

/// The fields form a ring of four, walked the same both ways.
pub proof fn the_fields_form_a_ring(f: Field)
    ensures
        f.after().before() == f,
        f.before().after() == f,
        f.after().after().after().after() == f,
        f.after() != f,
{
}

/// An edit that leaves the anchor alone sends none, so that the note keeps its
/// citations; the book link is sent all the same.
pub proof fn an_untouched_edit_keeps_the_citations(s: QuickCapture, note: Note, input: NoteInput)
    requires
        s.opened_on(note),
        s.drafts(input),
    ensures
        input.anchors is None,
        input.book_id == note.book_id,
{
}

/// Without a book there is nothing to pin to, whatever else the draft names.
pub proof fn no_anchor_without_a_book(s: QuickCapture, input: NoteInput)
    requires
        s.book_id is None,
        s.drafts(input),
    ensures
        input.anchors is None,
{
}

/// Saving is asked for once: a draft on its way, and an empty one, send nothing.
pub proof fn a_save_is_sent_once(
    a: QuickCapture,
    b: QuickCapture,
    c: QuickCapture,
    x: Outcome,
    y: Outcome,
)
    requires
        QuickCapture::handled(a, Action::CaptureSave, b, x),
        QuickCapture::handled(b, Action::CaptureSave, c, y),
    ensures
        y.effects@.len() == 0,
        blank(draft_text(a.content)) ==> x.effects@.len() == 0,
        c == b,
{
}

/// Every row of the chapter picker pins a chapter, and a section only together
/// with its chapter.
pub proof fn every_row_pins_a_chapter(chapters: Seq<AnchorChapter>)
    ensures
        forall|i: int|
            0 <= i < flattened(chapters).len() ==> (#[trigger] flattened(
                chapters,
            )[i]).chapter_id is Some,
    decreases chapters.len(),
{
    if chapters.len() > 0 {
        every_row_pins_a_chapter(chapters.drop_last());
        let before = flattened(chapters.drop_last());
        let all = flattened(chapters);
        assert forall|i: int| 0 <= i < all.len() implies (#[trigger] all[i]).chapter_id is Some by {
            if i < before.len() {
                assert(all[i] == before[i]);
            } else {
                assert(all[i] == chapter_rows(chapters.last())[i - before.len()]);
            }
        }
    }
}

/// Choosing another book drops the chapter and section of the old one.
pub proof fn another_book_drops_the_anchor(
    pre: QuickCapture,
    post: QuickCapture,
    out: Outcome,
)
    requires
        pre.chosen_book() is Some,
        pre.book_id != Some(pre.chosen_book()->0.id),
        QuickCapture::handled(pre, Action::CaptureBookPickerSubmit, post, out),
    ensures
        post.book_id == Some(pre.chosen_book()->0.id),
        post.chapter_id is None,
        post.section_id is None,
        post.anchor_echo is None,
        post.anchor_data is None,
        post.anchor_touched,
        !post.picking,
{
}

/// Which note a save writes to is settled when the overlay opens: nothing that
/// happens in it changes that.
pub proof fn the_note_being_edited_stays(
    pre: QuickCapture,
    action: Action,
    post: QuickCapture,
    out: Outcome,
)
    requires
        QuickCapture::handled(pre, action, post, out),
    ensures
        post.editing == pre.editing,
{
}

/// Whatever happens between the opening of the overlay and a save, the note being
/// edited stays the same.
pub proof fn a_run_keeps_the_note(
    states: Seq<QuickCapture>,
    actions: Seq<Action>,
    outs: Seq<Outcome>,
    n: int,
)
    requires
        0 <= n <= actions.len(),
        states.len() == actions.len() + 1,
        forall|i: int|
            #![trigger states[i]]
            0 <= i < actions.len() ==> QuickCapture::handled(
                states[i],
                actions[i],
                states[i + 1],
                outs[i],
            ),
    ensures
        states[n].editing == states[0].editing,
    decreases n,
{
    if n > 0 {
        a_run_keeps_the_note(states, actions, outs, n - 1);
        assert(QuickCapture::handled(states[n - 1], actions[n - 1], states[n], outs[n - 1]));
    }
}

/// An overlay opened on a note saves to that note, and one opened afresh makes a
/// new one, whatever was done in it before the save. The one call carries the text
/// as it stands.
pub proof fn a_save_writes_to_the_note_it_was_opened_on(
    note: Option<Note>,
    states: Seq<QuickCapture>,
    actions: Seq<Action>,
    outs: Seq<Outcome>,
    post: QuickCapture,
    out: Outcome,
)
    requires
        match note {
            Some(n) => states[0].opened_on(n),
            None => states[0].blank_draft(),
        },
        states.len() == actions.len() + 1,
        forall|i: int|
            #![trigger states[i]]
            0 <= i < actions.len() ==> QuickCapture::handled(
                states[i],
                actions[i],
                states[i + 1],
                outs[i],
            ),
        !states.last().pending,
        !blank(draft_text(states.last().content)),
        QuickCapture::handled(states.last(), Action::CaptureSave, post, out),
    ensures
        out.note is None,
        out.effects@.len() == 1,
        out.effects@[0] matches Effect::Call(Request::SaveNote { editing, input }) && {
            &&& match note {
                Some(n) => editing == Some(n.id),
                None => editing is None,
            }
            &&& input.content is Some
            &&& input.content->0@ == draft_text(states.last().content)
            &&& input.book_id == states.last().book_id
        },
        post.pending,
{
    a_run_keeps_the_note(states, actions, outs, actions.len() as int);
}

/// An overlay opened on a note and saved at once sends the note's own text back, to
/// the same note and under the same book, and leaves its citations alone.
pub proof fn an_unchanged_edit_sends_the_note_back(
    s: QuickCapture,
    note: Note,
    post: QuickCapture,
    out: Outcome,
)
    requires
        s.opened_on(note),
        note.content is Some,
        !blank(note.content->0@),
        QuickCapture::handled(s, Action::CaptureSave, post, out),
    ensures
        out.effects@.len() == 1,
        out.effects@[0] matches Effect::Call(Request::SaveNote { editing, input }) && {
            &&& editing == Some(note.id)
            &&& input.content matches Some(text) && text@ == note.content->0@
            &&& input.book_id == note.book_id
            &&& input.anchors is None
        },
{
}

/// A save sends the draft: where the anchor is the draft's own to send, exactly the
/// chapter, the section and the page that the fields hold, and none without a book
/// or without any of the three.
pub proof fn a_save_sends_what_the_fields_hold(
    pre: QuickCapture,
    post: QuickCapture,
    out: Outcome,
)
    requires
        !pre.pending,
        !blank(draft_text(pre.content)),
        pre.editing is None || pre.anchor_touched,
        QuickCapture::handled(pre, Action::CaptureSave, post, out),
    ensures
        out.effects@.len() == 1,
        out.effects@[0] matches Effect::Call(Request::SaveNote { editing, input }) && {
            let page = number(trimmed(pre.page.value@));
            &&& input.book_id == pre.book_id
            &&& input.anchors is Some <==> pre.book_id is Some && (pre.chapter_id is Some
                || pre.section_id is Some || page is Some)
            &&& input.anchors matches Some(v) ==> v@.len() == 1 && v@[0].chapter_id
                == pre.chapter_id && v@[0].section_id == pre.section_id && v@[0].page == page
        },
        post.content == pre.content,
{
}

/// A title is the first line of a text that is not blank, without the blanks round
/// it; a blank text has none.
pub proof fn a_title_is_the_first_filled_line(text: Seq<char>) -> (at: int)
    ensures
        0 <= at <= pieces(text, '\n').len(),
        forall|i: int| 0 <= i < at ==> blank(#[trigger] pieces(text, '\n')[i]),
        at < pieces(text, '\n').len() ==> derived_title(text) == trimmed(pieces(text, '\n')[at])
            && derived_title(text).len() > 0,
        at == pieces(text, '\n').len() ==> derived_title(text).len() == 0,
{
    lemma_first_filled(pieces(text, '\n'))
}

proof fn lemma_first_filled(lines: Seq<Seq<char>>) -> (at: int)
    ensures
        0 <= at <= lines.len(),
        forall|i: int| 0 <= i < at ==> blank(#[trigger] lines[i]),
        at < lines.len() ==> first_filled(lines) == Some(trimmed(lines[at])) && trimmed(
            lines[at],
        ).len() > 0,
        at == lines.len() ==> first_filled(lines) is None,
    decreases lines.len(),
{
    if lines.len() == 0 {
        0
    } else if trimmed(lines[0]).len() > 0 {
        0
    } else {
        let rest = lines.drop_first();
        let at = lemma_first_filled(rest);
        assert forall|i: int| 0 <= i < at + 1 implies blank(#[trigger] lines[i]) by {
            if i > 0 {
                assert(rest[i - 1] == lines[i]);
            }
        }
        at + 1
    }
}

/// A save titles the note by that line.
pub proof fn a_save_titles_the_note(pre: QuickCapture, post: QuickCapture, out: Outcome) -> (at: int)
    requires
        !pre.pending,
        !blank(draft_text(pre.content)),
        QuickCapture::handled(pre, Action::CaptureSave, post, out),
    ensures
        out.effects@.len() == 1,
        0 <= at <= pieces(draft_text(pre.content), '\n').len(),
        forall|i: int| 0 <= i < at ==> blank(#[trigger] pieces(draft_text(pre.content), '\n')[i]),
        at < pieces(draft_text(pre.content), '\n').len() ==> (out.effects@[0] matches Effect::Call(
            Request::SaveNote { input, .. },
        ) && input.title@ == trimmed(pieces(draft_text(pre.content), '\n')[at])),
{
    a_title_is_the_first_filled_line(draft_text(pre.content))
}

/// The book under the search's cursor, whichever row that is, becomes the note's
/// book, the search closes, and the text stays.
pub proof fn the_book_under_the_cursor_is_linked(
    pre: QuickCapture,
    row: usize,
    post: QuickCapture,
    out: Outcome,
)
    requires
        pre.book_cursor == Some(row),
        row < pre.book_results@.len(),
        QuickCapture::handled(pre, Action::CaptureBookPickerSubmit, post, out),
    ensures
        post.book_id == Some(pre.book_results@[row as int].id),
        post.book_label == Some(pre.book_results@[row as int].title),
        !post.picking,
        post.field == Field::Anchor,
        post.content == pre.content,
        post.page == pre.page,
        pre.book_id == Some(pre.book_results@[row as int].id) ==> post.chapter_id == pre.chapter_id
            && post.section_id == pre.section_id && post.anchor_touched == pre.anchor_touched,
        out.effects@.len() == 0,
{
}

/// Leaving the book search, or submitting it with no book under the cursor, keeps
/// the book and the anchor the draft had.
pub proof fn leaving_the_search_keeps_the_book(
    pre: QuickCapture,
    action: Action,
    post: QuickCapture,
    out: Outcome,
)
    requires
        action is CaptureBookPickerClose || (action is CaptureBookPickerSubmit && (
        pre.book_cursor is None || pre.book_cursor->0 >= pre.book_results@.len())),
        QuickCapture::handled(pre, action, post, out),
    ensures
        post.book_id == pre.book_id,
        post.book_label == pre.book_label,
        post.chapter_id == pre.chapter_id,
        post.section_id == pre.section_id,
        post.anchor_touched == pre.anchor_touched,
        post.content == pre.content,
        !post.picking,
        out.effects@.len() == 0,
{
}

/// Each letter typed into the book search searches for what is typed so far, without
/// the blanks round it, and for any book where that is nothing.
pub proof fn typing_searches_for_what_is_typed(
    pre: QuickCapture,
    c: char,
    post: QuickCapture,
    out: Outcome,
)
    requires
        QuickCapture::handled(pre, Action::CaptureBookInput(c), post, out),
    ensures
        post.book_query@ == pre.book_query@.push(c),
        post.book_cursor == Some(0usize),
        out.note is None,
        out.effects@.len() == 1,
        out.effects@[0] matches Effect::Call(Request::SearchBooks(q)) && match q {
            Some(text) => text@ == trimmed(pre.book_query@.push(c)) && text@.len() > 0,
            None => trimmed(pre.book_query@.push(c)).len() == 0,
        },
        post.content == pre.content,
        post.book_id == pre.book_id,
{
}

/// Taking a letter back searches for what is left.
pub proof fn a_letter_taken_back_searches_anew(
    a: QuickCapture,
    c: char,
    b: QuickCapture,
    d: QuickCapture,
    x: Outcome,
    y: Outcome,
)
    requires
        QuickCapture::handled(a, Action::CaptureBookInput(c), b, x),
        QuickCapture::handled(b, Action::CaptureBookBackspace, d, y),
    ensures
        d.book_query@ == a.book_query@,
        y.effects@.len() == 1,
        y.effects@[0] matches Effect::Call(Request::SearchBooks(q)) && match q {
            Some(text) => text@ == trimmed(a.book_query@) && text@.len() > 0,
            None => trimmed(a.book_query@).len() == 0,
        },
{
    assert(a.book_query@.push(c).drop_last() =~= a.book_query@);
}

/// A step in the book search lands on the row that far away, or on an end.
pub proof fn a_step_walks_the_books(
    pre: QuickCapture,
    row: usize,
    d: i32,
    post: QuickCapture,
    out: Outcome,
)
    requires
        pre.book_cursor == Some(row),
        row < pre.book_results@.len() <= usize::MAX,
        QuickCapture::handled(pre, Action::CaptureBookMove(d), post, out),
    ensures
        post.book_cursor is Some,
        0 <= row + d < pre.book_results@.len() ==> post.book_cursor->0 == row + d,
        row + d < 0 ==> post.book_cursor->0 == 0,
        row + d >= pre.book_results@.len() ==> post.book_cursor->0 == pre.book_results@.len() - 1,
        post.book_results == pre.book_results,
        out.effects@.len() == 0,
{
}

/// The place under the picker's cursor is pinned: its chapter, its section and its
/// words, and from then on the anchor counts as touched.
pub proof fn the_place_under_the_cursor_is_pinned(
    pre: QuickCapture,
    post: QuickCapture,
    out: Outcome,
)
    requires
        pre.anchor_picker is Some,
        pre.anchor_picker->0.cursor < pre.anchor_picker->0.shown().len(),
        QuickCapture::handled(pre, Action::CaptureAnchorPickerSubmit, post, out),
    ensures
        ({
            let p = pre.anchor_picker->0;
            let row = p.shown()[p.cursor as int];
            &&& post.chapter_id == row.value.chapter_id
            &&& post.section_id == row.value.section_id
            &&& post.anchor_echo == Some(row.value.echo)
        }),
        post.anchor_touched,
        post.anchor_picker is None,
        post.field == Field::Page,
        post.book_id == pre.book_id,
        post.content == pre.content,
        post.page == pre.page,
        out.effects@.len() == 0,
{
}

/// Leaving the chapter picker keeps the anchor as it was.
pub proof fn leaving_the_picker_keeps_the_anchor(
    pre: QuickCapture,
    post: QuickCapture,
    out: Outcome,
)
    requires
        QuickCapture::handled(pre, Action::CaptureAnchorPickerClose, post, out),
    ensures
        post == (QuickCapture { anchor_picker: None, ..pre }),
        out.effects@.len() == 0,
{
}

/// The chapter picker opens on the chapters of the draft's own book: they are read
/// for that book where they are not at hand, and without a book nothing is.
pub proof fn the_picker_opens_on_the_drafts_book(
    pre: QuickCapture,
    post: QuickCapture,
    out: Outcome,
)
    requires
        pre.anchor_data is None,
        QuickCapture::handled(pre, Action::CaptureAnchorPickerOpen, post, out),
    ensures
        pre.book_id matches Some(id) ==> out.effects@ == seq![
            Effect::Call(Request::LoadAnchors(pre.book_id->0)),
        ] && post.anchor_loading,
        pre.book_id is None ==> out.effects@.len() == 0 && out.note is Some && (out.note->0).0
            == Level::Warning && post == pre,
        post.anchor_picker == pre.anchor_picker,
{
}

/// The rows of the picker are the chapters in order, each followed by its sections:
/// a chapter's row pins the chapter alone, a section's row the section with it.
pub proof fn the_rows_of_a_chapter(ch: AnchorChapter)
    ensures
        chapter_rows(ch).len() == ch.sections@.len() + 1,
        chapter_rows(ch)[0].chapter_id == Some(ch.id),
        chapter_rows(ch)[0].section_id is None,
        forall|i: int|
            0 <= i < ch.sections@.len() ==> (#[trigger] chapter_rows(ch)[i + 1]).chapter_id == Some(
                ch.id,
            ) && chapter_rows(ch)[i + 1].section_id == Some(ch.sections@[i].id),
{
}

/// The rows of two runs of chapters are the rows of the one, then of the other.
pub proof fn the_rows_follow_the_chapters(a: Seq<AnchorChapter>, b: Seq<AnchorChapter>)
    ensures
        flattened(a + b) == flattened(a) + flattened(b),
        flattened(Seq::empty()).len() == 0,
    decreases b.len(),
{
    if b.len() == 0 {
        assert(a + b =~= a);
        assert(flattened(a) + flattened(b) =~= flattened(a));
    } else {
        the_rows_follow_the_chapters(a, b.drop_last());
        assert((a + b).drop_last() =~= a + b.drop_last());
        assert((a + b).last() == b.last());
        assert(flattened(a + b) =~= flattened(a) + flattened(b));
    }
}

/// A key struck in the book or the anchor field never touches the text or the page.
/// `x`, delete and backspace clear the field: the book takes its anchor with it, the
/// anchor leaves the book linked. Both count as touched.
pub proof fn clearing_a_field_clears_what_hangs_on_it(
    pre: QuickCapture,
    key: KeyEvent,
    post: QuickCapture,
    out: Outcome,
)
    requires
        pre.field == Field::Book || pre.field == Field::Anchor,
        key.code == KeyCode::Char('x') || key.code == KeyCode::Delete || key.code
            == KeyCode::Backspace,
        QuickCapture::handled(pre, Action::CaptureKey(key), post, out),
    ensures
        post.chapter_id is None,
        post.section_id is None,
        post.anchor_echo is None,
        post.anchor_touched,
        pre.field == Field::Book ==> post.book_id is None && post.book_label is None,
        pre.field == Field::Anchor ==> post.book_id == pre.book_id && post.book_label
            == pre.book_label,
        post.content == pre.content,
        post.page == pre.page,
        post.editing == pre.editing,
        out.effects@.len() == 0,
{
}

/// The page takes digits: one struck behind the number goes in there and marks the
/// anchor as touched, a letter is dropped.
pub proof fn the_page_takes_digits(
    pre: QuickCapture,
    key: KeyEvent,
    post: QuickCapture,
    out: Outcome,
)
    requires
        pre.field == Field::Page,
        key.code is Char,
        QuickCapture::handled(pre, Action::CaptureKey(key), post, out),
    ensures
        !('0' <= key.code->0 <= '9') ==> post.page == pre.page && post.anchor_touched
            == pre.anchor_touched,
        '0' <= key.code->0 <= '9' ==> post.anchor_touched && LineInput::keyed(
            pre.page,
            key,
            post.page,
        ),
        post.content == pre.content,
        post.book_id == pre.book_id,
        out.effects@.len() == 0,
{
}

/// `Enter` in the book field opens the search, empty, and asks for any book; in the
/// anchor field it asks for the chapter picker. Neither touches the draft.
pub proof fn enter_opens_the_pickers(
    pre: QuickCapture,
    key: KeyEvent,
    post: QuickCapture,
    out: Outcome,
)
    requires
        key.code == KeyCode::Enter,
        pre.field == Field::Book || pre.field == Field::Anchor,
        QuickCapture::handled(pre, Action::CaptureKey(key), post, out),
    ensures
        out.effects@.len() == 1,
        pre.field == Field::Book ==> post.picking && post.book_query@.len() == 0
            && out.effects@[0] == Effect::Call(Request::SearchBooks(None)),
        pre.field == Field::Anchor ==> out.effects@[0] == Effect::Send(
            Action::CaptureAnchorPickerOpen,
        ),
        post.content == pre.content,
        post.book_id == pre.book_id,
        post.chapter_id == pre.chapter_id,
        post.section_id == pre.section_id,
{
    let cut = crate::text::trimming_takes_white_ends(Seq::empty());
}

/// Nothing but the text field's own keys changes the text.
pub proof fn the_text_changes_by_typing_alone(
    pre: QuickCapture,
    action: Action,
    post: QuickCapture,
    out: Outcome,
)
    requires
        QuickCapture::handled(pre, action, post, out),
        !(action is CaptureKey) || pre.field != Field::Content,
    ensures
        post.content == pre.content,
{
}

/// Nothing but the page field's own keys changes the page.
pub proof fn the_page_changes_by_typing_alone(
    pre: QuickCapture,
    action: Action,
    post: QuickCapture,
    out: Outcome,
)
    requires
        QuickCapture::handled(pre, action, post, out),
        !(action is CaptureKey) || pre.field != Field::Page,
    ensures
        post.page == pre.page,
{
}

/// The keys of the overlay that act on the draft as a whole: `Ctrl-S` saves,
/// `Ctrl-E` hands it to the editor, `Esc` leaves. While a picker is open, `Esc`
/// only closes it and `Enter` takes the row under the cursor.
pub proof fn the_overlays_own_keys(s: QuickCapture, key: KeyEvent)
    ensures
        !s.picking && s.anchor_picker is None && key.modifiers.bits == 2 && key.code
            == KeyCode::Char('s') ==> s.translated(key) == Some(Action::CaptureSave),
        !s.picking && s.anchor_picker is None && key.modifiers.bits == 2 && key.code
            == KeyCode::Char('e') ==> s.translated(key) == Some(Action::CaptureEditExternal),
        !s.picking && s.anchor_picker is None && key.code == KeyCode::Esc ==> s.translated(key)
            == Some(Action::CaptureCancel),
        s.picking && key.code == KeyCode::Esc ==> s.translated(key) == Some(
            Action::CaptureBookPickerClose,
        ),
        s.picking && key.code == KeyCode::Enter ==> s.translated(key) == Some(
            Action::CaptureBookPickerSubmit,
        ),
        !s.picking && s.anchor_picker is Some && key.code == KeyCode::Esc ==> s.translated(key)
            == Some(Action::CaptureAnchorPickerClose),
        !s.picking && s.anchor_picker is Some && key.code == KeyCode::Enter ==> s.translated(key)
            == Some(Action::CaptureAnchorPickerSubmit),
        s.picking && key.code is Char ==> s.translated(key) == Some(
            Action::CaptureBookInput(key.code->0),
        ),
        s.translated(key) == Some(Action::CaptureSave) ==> key.code == KeyCode::Char('s')
            && key.modifiers.bits == 2,
{
}

/// A save that went through closes the overlay; one that failed is said and can be tried
/// again.
pub proof fn a_failed_save_can_be_tried_again(
    reply: Result<(), Fault>,
    sent: Vec<Action>,
    pre: QuickCapture,
    post: QuickCapture,
    out: Outcome,
)
    requires
        call_ensures(saved, (reply,), sent),
        reply is Err,
        QuickCapture::handled(pre, sent@[1], post, out),
    ensures
        sent@.len() == 2,
        sent@[0] matches Action::Notify { level, .. } && level == Level::Error,
        !post.pending,
        post.content == pre.content,
        post.editing == pre.editing,
{
}

/// A save that went through is answered by the overlay's end, and nothing else.
pub proof fn a_save_ends_the_overlay(reply: Result<(), Fault>, sent: Vec<Action>)
    requires
        call_ensures(saved, (reply,), sent),
        reply is Ok,
    ensures
        sent@ == seq![Action::CaptureSaved],
{
}

/// The chapters that were read are the ones the picker is put up over.
pub proof fn the_chapters_read_are_offered(
    reply: Result<Box<AnchorData>, Fault>,
    sent: Action,
    pre: QuickCapture,
    post: QuickCapture,
    out: Outcome,
)
    requires
        call_ensures(anchors_read, (reply,), sent),
        reply is Ok,
        QuickCapture::handled(pre, sent, post, out),
    ensures
        post.anchor_data == Some(*(reply->Ok_0)),
        !post.anchor_loading,
        flattened(reply->Ok_0.chapters@).len() > 0 ==> post.anchor_picker is Some && anchor_rows(
            post.anchor_picker->0.items@,
        ) == flattened(reply->Ok_0.chapters@),
        post.content == pre.content,
        post.book_id == pre.book_id,
{
}

/// The fields in order: the text, the book, the chapter, the page, and round again.
pub proof fn the_fields_in_order()
    ensures
        Field::Content.after() == Field::Book,
        Field::Book.after() == Field::Anchor,
        Field::Anchor.after() == Field::Page,
        Field::Page.after() == Field::Content,
{
}

/// `Tab` and its reverse walk the fields and change nothing but the focus.
pub proof fn tab_moves_the_focus_alone(
    pre: QuickCapture,
    action: Action,
    post: QuickCapture,
    out: Outcome,
)
    requires
        action is CaptureFieldNext || action is CaptureFieldPrev,
        QuickCapture::handled(pre, action, post, out),
    ensures
        action is CaptureFieldNext ==> post.field == pre.field.after(),
        action is CaptureFieldPrev ==> post.field == pre.field.before(),
        post == (QuickCapture { field: post.field, confirm_discard: false, ..pre }),
        out.effects@.len() == 0,
{
}

/// Anything in the draft is worth a warning: a text, a book, a chapter, a section or a
/// page. The first `Esc` then warns and closes nothing.
pub proof fn anything_typed_is_worth_a_warning(
    pre: QuickCapture,
    post: QuickCapture,
    out: Outcome,
)
    requires
        !pre.confirm_discard,
        !blank(draft_text(pre.content)) || pre.book_id is Some || pre.chapter_id is Some
            || pre.section_id is Some || !blank(pre.page.value@),
        QuickCapture::handled(pre, Action::CaptureCancel, post, out),
    ensures
        out.effects@.len() == 0,
        out.note is Some,
        (out.note->0).0 == Level::Warning,
        post == (QuickCapture { confirm_discard: true, ..pre }),
{
}

/// An untouched overlay closes at the first `Esc`.
pub proof fn an_empty_overlay_closes_at_once(
    pre: QuickCapture,
    post: QuickCapture,
    out: Outcome,
)
    requires
        blank(draft_text(pre.content)),
        pre.book_id is None,
        pre.chapter_id is None,
        pre.section_id is None,
        blank(pre.page.value@),
        QuickCapture::handled(pre, Action::CaptureCancel, post, out),
    ensures
        out.effects@ == seq![Effect::Send(Action::CaptureClose)],
        post == pre,
{
}

/// An empty draft is not saved, and one on its way is not saved again: the user is told.
pub proof fn a_save_that_is_not_made_is_said(
    pre: QuickCapture,
    post: QuickCapture,
    out: Outcome,
)
    requires
        pre.pending || blank(draft_text(pre.content)),
        QuickCapture::handled(pre, Action::CaptureSave, post, out),
    ensures
        out.effects@.len() == 0,
        out.note is Some,
        (out.note->0).0 == Level::Warning,
        post.content == pre.content,
        post.pending == pre.pending,
{
}

/// The books that were found are shown as they came, the cursor on one of them.
pub proof fn the_books_found_are_shown(
    pre: QuickCapture,
    list: Vec<Book>,
    post: QuickCapture,
    out: Outcome,
)
    requires
        list@.len() <= usize::MAX,
        QuickCapture::handled(pre, Action::CaptureBookResults(list), post, out),
    ensures
        post.book_results == list,
        list@.len() == 0 ==> post.book_cursor is None,
        pre.book_cursor matches Some(i) && i < list@.len() ==> post.book_cursor == pre.book_cursor,
        pre.book_cursor matches Some(i) && i >= list@.len() && list@.len() > 0
            ==> post.book_cursor is Some && post.book_cursor->0 == list@.len() - 1,
        post.book_id == pre.book_id,
        post.content == pre.content,
        out.effects@.len() == 0,
{
}

/// An overlay opened on a note takes the place of its first citation over.
#[verifier::rlimit(60)]
pub proof fn an_edit_opens_at_the_notes_place(s: QuickCapture, note: Note)
    requires
        s.opened_on(note),
    ensures
        s.editing == Some(note.id),
        s.book_id == note.book_id,
        note.citations@.len() > 0 ==> s.chapter_id == note.citations@[0].book_chapter_id
            && s.section_id == note.citations@[0].book_section_id,
        note.citations@.len() == 0 ==> s.chapter_id is None && s.section_id is None
            && s.page.value@.len() == 0,
        note.citations@.len() > 0 && note.citations@[0].page is Some ==> number(
            trimmed(s.page.value@),
        ) == Some(note.citations@[0].page->0),
        !s.anchor_touched,
        !s.pending,
{
    if note.citations@.len() > 0 && note.citations@[0].page is Some {
        let n = note.citations@[0].page->0 as nat;
        let shown = decimal(n);
        crate::text::a_number_reads_back(n);
        let cut = crate::text::trimming_takes_white_ends(shown);
        assert('0' <= shown[0] && shown[0] <= '9');
        assert('0' <= shown[shown.len() - 1] && shown[shown.len() - 1] <= '9');
        if cut.0 > 0 {
            assert(crate::text::is_white(shown[0]));
        }
        if cut.1 < shown.len() {
            assert(crate::text::is_white(shown[shown.len() - 1]));
        }
        assert(shown.subrange(0, shown.len() as int) =~= shown);
    }
}

/// The preview names the place the note will be kept at: the anchor and the page as they
/// stand in the fields, behind the book where one is picked.
pub proof fn the_preview_names_the_place(d: QuickCapture, page: Seq<char>, echo: Seq<char>)
    requires
        page == trimmed(d.page.value@),
        echo == crate::text::or_empty(d.anchor_echo),
    ensures
        page.len() == 0 ==> d.place_text() == echo,
        page.len() > 0 && echo.len() == 0 ==> d.place_text() == "p."@ + page,
        page.len() > 0 && echo.len() > 0 ==> d.place_text() == echo + " · p."@ + page,
        page.len() + echo.len() == 0 && d.book_label is None ==> d.preview_text() is None,
        page.len() + echo.len() == 0 && d.book_label is Some ==> d.preview_text() == Some(
            "anchor: "@ + d.book_label->0@,
        ),
        page.len() + echo.len() > 0 && d.book_label is Some ==> d.preview_text() == Some(
            "anchor: "@ + d.book_label->0@ + " · "@ + d.place_text(),
        ),
        page.len() + echo.len() > 0 && d.book_label is None ==> d.preview_text() == Some(
            "anchor: "@ + d.place_text() + " — pick a book to save it"@,
        ),
{
    reveal_strlit("p.");
    reveal_strlit(" · p.");
}

/// What the overlay says: that a save is on its way or has nothing to save, that an
/// anchor needs a book first, and that the book's chapters are being read.
pub proof fn what_the_overlay_says(
    pre: QuickCapture,
    saving: QuickCapture,
    save: Outcome,
    opening: QuickCapture,
    open: Outcome,
)
    requires
        QuickCapture::handled(pre, Action::CaptureSave, saving, save),
        QuickCapture::handled(pre, Action::CaptureAnchorPickerOpen, opening, open),
    ensures
        pre.pending ==> save.note is Some && (save.note->0).0 == Level::Warning && (
        save.note->0).1@ == "saving…"@,
        !pre.pending && blank(draft_text(pre.content)) ==> save.note is Some && (save.note->0).0
            == Level::Warning && (save.note->0).1@ == "note is empty — type a thought first"@,
        pre.book_id is None ==> open.note is Some && (open.note->0).0 == Level::Warning && (
        open.note->0).1@ == "pick a book first"@ && opening == pre,
        pre.book_id is Some && pre.anchor_data is None ==> open.note is Some && (open.note->0).0
            == Level::Info && (open.note->0).1@ == "loading chapters…"@ && opening.anchor_loading
            && open.effects@.len() == 1 && open.effects@[0] == Effect::Call(
            Request::LoadAnchors(pre.book_id->0),
        ),
        pre.book_id is Some && pre.anchor_data is Some && pre.anchor_data->0.chapters@.len() == 0
            ==> open.note is Some && (open.note->0).0 == Level::Warning && (open.note->0).1@
            == "no chapters to anchor for this book"@ && opening == pre,
{
}

/// Every field of the overlay keeps its value but through the actions that are about it;
/// a key goes to the field that has the focus.
pub proof fn what_an_action_leaves_alone(
    pre: QuickCapture,
    action: Action,
    post: QuickCapture,
    out: Outcome,
)
    requires
        QuickCapture::handled(pre, action, post, out),
    ensures
        post.content == pre.content || action is CaptureKey && pre.field is Content,
        post.page == pre.page || action is CaptureKey && pre.field is Page,
        post.field == pre.field || action is CaptureFieldNext || action is CaptureFieldPrev
            || action is CaptureBookPickerSubmit || action is CaptureAnchorPickerSubmit,
        post.book_id == pre.book_id || action is CaptureBookPickerSubmit || action is CaptureKey
            && pre.field is Book,
        post.book_label == pre.book_label || action is CaptureBookPickerSubmit
            || action is CaptureKey && pre.field is Book,
        post.chapter_id == pre.chapter_id || action is CaptureBookPickerSubmit
            || action is CaptureAnchorPickerSubmit || action is CaptureKey && (pre.field is Book
            || pre.field is Anchor),
        post.section_id == pre.section_id || action is CaptureBookPickerSubmit
            || action is CaptureAnchorPickerSubmit || action is CaptureKey && (pre.field is Book
            || pre.field is Anchor),
        post.anchor_echo == pre.anchor_echo || action is CaptureBookPickerSubmit
            || action is CaptureAnchorPickerSubmit || action is CaptureKey && (pre.field is Book
            || pre.field is Anchor),
        post.anchor_data == pre.anchor_data || action is CaptureAnchorDataLoaded
            || action is CaptureBookPickerSubmit || action is CaptureKey && pre.field is Book,
        post.anchor_loading == pre.anchor_loading || action is CaptureAnchorPickerOpen
            || action is CaptureAnchorDataLoaded,
        post.anchor_picker == pre.anchor_picker || action is CaptureAnchorPickerOpen
            || action is CaptureAnchorDataLoaded || action is CaptureAnchorInput
            || action is CaptureAnchorBackspace || action is CaptureAnchorMove
            || action is CaptureAnchorPickerSubmit || action is CaptureAnchorPickerClose,
        post.anchor_touched == pre.anchor_touched || action is CaptureBookPickerSubmit
            || action is CaptureAnchorPickerSubmit || action is CaptureKey && !(
        pre.field is Content),
        post.editing == pre.editing,
        post.pending == pre.pending || action is CaptureSave || action is CaptureSaveFailed,
        post.picking == pre.picking || action is CaptureBookPickerSubmit
            || action is CaptureBookPickerClose || action is CaptureKey && pre.field is Book,
        post.book_query == pre.book_query || action is CaptureBookInput
            || action is CaptureBookBackspace || action is CaptureBookPickerSubmit
            || action is CaptureBookPickerClose || action is CaptureKey && pre.field is Book,
        post.book_results == pre.book_results || action is CaptureBookResults
            || action is CaptureBookPickerSubmit || action is CaptureBookPickerClose
            || action is CaptureKey && pre.field is Book,
        post.book_cursor == pre.book_cursor || action is CaptureBookInput
            || action is CaptureBookBackspace || action is CaptureBookMove
            || action is CaptureBookResults || action is CaptureKey && pre.field is Book,
        post.confirm_discard ==> pre.confirm_discard || action is CaptureCancel,
{
}

/// A new overlay is a draft of nothing: no text, no place, no note being edited, and the
/// focus on the text.
pub proof fn how_the_overlay_starts(s: QuickCapture)
    requires
        call_ensures(QuickCapture::default, (), s),
    ensures
        draft_text(s.content).len() == 0,
        s.page.value@.len() == 0,
        s.field is Content,
        s.book_id is None,
        s.book_label is None,
        s.chapter_id is None,
        s.section_id is None,
        s.anchor_echo is None,
        s.anchor_data is None,
        !s.anchor_loading,
        s.anchor_picker is None,
        !s.anchor_touched,
        s.editing is None,
        !s.pending,
        !s.confirm_discard,
        !s.picking,
        s.book_query@.len() == 0,
        s.book_results@.len() == 0,
        s.book_cursor is None,
{
    crate::edit::a_draft_reads_back(s.content, Seq::empty());
}

/// The open anchor picker takes what is typed: a letter goes behind the others, the last
/// one is taken back, and a step moves within what is on display; the places on offer
/// stay.
pub proof fn the_anchor_picker_takes_what_is_typed(
    pre: QuickCapture,
    action: Action,
    post: QuickCapture,
    out: Outcome,
)
    requires
        pre.anchor_picker is Some,
        QuickCapture::handled(pre, action, post, out),
    ensures
        action is CaptureAnchorInput || action is CaptureAnchorBackspace
            || action is CaptureAnchorMove ==> post.anchor_picker is Some
            && post.anchor_picker->0.items == pre.anchor_picker->0.items && out.quiet(),
        action matches Action::CaptureAnchorInput(c) ==> post.anchor_picker->0.query@
            == pre.anchor_picker->0.query@ + seq![c] && post.anchor_picker->0.cursor == 0,
        action is CaptureAnchorBackspace ==> post.anchor_picker->0.query@
            == pre.anchor_picker->0.query@.take(
            if pre.anchor_picker->0.query@.len() > 0 {
                pre.anchor_picker->0.query@.len() - 1
            } else {
                0
            },
        ),
        action is CaptureAnchorMove ==> post.anchor_picker->0.query
            == pre.anchor_picker->0.query,
        action == Action::CaptureAnchorMove(1) && pre.anchor_picker->0.cursor + 1
            < pre.anchor_picker->0.shown().len() ==> post.anchor_picker->0.cursor
            == pre.anchor_picker->0.cursor + 1,
        action == Action::CaptureAnchorMove((-1) as i32) && 0 < pre.anchor_picker->0.cursor
            < pre.anchor_picker->0.shown().len() ==> post.anchor_picker->0.cursor
            == pre.anchor_picker->0.cursor - 1,
{
    let p = pre.anchor_picker->0;
    crate::picker::no_more_than_offered(p);
    if let Action::CaptureAnchorInput(c) = action {
        assert(p.query@.push(c) =~= p.query@ + seq![c]);
    }
    if action is CaptureAnchorBackspace {
        if p.query@.len() > 0 {
            assert(p.query@.drop_last() =~= p.query@.take(p.query@.len() - 1));
        } else {
            assert(p.query@ =~= p.query@.take(0));
        }
    }
}

} // verus!
