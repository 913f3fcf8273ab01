//! Text being typed: a one-line field as the `tui-input` crate edits it, and the
//! many-lined draft as the `tui-textarea` crate does.

use crate::keys::{KeyCode, KeyEvent};
use crate::text::{join, joined, pieces, split, texts};
use crossterm::event::KeyCode as Code;
use crossterm::event::KeyModifiers as Held;
use ratatui::buffer::Buffer;
use ratatui::layout::Rect;
use ratatui::style::{Modifier, Style};
use ratatui::widgets::Widget;
use tui_input::backend::crossterm::EventHandler;
use tui_textarea::{CursorMove, TextArea};
use vstd::prelude::*;

verus! {

// ---- one line ----

/// A one-line field: its text and the place of the cursor in it.
#[derive(Debug)]
pub struct LineInput {
    pub value: String,
    pub cursor: usize,
}

/// The text and the cursor that `tui_input::Input::handle_event` leaves behind
/// of a text, a cursor and a key.
pub uninterp spec fn line_edited(value: Seq<char>, cursor: int, key: KeyEvent) -> (Seq<char>, int);

/// `tui_input::Input::handle_event` on a press of the key: a function of the
/// text, the cursor and the key. A character struck bare or with shift goes in
/// at the cursor, a bare backspace takes out the one before it, and the cursor
/// stays inside the text. What the other keys do is left to the name.
#[verifier::external_body]
pub(crate) fn edit_line(value: &str, cursor: usize, key: KeyEvent) -> (res: (String, usize))
    requires
        cursor <= value@.len(),
    ensures
        (res.0@, res.1 as int) == line_edited(value@, cursor as int, key),
        res.1 <= res.0@.len(),
        (key.code matches KeyCode::Char(c) && key.modifiers.bits <= 1) ==> {
            &&& res.0@ == value@.take(cursor as int).push(key.code->0) + value@.skip(cursor as int)
            &&& res.1 == cursor + 1
        },
        key.code == KeyCode::Backspace && key.modifiers.bits == 0 && cursor > 0 ==> {
            &&& res.0@ == value@.take(cursor - 1) + value@.skip(cursor as int)
            &&& res.1 == cursor - 1
        },
{
    let code = match key.code {
        KeyCode::Backspace => Code::Backspace,
        KeyCode::Delete => Code::Delete,
        KeyCode::Left => Code::Left,
        KeyCode::Right => Code::Right,
        KeyCode::Home => Code::Home,
        KeyCode::End => Code::End,
        KeyCode::Char(c) => Code::Char(c),
        _ => Code::Null,
    };
    let event = crossterm::event::KeyEvent::new(code, Held::from_bits_truncate(key.modifiers.bits));
    let mut input = tui_input::Input::new(value.to_string()).with_cursor(cursor);
    input.handle_event(&crossterm::event::Event::Key(event));
    (input.value().to_string(), input.cursor())
}

impl LineInput {
    /// The cursor is inside the text.
    pub open spec fn wf(self) -> bool {
        self.cursor <= self.value@.len()
    }

    /// A field that holds `value`, the cursor behind it.
    pub fn new(value: String) -> (res: Self)
        ensures
            res.wf(),
            res.value == value,
            res.cursor == value@.len(),
    {
        let cursor: usize = value.as_str().unicode_len();
        LineInput { value, cursor }
    }

    /// Whether `post` is the field after a key.
    pub open spec fn keyed(pre: Self, key: KeyEvent, post: Self) -> bool {
        (post.value@, post.cursor as int) == line_edited(pre.value@, pre.cursor as int, key)
    }

    /// Let the field take a key.
    pub fn press(&mut self, key: KeyEvent)
        requires
            old(self).wf(),
        ensures
            final(self).wf(),
            Self::keyed(*old(self), key, *final(self)),
            (key.code matches KeyCode::Char(c) && key.modifiers.bits <= 1) ==> {
                &&& final(self).value@ == old(self).value@.take(old(self).cursor as int).push(
                    key.code->0,
                ) + old(self).value@.skip(old(self).cursor as int)
                &&& final(self).cursor == old(self).cursor + 1
            },
            key.code == KeyCode::Backspace && key.modifiers.bits == 0 && old(self).cursor > 0 ==> {
                &&& final(self).value@ == old(self).value@.take(old(self).cursor - 1)
                    + old(self).value@.skip(old(self).cursor as int)
                &&& final(self).cursor == old(self).cursor - 1
            },
    {
        let (value, cursor) = edit_line(self.value.as_str(), self.cursor, key);
        self.value = value;
        self.cursor = cursor;
    }

    /// The text of the field.
    pub fn value(&self) -> (res: &str)
        ensures
            res@ == self.value@,
    {
        self.value.as_str()
    }
}

// ---- many lines ----

/// A draft of `tui-textarea`, with its cursor and its history of edits.
#[verifier::external_body]
#[derive(Debug)]
pub struct Draft {
    area: TextArea<'static>,
}

/// The lines that a draft holds.
pub uninterp spec fn draft_lines(draft: Draft) -> Seq<Seq<char>>;

/// The row and the column of a draft's cursor, counted from zero in characters;
/// none while some of its text is selected.
pub uninterp spec fn draft_place(draft: Draft) -> Option<(int, int)>;

/// The draft that `tui_textarea::TextArea::input` leaves behind of a draft and a
/// key.
pub uninterp spec fn draft_keyed(draft: Draft, key: KeyEvent) -> Draft;

/// The draft with its cursor behind its last character, as
/// `tui_textarea::TextArea::move_cursor` leaves it.
pub uninterp spec fn draft_at_end(draft: Draft) -> Draft;

/// Whether nothing is selected and the cursor stands inside the draft's lines.
pub open spec fn cursor_inside(draft: Draft) -> bool {
    draft_place(draft) matches Some((r, c)) && 0 <= r < draft_lines(draft).len() && 0 <= c
        <= draft_lines(draft)[r].len()
}

/// Whether nothing is selected and the cursor stands behind the last character.
pub open spec fn at_end(draft: Draft) -> bool {
    &&& draft_lines(draft).len() > 0
    &&& draft_place(draft) == Some(
        (draft_lines(draft).len() - 1, draft_lines(draft).last().len() as int),
    )
}

/// Whether a key is a letter, struck bare or with shift.
pub open spec fn is_letter(key: KeyEvent) -> bool {
    key.code matches KeyCode::Char(c) && c != '\n' && c != '\r' && key.modifiers.bits <= 1
}

/// The draft that `tui_textarea::TextArea::new` makes of lines, with a hint to
/// show while it is empty and no style for the cursor's line.
pub uninterp spec fn draft_new(lines: Seq<Seq<char>>, hint: Seq<char>) -> Draft;

/// `tui_textarea::TextArea::new`, with `set_placeholder_text` and a plain
/// `set_cursor_line_style`: a function of the lines and the hint. The draft holds
/// these lines, or one empty line where there are none. Its cursor stands before
/// the first character. How the hint is shown is left to the name.
#[verifier::external_body]
pub(crate) fn new_draft(lines: Vec<String>, hint: &str) -> (res: Draft)
    ensures
        res == draft_new(texts(lines@), hint@),
        lines@.len() > 0 ==> draft_lines(res) == texts(lines@),
        lines@.len() == 0 ==> draft_lines(res) == seq![Seq::<char>::empty()],
        draft_place(res) == Some((0int, 0int)),
{
    let mut area = TextArea::new(lines);
    area.set_cursor_line_style(Style::default());
    area.set_placeholder_text(hint);
    Draft { area }
}

/// `tui_textarea::TextArea::lines`: the lines that the draft holds.
#[verifier::external_body]
pub(crate) fn lines_of(draft: &Draft) -> (res: Vec<String>)
    ensures
        texts(res@) == draft_lines(*draft),
{
    draft.area.lines().to_vec()
}

/// `tui_textarea::TextArea::move_cursor`, to the bottom and to the end of the
/// line: a function of the draft, whose lines it keeps. Where nothing is
/// selected, the cursor then stands behind the last character.
#[verifier::external_body]
pub(crate) fn to_end(draft: &mut Draft)
    ensures
        *final(draft) == draft_at_end(*old(draft)),
        draft_lines(*final(draft)) == draft_lines(*old(draft)),
        draft_place(*old(draft)) is Some && draft_lines(*old(draft)).len() > 0 ==> at_end(
            *final(draft),
        ),
{
    draft.area.move_cursor(CursorMove::Bottom);
    draft.area.move_cursor(CursorMove::End);
}

/// `tui_textarea::TextArea::input` on a press of the key: a function of the
/// draft (its cursor and history with it) and the key. Where nothing is selected,
/// a letter struck bare or with shift goes in at the cursor, and `Enter` splits
/// the line there. What the other keys do is left to the name.
#[verifier::external_body]
pub(crate) fn draft_input(draft: &mut Draft, key: KeyEvent)
    ensures
        *final(draft) == draft_keyed(*old(draft), key),
        cursor_inside(*old(draft)) && is_letter(key) ==> {
            let (r, c) = draft_place(*old(draft))->0;
            let line = draft_lines(*old(draft))[r];
            &&& draft_lines(*final(draft)) == draft_lines(*old(draft)).update(
                r,
                line.take(c).push(key.code->0) + line.skip(c),
            )
            &&& draft_place(*final(draft)) == Some((r, c + 1))
        },
        cursor_inside(*old(draft)) && key.code == KeyCode::Enter ==> {
            let (r, c) = draft_place(*old(draft))->0;
            let line = draft_lines(*old(draft))[r];
            &&& draft_lines(*final(draft)) == draft_lines(*old(draft)).update(
                r,
                line.take(c),
            ).insert(r + 1, line.skip(c))
            &&& draft_place(*final(draft)) == Some((r + 1, 0int))
        },
{
    let code = match key.code {
        KeyCode::Backspace => Code::Backspace, KeyCode::Enter => Code::Enter,
        KeyCode::Left => Code::Left, KeyCode::Right => Code::Right,
        KeyCode::Up => Code::Up, KeyCode::Down => Code::Down,
        KeyCode::Home => Code::Home, KeyCode::End => Code::End,
        KeyCode::PageUp => Code::PageUp, KeyCode::PageDown => Code::PageDown,
        KeyCode::Tab => Code::Tab, KeyCode::Delete => Code::Delete,
        KeyCode::Char(c) => Code::Char(c), _ => Code::Null,
    };
    draft.area.input(crossterm::event::KeyEvent::new(code, Held::from_bits_truncate(key.modifiers.bits)));
}

/// A fresh draft of a text, line by line.
pub open spec fn fresh_draft(text: Seq<char>) -> Draft {
    draft_new(pieces(text, '\n'), "type your thought…"@)
}

/// A draft that holds a text, line by line.
pub fn make_textarea(text: &str) -> (res: Draft)
    ensures
        res == fresh_draft(text@),
        draft_lines(res) == pieces(text@, '\n'),
        draft_place(res) == Some((0int, 0int)),
{
    let lines = split(text, '\n');
    proof {
        crate::text::lemma_pieces(text@, '\n');
        assert(texts(lines@).len() == lines@.len());
    }
    new_draft(lines, "type your thought…")
}

/// The text that a draft holds, its lines joined.
pub open spec fn draft_text(draft: Draft) -> Seq<char> {
    joined(draft_lines(draft), "\n"@)
}

/// The text that a draft holds.
pub fn text_of(draft: &Draft) -> (res: String)
    ensures
        res@ == draft_text(*draft),
{
    join(&lines_of(draft), "\n")
}

/// Whether a key struck behind the last character went in there: a letter, or a
/// line break.
pub open spec fn appended(pre: Draft, key: KeyEvent, post: Draft) -> bool {
    &&& at_end(pre) && is_letter(key) ==> at_end(post) && draft_text(post) == draft_text(pre).push(
        key.code->0,
    )
    &&& at_end(pre) && key.code == KeyCode::Enter ==> at_end(post) && draft_text(post)
        == draft_text(pre).push('\n')
}

/// A letter behind the last line is a letter behind the text.
proof fn lemma_letter_behind(lines: Seq<Seq<char>>, c: char)
    requires
        lines.len() > 0,
    ensures
        joined(lines.update(lines.len() - 1, lines.last().push(c)), "\n"@) == joined(
            lines,
            "\n"@,
        ).push(c),
{
    let next = lines.update(lines.len() - 1, lines.last().push(c));
    assert(next.drop_last() =~= lines.drop_last());
    if lines.len() > 1 {
        let head = joined(lines.drop_last(), "\n"@) + "\n"@;
        assert(head + lines.last().push(c) =~= (head + lines.last()).push(c));
    }
}

/// An empty line behind the last one is a line break behind the text.
proof fn lemma_line_behind(lines: Seq<Seq<char>>)
    requires
        lines.len() > 0,
    ensures
        joined(lines.push(Seq::empty()), "\n"@) == joined(lines, "\n"@).push('\n'),
{
    reveal_strlit("\n");
    assert("\n"@ =~= seq!['\n']);
    assert(lines.push(Seq::empty()).drop_last() =~= lines);
    assert(joined(lines.push(Seq::empty()), "\n"@) =~= joined(lines, "\n"@).push('\n'));
}

/// Let a draft take a key.
pub fn type_key(draft: &mut Draft, key: KeyEvent)
    ensures
        *final(draft) == draft_keyed(*old(draft), key),
        appended(*old(draft), key, *final(draft)),
{
    draft_input(draft, key);
    proof {
        let lines = draft_lines(*old(draft));
        if at_end(*old(draft)) {
            let last = lines.last();
            if is_letter(key) {
                let c = key.code->0;
                assert(last.take(last.len() as int).push(c) + last.skip(last.len() as int)
                    =~= last.push(c));
                lemma_letter_behind(lines, c);
            } else if key.code == KeyCode::Enter {
                assert(last.take(last.len() as int) =~= last);
                assert(last.skip(last.len() as int) =~= Seq::empty());
                assert(lines.update(lines.len() - 1, last).insert(
                    lines.len() as int,
                    Seq::empty(),
                ) =~= lines.push(Seq::empty()));
                lemma_line_behind(lines);
            }
        }
    }
}

// ---- showing a draft ----

/// The marks of a cell shown in reverse.
pub const REVERSED: u16 = 64;

/// The lines and columns that a draft and its window may have between them.
pub const DRAFT_SPAN: usize = 16384;

/// One cell of a draft on screen: its symbol, the names of its two colours and
/// the marks it is shown with, bit by bit.
#[derive(Debug)]
pub struct Glyph {
    pub symbol: String,
    pub fore: String,
    pub back: String,
    pub marks: u16,
}

impl View for Glyph {
    type V = (Seq<char>, Seq<char>, Seq<char>, u16);

    open spec fn view(&self) -> (Seq<char>, Seq<char>, Seq<char>, u16) {
        (self.symbol@, self.fore@, self.back@, self.marks)
    }
}

/// What cells show.
pub open spec fn glyphs(cells: Seq<Glyph>) -> Seq<(Seq<char>, Seq<char>, Seq<char>, u16)> {
    Seq::new(cells.len(), |i: int| cells[i]@)
}

/// The draft with its cursor shown under these marks, as
/// `tui_textarea::TextArea::set_cursor_style` leaves it.
pub uninterp spec fn draft_marked(draft: Draft, marks: u16) -> Draft;

/// `tui_textarea::TextArea::set_cursor_style`: a function of the draft and the
/// marks. The lines and the cursor stay where they are.
#[verifier::external_body]
pub(crate) fn mark_cursor(draft: &mut Draft, marks: u16)
    ensures
        *final(draft) == draft_marked(*old(draft), marks),
        draft_lines(*final(draft)) == draft_lines(*old(draft)),
        draft_place(*final(draft)) == draft_place(*old(draft)),
{
    draft.area.set_cursor_style(Style::default().add_modifier(Modifier::from_bits_truncate(marks)));
}

/// The draft after `tui_textarea::TextArea` was drawn in a window: it keeps the
/// window's size and how far it has scrolled.
pub uninterp spec fn draft_seen(draft: Draft, width: u16, height: u16) -> Draft;

/// The cells, row by row, that drawing a draft in a window gives.
pub uninterp spec fn draft_drawn(draft: Draft, width: u16, height: u16) -> Seq<
    (Seq<char>, Seq<char>, Seq<char>, u16),
>;

/// Whether a draft of these lines is small enough to be drawn in a window.
pub open spec fn drawable(lines: Seq<Seq<char>>, width: u16, height: u16) -> bool {
    &&& lines.len() + height < DRAFT_SPAN
    &&& width < DRAFT_SPAN
    &&& forall|i: int| 0 <= i < lines.len() ==> (#[trigger] lines[i]).len() + width < DRAFT_SPAN
}

/// `ratatui::widgets::Widget::render` of `tui_textarea::TextArea`, on an empty
/// buffer: a function of the draft and the window's size. It scrolls until the
/// cursor is in the window and gives a cell for each place of it; the lines and
/// the cursor stay where they are. What the cells show is left to the name.
/// Rows and columns are counted in 16 bits, so larger drafts are left out.
#[verifier::external_body]
pub(crate) fn render_draft(draft: &mut Draft, width: u16, height: u16) -> (res: Vec<Glyph>)
    requires
        drawable(draft_lines(*old(draft)), width, height),
    ensures
        *final(draft) == draft_seen(*old(draft), width, height),
        glyphs(res@) == draft_drawn(*old(draft), width, height),
        res@.len() == width * height,
        draft_lines(*final(draft)) == draft_lines(*old(draft)),
        draft_place(*final(draft)) == draft_place(*old(draft)),
{
    let mut window = Buffer::empty(Rect::new(0, 0, width, height));
    draft.area.render(window.area, &mut window);
    window.content.iter().map(|c| Glyph {
        symbol: c.symbol().to_string(),
        fore: c.fg.to_string(),
        back: c.bg.to_string(),
        marks: c.modifier.bits(),
    }).collect()
}

/// Whether the lines are small enough to be drawn in a window.
fn can_draw(lines: &Vec<String>, width: u16, height: u16) -> (res: bool)
    ensures
        res == drawable(texts(lines@), width, height),
{
    let w: usize = width as usize;
    let h: usize = height as usize;
    if w >= DRAFT_SPAN || h >= DRAFT_SPAN || lines.len() >= DRAFT_SPAN - h {
        return false;
    }
    let mut i: usize = 0;
    while i < lines.len()
        invariant
            i <= lines.len(),
            w == width,
            w < DRAFT_SPAN,
            forall|j: int| 0 <= j < i ==> (#[trigger] texts(lines@)[j]).len() + width < DRAFT_SPAN,
        decreases lines.len() - i,
    {
        let len: usize = lines[i].as_str().unicode_len();
        if len >= DRAFT_SPAN - w {
            assert(texts(lines@)[i as int].len() == len);
            return false;
        }
        i = i + 1;
    }
    true
}

/// Draw a draft in a window, its cursor shown under these marks: the cells row by
/// row, and none where the draft is too large to be drawn.
pub fn show_draft(draft: &mut Draft, marks: u16, width: u16, height: u16) -> (res: Option<
    Vec<Glyph>,
>)
    ensures
        res is Some <==> drawable(draft_lines(*old(draft)), width, height),
        res is None ==> *final(draft) == *old(draft),
        res matches Some(cells) ==> {
            let marked = draft_marked(*old(draft), marks);
            &&& *final(draft) == draft_seen(marked, width, height)
            &&& glyphs(cells@) == draft_drawn(marked, width, height)
            &&& cells@.len() == width * height
        },
        draft_lines(*final(draft)) == draft_lines(*old(draft)),
        draft_place(*final(draft)) == draft_place(*old(draft)),
{
    let lines = lines_of(draft);
    if can_draw(&lines, width, height) {
        mark_cursor(draft, marks);
        Some(render_draft(draft, width, height))
    } else {
        None
    }
}

/// Joining the pieces of a text gives the text back.
pub proof fn pieces_join_back(s: Seq<char>)
    ensures
        joined(pieces(s, '\n'), "\n"@) == s,
    decreases s.len(),
{
    reveal_strlit("\n");
    assert("\n"@ =~= seq!['\n']);
    if s.len() == 0 {
        assert(joined(pieces(s, '\n'), "\n"@) =~= s);
    } else {
        let init = s.drop_last();
        let before = pieces(init, '\n');
        let parts = pieces(s, '\n');
        crate::text::lemma_pieces(init, '\n');
        pieces_join_back(init);
        if s.last() == '\n' {
            assert(parts.drop_last() =~= before);
            assert(parts.len() >= 2);
            assert(joined(parts, "\n"@) =~= init + "\n"@ + Seq::<char>::empty());
            assert(joined(parts, "\n"@) =~= s);
        } else {
            let head = before.drop_last();
            assert(parts.drop_last() =~= head);
            assert(parts.last() == before.last().push(s.last()));
            if before.len() == 1 {
                assert(parts.len() == 1);
                assert(joined(before, "\n"@) == before[0]);
                assert(joined(parts, "\n"@) == parts[0]);
                assert(parts[0] == parts.last());
                assert(before.last() == init);
                assert(init.push(s.last()) =~= s);
            } else {
                assert(joined(parts, "\n"@) =~= joined(head, "\n"@) + "\n"@ + before.last().push(
                    s.last(),
                ));
                assert(joined(before, "\n"@) =~= joined(head, "\n"@) + "\n"@ + before.last());
                let x = joined(head, "\n"@) + "\n"@;
                assert(x + before.last().push(s.last()) =~= (x + before.last()).push(s.last()));
                assert(init.push(s.last()) =~= s);
            }
        }
    }
}

/// A draft made of a text reads back as that text.
pub proof fn a_draft_reads_back(draft: Draft, text: Seq<char>)
    requires
        draft_lines(draft) == pieces(text, '\n'),
    ensures
        draft_text(draft) == text,
{
    pieces_join_back(text);
}

} // verus!
