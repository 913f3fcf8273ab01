//! Books screen: a shelf, searched by the server, with a fuzzy jump within the
//! loaded rows.

use crate::action::{notice, notifies, Action, BooksFilter, Effect, Outcome, Request};
use crate::cursor::{select_step, select_stepped};
use crate::keys::{KeyCode, KeyEvent};
use crate::line::{Footer, Line, Tone};
use crate::model::{Book, BookChapter, BookStatus, Fault, FaultKind, PanelFailure};
use crate::notify::Level;
use crate::panel::{PanelModel, PanelState};
use crate::picker::{item, Picker, PickerItem};
use crate::screens::ScreenKind;
use crate::search::{
    highlight, hits, is_hit, marked, next_marked, queried_title, step_match, title_with_query,
    SearchBox,
};
use crate::text::{cat2, cat3, or_empty, own, text_or_empty};
use vstd::prelude::*;

verus! {

/// The books screen.
#[derive(Debug)]
pub struct Books {
    pub items: Vec<Book>,
    pub cursor: Option<usize>,
    pub filter: BooksFilter,
    pub search: SearchBox,
    pub loading: bool,
    pub failure: Option<PanelFailure>,
    /// The fuzzy jump within the loaded rows, while it is open.
    pub picker: Option<Picker<i64>>,
}

impl Default for Books {
    fn default() -> (res: Self)
        ensures
            res.fresh(),
    {
        Books {
            items: Vec::new(),
            cursor: Some(0),
            filter: BooksFilter::Reading,
            search: SearchBox::default(),
            loading: false,
            failure: None,
            picker: None,
        }
    }
}

/// A book's label: its title, and its author where known.
pub open spec fn label_text(book: Book) -> Seq<char> {
    match book.author {
        Some(a) => if a@.len() > 0 {
            book.title@ + " · "@ + a@
        } else {
            book.title@
        },
        None => book.title@,
    }
}

/// A book's label: its title, and its author where known.
pub fn book_label(book: &Book) -> (res: String)
    ensures
        res@ == label_text(*book),
{
    match &book.author {
        Some(a) => if !a.as_str().is_empty() {
            cat3(book.title.as_str(), " · ", a.as_str())
        } else {
            book.title.clone()
        },
        None => book.title.clone(),
    }
}

/// The first row that holds the book of this id.
pub open spec fn position(items: Seq<Book>, id: i64) -> Option<int>
    decreases items.len(),
{
    if items.len() == 0 {
        None
    } else {
        match position(items.drop_last(), id) {
            Some(i) => Some(i),
            None => if items.last().id == id {
                Some(items.len() - 1)
            } else {
                None
            },
        }
    }
}

fn position_of(items: &Vec<Book>, id: i64) -> (res: Option<usize>)
    ensures
        match position(items@, id) {
            Some(i) => res == Some(i as usize) && 0 <= i < items@.len(),
            None => res is None,
        },
{
    let mut i: usize = 0;
    while i < items.len()
        invariant
            i <= items.len(),
            position(items@.take(i as int), id) is None,
        decreases items.len() - i,
    {
        proof {
            let here = items@.take(i as int + 1);
            assert(here.drop_last() =~= items@.take(i as int));
            assert(here.last() == items@[i as int]);
        }
        if items[i].id == id {
            proof {
                lemma_position(items@, id, i as int + 1);
            }
            return Some(i);
        }
        i = i + 1;
    }
    assert(items@.take(items@.len() as int) =~= items@);
    None
}

/// A row found in the first rows is the row found in all of them.
proof fn lemma_position(items: Seq<Book>, id: i64, n: int)
    requires
        0 <= n <= items.len(),
        position(items.take(n), id) is Some,
    ensures
        position(items, id) == position(items.take(n), id),
    decreases items.len() - n,
{
    if n < items.len() {
        assert(items.take(n + 1).drop_last() =~= items.take(n));
        lemma_position(items, id, n + 1);
    } else {
        assert(items.take(n) =~= items);
    }
}

/// The rows as the fuzzy jump offers them.
pub open spec fn offered_rows(items: Seq<PickerItem<i64>>, books: Seq<Book>) -> bool {
    &&& items.len() == books.len()
    &&& forall|i: int|
        0 <= i < books.len() ==> (#[trigger] items[i]).label@ == label_text(books[i])
            && items[i].value == books[i].id
}

/// Which rows the live query matches, by their titles.
pub open spec fn marks(items: Seq<Book>, query: Seq<char>) -> Seq<bool> {
    items.map_values(|b: Book| hits(b.title@, query))
}

impl Books {
    /// A shelf that has loaded nothing.
    pub open spec fn fresh(self) -> bool {
        &&& self.items@ == Seq::<Book>::empty()
        &&& self.cursor == Some(0usize)
        &&& self.filter == BooksFilter::Reading
        &&& self.search.query@ == Seq::<char>::empty()
        &&& !self.search.active
        &&& !self.loading
        &&& self.failure is None
        &&& self.picker is None
    }

    /// The book under the cursor.
    pub open spec fn chosen(self) -> Option<Book> {
        match self.cursor {
            Some(i) => if i < self.items@.len() {
                Some(self.items@[i as int])
            } else {
                None
            },
            None => None,
        }
    }

    /// Whether an effect is the read of the shelf and query at hand.
    pub open spec fn fetches(self, e: Effect) -> bool {
        e matches Effect::Call(Request::ListBooks { status, query }) && {
            &&& status == (match self.filter {
                BooksFilter::All => None,
                BooksFilter::Reading => Some(BookStatus::Reading),
                BooksFilter::Completed => Some(BookStatus::Completed),
            })
            &&& query is None <==> self.search.query@.len() == 0
            &&& query is Some ==> query->0 == self.search.query
        }
    }

    /// Nothing to say, and the read of `post` to make.
    pub open spec fn rereads(out: Outcome, post: Self) -> bool {
        &&& out.note is None
        &&& out.effects@.len() == 1
        &&& post.fetches(out.effects@[0])
    }

    /// How the open fuzzy jump takes a key.
    pub open spec fn picker_keyed(pre: Self, key: KeyEvent, post: Self, out: Outcome) -> bool {
        let found = match pre.picker {
            Some(p) => match p.chosen() {
                Some(i) => position(pre.items@, i.value),
                None => None,
            },
            None => None,
        };
        match key.code {
            KeyCode::Esc => post == Books { picker: None, ..pre } && out.quiet(),
            KeyCode::Enter => match found {
                Some(i) => {
                    &&& post == Books { picker: None, cursor: Some(i as usize), ..pre }
                    &&& out.asks(seq![Effect::Send(Action::BooksOpen)])
                },
                None => post == Books { picker: None, ..pre } && out.quiet(),
            },
            _ => {
                &&& post == Books { picker: post.picker, ..pre }
                &&& post.picker is Some <==> pre.picker is Some
                &&& pre.picker matches Some(p) ==> Picker::keyed(p, key, post.picker->0)
                &&& out.quiet()
            },
        }
    }

    /// How the screen answers an action.
    pub open spec fn handled(pre: Self, action: Action, post: Self, out: Outcome) -> bool {
        let cur: int = match pre.cursor {
            Some(i) => i as int,
            None => 0,
        };
        match action {
            Action::BooksLoaded(books) => {
                &&& post == Books {
                    items: books,
                    loading: false,
                    failure: None,
                    cursor: if cur >= books@.len() {
                        if books@.len() == 0 {
                            None
                        } else {
                            Some(0usize)
                        }
                    } else {
                        pre.cursor
                    },
                    ..pre
                }
                &&& out.quiet()
            },
            Action::BooksLoadFailed(reason) => {
                &&& post == Books { loading: false, failure: post.failure, ..pre }
                &&& post.failure is Some
                &&& post.failure->0.of("books"@, reason)
                &&& out.quiet()
            },
            Action::BooksFilter(f) => {
                &&& post == Books { filter: f, loading: true, ..pre }
                &&& Self::rereads(out, post)
            },
            Action::BooksMove(d) => {
                &&& post == Books {
                    cursor: select_stepped(pre.cursor, d as int, pre.items@.len() as int),
                    ..pre
                }
                &&& out.quiet()
            },
            Action::BooksMatchStep(d) => {
                &&& post == Books {
                    cursor: match next_marked(
                        marks(pre.items@, pre.search.query@),
                        cur,
                        d > 0,
                    ) {
                        Some(i) => Some(i as usize),
                        None => pre.cursor,
                    },
                    ..pre
                }
                &&& out.quiet()
            },
            Action::BooksJumpStart => {
                &&& post == Books {
                    cursor: if pre.items@.len() > 0 {
                        Some(0usize)
                    } else {
                        None
                    },
                    ..pre
                }
                &&& out.quiet()
            },
            Action::BooksJumpEnd => {
                &&& post == Books {
                    cursor: if pre.items@.len() > 0 {
                        Some((pre.items@.len() - 1) as usize)
                    } else {
                        pre.cursor
                    },
                    ..pre
                }
                &&& out.quiet()
            },
            Action::BooksOpen => {
                &&& post == pre
                &&& match pre.chosen() {
                    None => out.quiet(),
                    Some(book) => {
                        &&& out.note is None
                        &&& out.effects@.len() == 2
                        &&& out.effects@[0] == Effect::Send(Action::Goto(ScreenKind::BookDetail))
                        &&& out.effects@[1] matches Effect::Call(Request::ListChapters(b)) && *b
                            == book
                    },
                }
            },
            Action::BooksSearchInput(c) => {
                &&& post == Books { search: post.search, ..pre }
                &&& post.search.active == pre.search.active
                &&& post.search.query@ == pre.search.query@.push(c)
                &&& out.quiet()
            },
            Action::BooksSearchBackspace => {
                &&& post == Books { search: post.search, ..pre }
                &&& post.search.active == pre.search.active
                &&& post.search.query@ == (if pre.search.query@.len() > 0 {
                    pre.search.query@.drop_last()
                } else {
                    pre.search.query@
                })
                &&& out.quiet()
            },
            Action::BooksSearchSubmit => {
                &&& post == Books { search: post.search, loading: true, ..pre }
                &&& !post.search.active
                &&& post.search.query == pre.search.query
                &&& Self::rereads(out, post)
            },
            Action::BooksSearchCancel => {
                &&& post == Books { search: post.search, loading: true, ..pre }
                &&& !post.search.active
                &&& post.search.query@ == Seq::<char>::empty()
                &&& Self::rereads(out, post)
            },
            Action::BooksPickerOpen => {
                &&& post == Books { picker: post.picker, ..pre }
                &&& if pre.items@.len() > 0 {
                    &&& post.picker is Some
                    &&& post.picker->0.opened("open book", post.picker->0.items@)
                    &&& offered_rows(post.picker->0.items@, pre.items@)
                } else {
                    post.picker == pre.picker
                }
                &&& out.quiet()
            },
            Action::BooksPickerKey(key) => Self::picker_keyed(pre, key, post, out),
            _ => post == pre && out.quiet(),
        }
    }

    fn fetch(&self) -> (res: Effect)
        ensures
            self.fetches(res),
    {
        let status = match self.filter {
            BooksFilter::All => None,
            BooksFilter::Reading => Some(BookStatus::Reading),
            BooksFilter::Completed => Some(BookStatus::Completed),
        };
        let query = if self.search.is_empty() {
            None
        } else {
            Some(self.search.query.clone())
        };
        Effect::Call(Request::ListBooks { status, query })
    }

    /// Entering the screen reads the shelf.
    pub fn on_enter(&mut self) -> (out: Vec<Effect>)
        ensures
            *final(self) == (Books { loading: true, ..*old(self) }),
            out@.len() == 1,
            old(self).fetches(out@[0]),
    {
        self.loading = true;
        let mut out: Vec<Effect> = Vec::new();
        out.push(self.fetch());
        out
    }

    fn marked(&self) -> (res: Vec<bool>)
        ensures
            res@ == marks(self.items@, self.search.query@),
    {
        let mut out: Vec<bool> = Vec::new();
        let mut i: usize = 0;
        while i < self.items.len()
            invariant
                i <= self.items.len(),
                out@ =~= marks(self.items@, self.search.query@).take(i as int),
            decreases self.items.len() - i,
        {
            out.push(is_hit(self.items[i].title.as_str(), self.search.query.as_str()));
            i = i + 1;
        }
        out
    }

    fn picker_rows(&self) -> (res: Vec<PickerItem<i64>>)
        ensures
            offered_rows(res@, self.items@),
    {
        let mut out: Vec<PickerItem<i64>> = Vec::new();
        let mut i: usize = 0;
        while i < self.items.len()
            invariant
                i <= self.items.len(),
                out@.len() == i,
                forall|j: int|
                    0 <= j < i ==> (#[trigger] out@[j]).label@ == label_text(self.items@[j])
                        && out@[j].value == self.items@[j].id,
            decreases self.items.len() - i,
        {
            out.push(item(book_label(&self.items[i]), self.items[i].id));
            i = i + 1;
        }
        out
    }

    fn picker_key(&mut self, key: KeyEvent) -> (out: Outcome)
        ensures
            Self::picker_keyed(*old(self), key, *final(self), out),
    {
        match key.code {
            KeyCode::Esc => self.picker = None,
            KeyCode::Enter => {
                let id = match &self.picker {
                    Some(p) => match p.selected() {
                        Some(v) => Some(*v),
                        None => None,
                    },
                    None => None,
                };
                self.picker = None;
                if let Some(id) = id {
                    if let Some(idx) = position_of(&self.items, id) {
                        self.cursor = Some(idx);
                        return Outcome::send(Action::BooksOpen);
                    }
                }
            },
            _ => {
                if let Some(p) = &mut self.picker {
                    p.press(key);
                }
            },
        }
        Outcome::none()
    }

    fn open_selected(&self) -> (out: Outcome)
        ensures
            Self::handled(*self, Action::BooksOpen, *self, out),
    {
        let picked = match self.cursor {
            Some(i) => if i < self.items.len() {
                Some(self.items[i].clone())
            } else {
                None
            },
            None => None,
        };
        match picked {
            Some(book) => {
                let mut out = Outcome::send(Action::Goto(ScreenKind::BookDetail));
                out.effects.push(Effect::Call(Request::ListChapters(Box::new(book))));
                out
            },
            None => Outcome::none(),
        }
    }

    /// How the screen answers an action.
    #[verifier::rlimit(40)]
    pub fn handle(&mut self, action: Action) -> (out: Outcome)
        ensures
            Self::handled(*old(self), action, *final(self), out),
    {
        match action {
            Action::BooksLoaded(books) => {
                self.items = books;
                self.loading = false;
                self.failure = None;
                let cur: usize = match self.cursor {
                    Some(i) => i,
                    None => 0,
                };
                if cur >= self.items.len() {
                    self.cursor = if self.items.len() == 0 {
                        None
                    } else {
                        Some(0)
                    };
                }
            },
            Action::BooksLoadFailed(reason) => {
                self.loading = false;
                self.failure = Some(PanelFailure::new("books", reason));
            },
            Action::BooksFilter(f) => {
                self.filter = f;
                self.loading = true;
                return Outcome::ask(self.fetch());
            },
            Action::BooksMove(d) => {
                let n: usize = self.items.len();
                self.cursor = select_step(self.cursor, d, n);
            },
            Action::BooksMatchStep(d) => {
                let cur: usize = match self.cursor {
                    Some(i) => i,
                    None => 0,
                };
                let m = self.marked();
                if let Some(next) = step_match(&m, cur, d) {
                    self.cursor = Some(next);
                }
            },
            Action::BooksJumpStart => {
                self.cursor = if self.items.len() > 0 {
                    Some(0)
                } else {
                    None
                };
            },
            Action::BooksJumpEnd => {
                if self.items.len() > 0 {
                    self.cursor = Some(self.items.len() - 1);
                }
            },
            Action::BooksOpen => {
                return self.open_selected();
            },
            Action::BooksSearchInput(c) => self.search.input(c),
            Action::BooksSearchBackspace => self.search.backspace(),
            Action::BooksSearchSubmit => {
                self.search.apply();
                self.loading = true;
                return Outcome::ask(self.fetch());
            },
            Action::BooksSearchCancel => {
                self.search.cancel();
                self.loading = true;
                return Outcome::ask(self.fetch());
            },
            Action::BooksPickerOpen => {
                if self.items.len() > 0 {
                    let rows = self.picker_rows();
                    self.picker = Some(Picker::new("open book", rows));
                }
            },
            Action::BooksPickerKey(key) => {
                return self.picker_key(key);
            },
            _ => {},
        }
        Outcome::none()
    }

    /// How the fuzzy jump and the search prompt take a key.
    pub open spec fn intercepted(
        pre: Self,
        key: KeyEvent,
        post: Self,
        res: Option<Action>,
    ) -> bool {
        if pre.picker is Some {
            post == pre && res == Some(Action::BooksPickerKey(key))
        } else if pre.search.active {
            &&& post == pre
            &&& res == (match key.code {
                KeyCode::Esc => Some(Action::BooksSearchCancel),
                KeyCode::Enter => Some(Action::BooksSearchSubmit),
                KeyCode::Backspace => Some(Action::BooksSearchBackspace),
                KeyCode::Char(c) => Some(Action::BooksSearchInput(c)),
                _ => None,
            })
        } else if key.code == KeyCode::Char('/') {
            &&& post == Books { search: post.search, ..pre }
            &&& post.search.active
            &&& post.search.query@ == Seq::<char>::empty()
            &&& res is Some
            &&& notifies(res->0, Level::Info, "search: type then Enter"@)
        } else {
            &&& post == pre
            &&& res == (if key.code == KeyCode::Char('f') {
                Some(Action::BooksPickerOpen)
            } else if pre.search.query@.len() > 0 && key.code == KeyCode::Char('n') {
                Some(Action::BooksMatchStep(1))
            } else if pre.search.query@.len() > 0 && key.code == KeyCode::Char('N') {
                Some(Action::BooksMatchStep((-1) as i32))
            } else {
                None
            })
        }
    }

    /// The fuzzy jump and the search prompt own keys before the global keymap.
    pub fn intercept_key(&mut self, key: KeyEvent) -> (res: Option<Action>)
        ensures
            Self::intercepted(*old(self), key, *final(self), res),
    {
        if self.picker.is_some() {
            return Some(Action::BooksPickerKey(key));
        }
        if !self.search.active {
            if let KeyCode::Char('/') = key.code {
                self.search.open();
                return Some(notice(Level::Info, own("search: type then Enter")));
            }
            if let KeyCode::Char('f') = key.code {
                return Some(Action::BooksPickerOpen);
            }
            if !self.search.is_empty() {
                match key.code {
                    KeyCode::Char('n') => {
                        return Some(Action::BooksMatchStep(1));
                    },
                    KeyCode::Char('N') => {
                        return Some(Action::BooksMatchStep(-1));
                    },
                    _ => {},
                }
            }
            return None;
        }
        match key.code {
            KeyCode::Esc => Some(Action::BooksSearchCancel),
            KeyCode::Enter => Some(Action::BooksSearchSubmit),
            KeyCode::Backspace => Some(Action::BooksSearchBackspace),
            KeyCode::Char(c) => Some(Action::BooksSearchInput(c)),
            _ => None,
        }
    }

    // ---- what the panel says ----

    /// The panel's title: the shelf, and the query while there is one.
    pub open spec fn title_text(self) -> Seq<char> {
        queried_title(
            "Books · "@ + (match self.filter {
                BooksFilter::All => "all"@,
                BooksFilter::Reading => "reading"@,
                BooksFilter::Completed => "completed"@,
            }),
            self.search,
        )
    }

    /// The panel's title.
    pub fn panel_title(&self) -> (res: String)
        ensures
            res@ == self.title_text(),
    {
        let label = match self.filter {
            BooksFilter::All => "all",
            BooksFilter::Reading => "reading",
            BooksFilter::Completed => "completed",
        };
        title_with_query(cat2("Books · ", label).as_str(), &self.search)
    }

    /// Why the shelf shows no rows; none where it does.
    pub open spec fn panel_model(self) -> Option<PanelModel> {
        if self.items@.len() > 0 {
            None
        } else if self.failure is Some {
            Some(PanelModel::Failed(self.failure->0))
        } else if self.loading {
            Some(PanelModel::Loading)
        } else if self.search.query@.len() > 0 {
            Some(PanelModel::Empty("no matches for \""@ + self.search.query@ + "\""@))
        } else {
            Some(PanelModel::Empty("no books on this shelf"@))
        }
    }

    /// Why the shelf shows no rows; none where it does.
    pub fn panel_state(&self) -> (res: Option<PanelState>)
        ensures
            res is Some <==> self.panel_model() is Some,
            res matches Some(s) ==> s@ == self.panel_model()->0,
    {
        if self.items.len() > 0 {
            return None;
        }
        if let Some(f) = &self.failure {
            return Some(PanelState::Failed(f));
        }
        if self.loading {
            Some(PanelState::Loading)
        } else if !self.search.is_empty() {
            Some(
                PanelState::Empty {
                    hint: cat3("no matches for \"", self.search.query.as_str(), "\""),
                },
            )
        } else {
            Some(PanelState::Empty { hint: own("no books on this shelf") })
        }
    }

    /// A row: the pill, the title with what the query matches marked, the author
    /// and the share read as shown.
    pub open spec fn row_text(self, book: Book, share: Seq<char>) -> Seq<(Tone, Seq<char>)> {
        seq![(book.status.tone(), book.status.pill_text()), (Tone::Plain, "  "@)] + marked(
            book.title@,
            self.search.query@,
            Tone::Plain,
        ) + seq![
            (Tone::Muted, "  · "@ + or_empty(book.author)),
            (Tone::Plain, "    "@),
            (Tone::Muted, share),
        ]
    }

    /// A row: the pill, the title with what the query matches marked, the author
    /// and the share read as shown.
    pub fn row(&self, book: &Book, share: String) -> (res: Line)
        ensures
            res@ == self.row_text(*book, share@),
    {
        let author = text_or_empty(&book.author);
        let title = highlight(book.title.as_str(), self.search.query.as_str(), Tone::Plain);
        let line = Line::of(book.status.pill_tone(), own(book.status.pill())).with(
            Tone::Plain,
            own("  "),
        ).and(&title).with(Tone::Muted, cat2("  · ", author.as_str())).with(
            Tone::Plain,
            own("    "),
        ).with(Tone::Muted, share);
        assert(line@ =~= self.row_text(*book, share@));
        line
    }

    /// What the footer offers.
    pub open spec fn offered(self, f: Footer) -> bool {
        if self.picker is Some {
            f.reads(Tone::Muted, "type to filter · ↑/↓ or ^n/^p move · ↵ open · Esc cancel"@)
        } else if self.search.active {
            f.reads(Tone::Muted, "type to search · Enter to apply · Esc to cancel"@)
        } else if self.search.query@.len() > 0 {
            f.offers(
                seq![
                    ("j/k", "move"),
                    ("↵", "open"),
                    ("/", "search"),
                    ("n/N", "match"),
                    ("f", "find"),
                    ("1/2/3", "filter"),
                    ("h", "back"),
                ],
            )
        } else {
            f.offers(
                seq![
                    ("j/k", "move"),
                    ("↵", "open"),
                    ("/", "search"),
                    ("f", "find"),
                    ("1/2/3", "filter"),
                    ("h", "back"),
                ],
            )
        }
    }

    /// What the footer offers.
    pub fn hints(&self) -> (res: Footer)
        ensures
            self.offered(res),
    {
        if self.picker.is_some() {
            return Footer::Text(
                Line::of(
                    Tone::Muted,
                    own("type to filter · ↑/↓ or ^n/^p move · ↵ open · Esc cancel"),
                ),
            );
        }
        if self.search.active {
            return Footer::Text(
                Line::of(Tone::Muted, own("type to search · Enter to apply · Esc to cancel")),
            );
        }
        if !self.search.is_empty() {
            return Footer::Keys(
                vec![
                    ("j/k", "move"),
                    ("↵", "open"),
                    ("/", "search"),
                    ("n/N", "match"),
                    ("f", "find"),
                    ("1/2/3", "filter"),
                    ("h", "back"),
                ],
            );
        }
        Footer::Keys(
            vec![
                ("j/k", "move"),
                ("↵", "open"),
                ("/", "search"),
                ("f", "find"),
                ("1/2/3", "filter"),
                ("h", "back"),
            ],
        )
    }
}

// ---- what the calls answer ----

/// What the read of a shelf sends back. A refused session is no failure of the
/// shelf. `reason` is the failure as the panel words it.
pub fn listed(reply: Result<Vec<Book>, (Fault, String)>) -> (res: Action)
    ensures
        match reply {
            Ok(books) => res == Action::BooksLoaded(books),
            Err((e, reason)) => if e.kind is Unauthorized {
                res == Action::SessionExpired
            } else {
                res == Action::BooksLoadFailed(reason)
            },
        },
{
    match reply {
        Ok(books) => Action::BooksLoaded(books),
        Err((e, reason)) => match e.kind {
            FaultKind::Unauthorized => Action::SessionExpired,
            _ => Action::BooksLoadFailed(reason),
        },
    }
}

/// What the read of a book's chapters sends back.
pub fn chapters_read(book: Box<Book>, reply: Result<Vec<BookChapter>, (Fault, String)>) -> (res:
    Action)
    ensures
        match reply {
            Ok(chapters) => res == (Action::BookDetailLoaded { book, chapters }),
            Err((e, reason)) => if e.kind is Unauthorized {
                res == Action::SessionExpired
            } else {
                res == Action::BookDetailLoadFailed(reason)
            },
        },
{
    match reply {
        Ok(chapters) => Action::BookDetailLoaded { book, chapters },
        Err((e, reason)) => match e.kind {
            FaultKind::Unauthorized => Action::SessionExpired,
            _ => Action::BookDetailLoadFailed(reason),
        },
    }
}

// ---- laws ----

/// A failed read is never shown as an empty shelf, and invents no rows; the
/// next good read clears it.
pub proof fn a_failure_is_loud_until_a_good_read(
    a: Books,
    reason: String,
    b: Books,
    x: Outcome,
    books: Vec<Book>,
    c: Books,
    y: Outcome,
)
    requires
        a.items@.len() == 0,
        Books::handled(a, Action::BooksLoadFailed(reason), b, x),
        Books::handled(b, Action::BooksLoaded(books), c, y),
    ensures
        b.items == a.items,
        b.panel_model() matches Some(PanelModel::Failed(f)) && f.of("books"@, reason),
        c.failure is None,
        c.items == books,
{
}

/// Stepping between matches lands on a row that matches the query.
pub proof fn match_steps_land_on_matches(pre: Books, d: i32, post: Books, out: Outcome)
    requires
        Books::handled(pre, Action::BooksMatchStep(d), post, out),
        pre.cursor is Some,
        pre.cursor->0 < pre.items@.len(),
        pre.items@.len() <= usize::MAX,
        post.cursor != pre.cursor,
    ensures
        post.cursor is Some,
        post.cursor->0 < pre.items@.len(),
        hits(pre.items@[post.cursor->0 as int].title@, pre.search.query@),
{
    crate::search::a_step_lands_on_a_match(
        marks(pre.items@, pre.search.query@),
        pre.cursor->0 as int,
        d > 0,
    );
}

/// While the fuzzy jump is open every key goes to it.
pub proof fn the_open_picker_owns_every_key(
    pre: Books,
    key: KeyEvent,
    post: Books,
    res: Option<Action>,
)
    requires
        pre.picker is Some,
        Books::intercepted(pre, key, post, res),
    ensures
        res == Some(Action::BooksPickerKey(key)),
        post == pre,
{
}

/// The book under the cursor, whichever row that is, is the one that opens: the detail
/// is gone to, and that book's chapters are read.
pub proof fn the_book_under_the_cursor_opens(pre: Books, row: usize, post: Books, out: Outcome)
    requires
        pre.cursor == Some(row),
        row < pre.items@.len(),
        Books::handled(pre, Action::BooksOpen, post, out),
    ensures
        out.note is None,
        out.effects@.len() == 2,
        out.effects@[0] == Effect::Send(Action::Goto(ScreenKind::BookDetail)),
        out.effects@[1] matches Effect::Call(Request::ListChapters(b)) && *b
            == pre.items@[row as int],
        post == pre,
{
}

/// What is typed at the search prompt is the query, letter by letter.
pub proof fn typing_fills_the_search(
    states: Seq<Books>,
    typed: Seq<char>,
    outs: Seq<Outcome>,
    n: int,
)
    requires
        0 <= n <= typed.len(),
        states.len() == typed.len() + 1,
        forall|i: int|
            #![trigger states[i]]
            0 <= i < typed.len() ==> Books::handled(
                states[i],
                Action::BooksSearchInput(typed[i]),
                states[i + 1],
                outs[i],
            ),
    ensures
        states[n].search.query@ == states[0].search.query@ + typed.take(n),
        states[n].filter == states[0].filter,
        states[n].items == states[0].items,
        n > 0 ==> outs[n - 1].effects@.len() == 0,
    decreases n,
{
    if n > 0 {
        typing_fills_the_search(states, typed, outs, n - 1);
        assert(Books::handled(
            states[n - 1],
            Action::BooksSearchInput(typed[n - 1]),
            states[n],
            outs[n - 1],
        ));
        assert(typed.take(n) =~= typed.take(n - 1).push(typed[n - 1]));
        assert(states[n].search.query@ =~= states[0].search.query@ + typed.take(n));
    } else {
        assert(states[0].search.query@ + typed.take(0) =~= states[0].search.query@);
    }
}

/// The status that a shelf is read for.
pub open spec fn shelf_of(filter: BooksFilter) -> Option<BookStatus> {
    match filter {
        BooksFilter::All => None,
        BooksFilter::Reading => Some(BookStatus::Reading),
        BooksFilter::Completed => Some(BookStatus::Completed),
    }
}

/// `/`, a text, `Enter`: the shelf at hand is read for the books that match that very
/// text, and for all of its books where nothing was typed.
pub proof fn a_search_asks_for_what_was_typed(
    pre: Books,
    slash: KeyEvent,
    opened: Option<Action>,
    states: Seq<Books>,
    typed: Seq<char>,
    outs: Seq<Outcome>,
    post: Books,
    out: Outcome,
)
    requires
        pre.picker is None,
        !pre.search.active,
        slash.code == KeyCode::Char('/'),
        states.len() == typed.len() + 1,
        Books::intercepted(pre, slash, states[0], opened),
        forall|i: int|
            #![trigger states[i]]
            0 <= i < typed.len() ==> Books::handled(
                states[i],
                Action::BooksSearchInput(typed[i]),
                states[i + 1],
                outs[i],
            ),
        Books::handled(states.last(), Action::BooksSearchSubmit, post, out),
    ensures
        states[0].search.active,
        out.note is None,
        out.effects@.len() == 1,
        out.effects@[0] matches Effect::Call(Request::ListBooks { status, query }) && {
            &&& status == shelf_of(pre.filter)
            &&& typed.len() > 0 ==> query is Some && query->0@ == typed
            &&& typed.len() == 0 ==> query is None
        },
        post.search.query@ == typed,
        !post.search.active,
        post.loading,
{
    typing_fills_the_search(states, typed, outs, typed.len() as int);
    assert(typed.take(typed.len() as int) =~= typed);
    assert(Seq::<char>::empty() + typed =~= typed);
}

/// Choosing a shelf reads that shelf, the search kept; leaving the prompt reads the
/// shelf at hand without one.
pub proof fn the_chosen_shelf_is_read(pre: Books, action: Action, post: Books, out: Outcome)
    requires
        action is BooksFilter || action is BooksSearchCancel,
        Books::handled(pre, action, post, out),
    ensures
        out.effects@.len() == 1,
        out.effects@[0] matches Effect::Call(Request::ListBooks { status, query }) && {
            &&& action matches Action::BooksFilter(f) ==> post.filter == f && (f
                == BooksFilter::All ==> status is None) && (f == BooksFilter::Reading ==> status
                == Some(BookStatus::Reading)) && (f == BooksFilter::Completed ==> status == Some(
                BookStatus::Completed,
            )) && match query {
                Some(text) => text@ == pre.search.query@ && text@.len() > 0,
                None => pre.search.query@.len() == 0,
            }
            &&& action is BooksSearchCancel ==> query is None && status == shelf_of(pre.filter)
        },
        action is BooksSearchCancel ==> post.search.query@.len() == 0 && post.filter == pre.filter,
{
}

/// A step lands on the book that far away, or on an end of the shelf.
pub proof fn a_step_walks_the_books(pre: Books, row: usize, d: i32, post: Books, out: Outcome)
    requires
        pre.cursor == Some(row),
        row < pre.items@.len() <= usize::MAX,
        Books::handled(pre, Action::BooksMove(d), post, out),
    ensures
        post.cursor is Some,
        0 <= row + d < pre.items@.len() ==> post.cursor->0 == row + d,
        row + d < 0 ==> post.cursor->0 == 0,
        row + d >= pre.items@.len() ==> post.cursor->0 == pre.items@.len() - 1,
        post == (Books { cursor: post.cursor, ..pre }),
        out.effects@.len() == 0,
{
}

/// `gg` and `G` land on the first and the last book.
pub proof fn the_jumps_land_on_the_ends(pre: Books, action: Action, post: Books, out: Outcome)
    requires
        action is BooksJumpStart || action is BooksJumpEnd,
        0 < pre.items@.len() <= usize::MAX,
        Books::handled(pre, action, post, out),
    ensures
        post.cursor is Some,
        action is BooksJumpStart ==> post.cursor->0 == 0,
        action is BooksJumpEnd ==> post.cursor->0 == pre.items@.len() - 1,
        post.items == pre.items,
{
}

/// A shelf that came in is shown as it came.
pub proof fn a_shelf_is_shown_as_it_came(pre: Books, books: Vec<Book>, post: Books, out: Outcome)
    requires
        books@.len() <= usize::MAX,
        Books::handled(pre, Action::BooksLoaded(books), post, out),
    ensures
        post.items@ == books@,
        post.failure is None,
        !post.loading,
        post.filter == pre.filter,
        post.search == pre.search,
        books@.len() > 0 && pre.cursor is Some ==> post.cursor is Some && post.cursor->0
            < books@.len(),
        pre.cursor matches Some(i) && i < books@.len() ==> post.cursor == pre.cursor,
        out.effects@.len() == 0,
{
}

/// A step to the next match forward lands on the nearest book behind the cursor whose
/// title holds the query.
pub proof fn the_next_match_is_the_nearest(
    pre: Books,
    row: usize,
    d: i32,
    post: Books,
    out: Outcome,
    j: int,
)
    requires
        pre.cursor == Some(row),
        row < pre.items@.len() <= usize::MAX,
        d > 0,
        0 <= j < pre.items@.len(),
        hits(pre.items@[j].title@, pre.search.query@),
        Books::handled(pre, Action::BooksMatchStep(d), post, out),
    ensures
        post.cursor is Some,
        post.cursor->0 < pre.items@.len(),
        hits(pre.items@[post.cursor->0 as int].title@, pre.search.query@),
        j > row ==> row < post.cursor->0 <= j,
        post.items == pre.items,
        out.effects@.len() == 0,
{
    let all = marks(pre.items@, pre.search.query@);
    assert(all[j]);
    crate::search::a_step_forward_lands_on_the_nearest(all, row as int, j);
    crate::search::a_step_lands_on_a_match(all, row as int, true);
    let i = next_marked(all, row as int, true)->0;
    assert(all[i]);
}

/// A step to the match before lands on the nearest one before the cursor.
pub proof fn the_match_before_is_the_nearest(
    pre: Books,
    row: usize,
    d: i32,
    post: Books,
    out: Outcome,
    j: int,
)
    requires
        pre.cursor == Some(row),
        row < pre.items@.len() <= usize::MAX,
        d <= 0,
        0 <= j < pre.items@.len(),
        hits(pre.items@[j].title@, pre.search.query@),
        Books::handled(pre, Action::BooksMatchStep(d), post, out),
    ensures
        post.cursor is Some,
        post.cursor->0 < pre.items@.len(),
        hits(pre.items@[post.cursor->0 as int].title@, pre.search.query@),
        j < row ==> j <= post.cursor->0 < row,
{
    let all = marks(pre.items@, pre.search.query@);
    assert(all[j]);
    crate::search::a_step_back_lands_on_the_nearest(all, row as int, j);
    crate::search::a_step_lands_on_a_match(all, row as int, false);
    let i = next_marked(all, row as int, false)->0;
    assert(all[i]);
}

proof fn lemma_position_names(items: Seq<Book>, id: i64)
    ensures
        position(items, id) matches Some(i) ==> 0 <= i < items.len() && items[i].id == id && forall|
            j: int,
        |
            0 <= j < i ==> (#[trigger] items[j]).id != id,
        position(items, id) is None ==> forall|j: int|
            0 <= j < items.len() ==> (#[trigger] items[j]).id != id,
    decreases items.len(),
{
    if items.len() > 0 {
        let init = items.drop_last();
        lemma_position_names(init, id);
        if position(items, id) is None {
            assert forall|j: int| 0 <= j < items.len() implies (#[trigger] items[j]).id != id by {
                if j < init.len() {
                    assert(init[j] == items[j]);
                }
            }
        } else {
            let i = position(items, id)->0;
            assert forall|j: int| 0 <= j < i implies (#[trigger] items[j]).id != id by {
                assert(init[j] == items[j]);
            }
            if position(init, id) is Some {
                assert(init[i] == items[i]);
            }
        }
    }
}

/// `Enter` in the fuzzy jump goes to the book that the picker stands on, wherever it is
/// on the shelf, and opens it.
pub proof fn the_jump_goes_to_the_book_picked(
    pre: Books,
    p: Picker<i64>,
    key: KeyEvent,
    post: Books,
    out: Outcome,
    k: int,
)
    requires
        pre.picker == Some(p),
        key.code == KeyCode::Enter,
        p.cursor < p.shown().len(),
        0 <= k < pre.items@.len() <= usize::MAX,
        pre.items@[k].id == p.shown()[p.cursor as int].value,
        Books::handled(pre, Action::BooksPickerKey(key), post, out),
    ensures
        post.picker is None,
        post.cursor is Some,
        post.cursor->0 < pre.items@.len(),
        pre.items@[post.cursor->0 as int].id == p.shown()[p.cursor as int].value,
        out.effects@ == seq![Effect::Send(Action::BooksOpen)],
        post.items == pre.items,
{
    lemma_position_names(pre.items@, p.shown()[p.cursor as int].value);
}

/// The jump offers every book of the shelf under its own label.
pub proof fn the_jump_offers_the_shelf(pre: Books, post: Books, out: Outcome, k: int)
    requires
        0 <= k < pre.items@.len(),
        Books::handled(pre, Action::BooksPickerOpen, post, out),
    ensures
        post.picker is Some,
        post.picker->0.items@.len() == pre.items@.len(),
        post.picker->0.items@[k].value == pre.items@[k].id,
        crate::text::holds(post.picker->0.items@[k].label@, pre.items@[k].title@),
        post.picker->0.query@.len() == 0,
        out.effects@.len() == 0,
{
    let label = post.picker->0.items@[k].label@;
    let title = pre.items@[k].title@;
    assert(label == label_text(pre.items@[k]));
    assert(label.subrange(0, title.len() as int) =~= title);
    assert(crate::text::stands_at(label, title, 0));
}

/// `Esc` leaves the jump where the cursor was.
pub proof fn leaving_the_jump_keeps_the_cursor(
    pre: Books,
    key: KeyEvent,
    post: Books,
    out: Outcome,
)
    requires
        key.code == KeyCode::Esc,
        Books::handled(pre, Action::BooksPickerKey(key), post, out),
    ensures
        post == (Books { picker: None, ..pre }),
        out.effects@.len() == 0,
{
}

/// A row shows its own book: the pill of its status, the title, the author and the share.
pub proof fn a_row_shows_its_book(s: Books, b: Book, share: Seq<char>)
    requires
        s.search.query@.len() == 0,
        b.title@.len() > 0,
    ensures
        s.row_text(b, share).len() == 6,
        s.row_text(b, share)[0].1 == b.status.pill_text(),
        s.row_text(b, share)[2].1 == b.title@,
        s.row_text(b, share)[3].1 == "  · "@ + or_empty(b.author),
        s.row_text(b, share)[5].1 == share,
{
    assert(b.title@.skip(0) =~= b.title@);
}

/// The label that the jump goes by is the title, and the author behind it where known.
pub proof fn the_label_of_a_book(b: Book)
    ensures
        b.author is None ==> label_text(b) == b.title@,
        b.author matches Some(a) && a@.len() > 0 ==> label_text(b) == b.title@ + " · "@
            + b.author->0@,
        b.author matches Some(a) && a@.len() == 0 ==> label_text(b) == b.title@,
{
}

/// A failed read keeps the shelf, and keeps its reason.
pub proof fn a_failed_read_keeps_the_shelf(pre: Books, reason: String, post: Books, out: Outcome)
    requires
        Books::handled(pre, Action::BooksLoadFailed(reason), post, out),
    ensures
        post.items == pre.items,
        post.failure is Some,
        post.failure->0.reason == reason,
        !post.loading,
        out.effects@.len() == 0,
{
}

/// What was read reaches the shelf as it came, a failure in its words, and a refused session
/// the sign-in.
pub proof fn a_read_reaches_the_shelf(
    reply: Result<Vec<Book>, (Fault, String)>,
    book: Box<Book>,
    chapters: Result<Vec<BookChapter>, (Fault, String)>,
    a: Action,
    b: Action,
)
    requires
        call_ensures(listed, (reply,), a),
        call_ensures(chapters_read, (book, chapters), b),
    ensures
        reply matches Ok(books) ==> a == Action::BooksLoaded(books),
        reply is Err && reply->Err_0.0.kind is Unauthorized ==> a is SessionExpired,
        reply is Err && !(reply->Err_0.0.kind is Unauthorized) ==> a == Action::BooksLoadFailed(
            reply->Err_0.1,
        ),
        chapters matches Ok(list) ==> b == (Action::BookDetailLoaded { book, chapters: list }),
        chapters is Err && chapters->Err_0.0.kind is Unauthorized ==> b is SessionExpired,
        chapters is Err && !(chapters->Err_0.0.kind is Unauthorized) ==> b
            == Action::BookDetailLoadFailed(chapters->Err_0.1),
{
}

/// The title names the shelf, and the typed text while there is a search.
pub proof fn the_title_names_the_shelf(s: Books, shelf: Seq<char>)
    requires
        s.filter is All ==> shelf == "Books · "@ + "all"@,
        s.filter is Reading ==> shelf == "Books · "@ + "reading"@,
        s.filter is Completed ==> shelf == "Books · "@ + "completed"@,
    ensures
        s.search.active || s.search.query@.len() > 0 ==> s.title_text() == shelf + " · /"@
            + s.search.query@ + "_"@,
        !s.search.active && s.search.query@.len() == 0 ==> s.title_text() == shelf,
{
}

/// Books are shown where there are any; what stands in their place tells a failure from
/// a read under way, from a search without a match, with its text, and from an empty
/// shelf.
pub proof fn an_empty_shelf_says_why(s: Books)
    ensures
        s.items@.len() > 0 <==> s.panel_model() is None,
        s.items@.len() == 0 && s.failure is Some ==> s.panel_model() == Some(
            PanelModel::Failed(s.failure->0),
        ),
        s.items@.len() == 0 && s.failure is None && s.loading ==> s.panel_model() == Some(
            PanelModel::Loading,
        ),
        s.items@.len() == 0 && s.failure is None && !s.loading && s.search.query@.len() > 0
            ==> s.panel_model() == Some(
            PanelModel::Empty("no matches for \""@ + s.search.query@ + "\""@),
        ),
        s.items@.len() == 0 && s.failure is None && !s.loading && s.search.query@.len() == 0
            ==> s.panel_model() == Some(PanelModel::Empty("no books on this shelf"@)),
{
}

/// Every field keeps its value but through the actions that are about it.
pub proof fn what_an_action_leaves_alone(
    pre: Books,
    action: Action,
    post: Books,
    out: Outcome,
)
    requires
        Books::handled(pre, action, post, out),
    ensures
        post.items == pre.items || action is BooksLoaded,
        post.cursor == pre.cursor || action is BooksLoaded || action is BooksMove
            || action is BooksMatchStep || action is BooksJumpStart || action is BooksJumpEnd
            || action is BooksPickerKey,
        post.filter == pre.filter || action is BooksFilter,
        post.search == pre.search || action is BooksSearchInput || action is BooksSearchBackspace
            || action is BooksSearchSubmit || action is BooksSearchCancel,
        post.loading == pre.loading || action is BooksLoaded || action is BooksLoadFailed
            || action is BooksFilter || action is BooksSearchSubmit || action is BooksSearchCancel,
        post.failure == pre.failure || action is BooksLoaded || action is BooksLoadFailed,
        post.picker == pre.picker || action is BooksPickerOpen || action is BooksPickerKey,
{
}

/// Only these actions say something, and only these send something; a read under way is
/// marked until it is answered.
pub proof fn which_actions_are_heard(
    pre: Books,
    action: Action,
    post: Books,
    out: Outcome,
)
    requires
        Books::handled(pre, action, post, out),
    ensures
        out.note is None,
        out.effects@.len() == 0 || action is BooksFilter || action is BooksOpen
            || action is BooksPickerKey || action is BooksSearchSubmit
            || action is BooksSearchCancel,
        out.effects@.len() <= 2,
        (action is BooksFilter || action is BooksSearchSubmit
            || action is BooksSearchCancel) ==> post.loading,
        (action is BooksLoaded || action is BooksLoadFailed) ==> !post.loading,
{
}

/// The screen starts on the books being read, with no search and no jump.
pub proof fn how_the_screen_starts(s: Books)
    requires
        call_ensures(Books::default, (), s),
    ensures
        s.items@.len() == 0,
        s.cursor == Some(0usize),
        s.filter is Reading,
        s.search.query@.len() == 0,
        !s.search.active,
        !s.loading,
        s.failure is None,
        s.picker is None,
{
}

} // verus!
