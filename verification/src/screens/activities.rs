//! Activities table: a scannable ledger of recent activities, paged by the
//! server, filtered by a ring, and narrowed by a search over the loaded page.
//! Row actions refuse on a row that the server does not know yet.

use crate::action::{notice, notifies, one, two, Action, Effect, Outcome, Request};
use crate::cursor::{in_list, select_clamp, select_clamped, select_step, select_stepped};
use crate::dates::{fmt_relative, relative, stamp, stamp_text};
use crate::keys::{KeyCode, KeyEvent};
use crate::line::{
    muted_join, no_lines, page, plain_lines, push_line, push_muted_join, push_plain_lines, Footer,
    Line, Tone,
};
use crate::model::{Activity, Fault, FoldedActivity, Timer, WriteReply};
use crate::notify::Level;
use crate::paging::{lemma_pages, page_count, page_status, page_status_line, pages};
use crate::reply::{settle, settled};
use crate::text::{
    ascii_lower, cat2, cat3, contains, decimal, holds, lower, no_texts, or_empty, own, pieces,
    plural, plural_of, push_tag, push_text, same, show, split, tag, text_or_empty, texts,
};
use vstd::prelude::*;

verus! {

/// Page size we request; the divisor of "page N of M" where the server names
/// none.
pub const PER_PAGE: u32 = 25;

/// How many filters the ring holds.
pub const FILTER_COUNT: usize = 5;

/// The filter ring: the label, the status asked for, and whether only archived
/// rows are.
pub open spec fn filter_at(i: int) -> (&'static str, Option<&'static str>, bool) {
    if i == 0 {
        ("all", None, false)
    } else if i == 1 {
        ("planned", Some("planned"), false)
    } else if i == 2 {
        ("started", Some("started"), false)
    } else if i == 3 {
        ("completed", Some("completed"), false)
    } else {
        ("archived", None, true)
    }
}

/// One filter of the ring.
pub fn filter(i: usize) -> (res: (&'static str, Option<&'static str>, bool))
    ensures
        res == filter_at(i as int),
{
    if i == 0 {
        ("all", None, false)
    } else if i == 1 {
        ("planned", Some("planned"), false)
    } else if i == 2 {
        ("started", Some("started"), false)
    } else if i == 3 {
        ("completed", Some("completed"), false)
    } else {
        ("archived", None, true)
    }
}

/// Whether an optional text holds the query, whatever its case.
pub open spec fn field_holds(o: Option<String>, q: Seq<char>) -> bool {
    o matches Some(s) && holds(ascii_lower(s@), q)
}

/// Whether a row answers the search: by its title, kind or domain.
pub open spec fn row_matches(a: Activity, q: Seq<char>) -> bool {
    ||| holds(ascii_lower(a.title@), q)
    ||| field_holds(a.kind, q)
    ||| field_holds(a.domain_name, q)
}

/// The rows that answer a search, in order.
pub open spec fn narrowed(items: Seq<FoldedActivity>, q: Seq<char>) -> Seq<FoldedActivity>
    decreases items.len(),
{
    if items.len() == 0 {
        Seq::empty()
    } else {
        let before = narrowed(items.drop_last(), q);
        if row_matches(items.last().activity, q) {
            before.push(items.last())
        } else {
            before
        }
    }
}

/// The rows on display: all of them, or those that answer the search.
pub open spec fn shown(items: Seq<FoldedActivity>, query: Seq<char>) -> Seq<FoldedActivity> {
    if query.len() == 0 {
        items
    } else {
        narrowed(items, ascii_lower(query))
    }
}

fn field_matches(o: &Option<String>, q: &Vec<char>) -> (res: bool)
    ensures
        res == field_holds(*o, q@),
{
    match o {
        Some(s) => contains(&lower(s.as_str()), q),
        None => false,
    }
}

fn matches_query(a: &Activity, q: &Vec<char>) -> (res: bool)
    ensures
        res == row_matches(*a, q@),
{
    contains(&lower(a.title.as_str()), q) || field_matches(&a.kind, q) || field_matches(
        &a.domain_name,
        q,
    )
}

/// What a row action says of a row that the server does not know yet.
pub open spec fn still_queued() -> Seq<char> {
    "still queued — it syncs when the wire returns; resolve a stuck write in `engineer queue`"@
}

/// The activities table.
#[derive(Debug)]
pub struct Activities {
    /// The server's page with the queued writes folded over it.
    pub items: Vec<FoldedActivity>,
    pub cursor: Option<usize>,
    /// The page on display, counted from one.
    pub page: u32,
    pub per_page: u32,
    pub total: u32,
    /// Where the filter ring stands.
    pub filter_idx: usize,
    pub query: String,
    pub searching: bool,
    pub loading: bool,
    /// The record that the detail read shows, while it is open.
    pub detail: Option<Activity>,
}

impl Default for Activities {
    fn default() -> (res: Self)
        ensures
            res.fresh(),
    {
        Activities {
            items: Vec::new(),
            cursor: Some(0),
            page: 1,
            per_page: PER_PAGE,
            total: 0,
            filter_idx: 0,
            query: String::new(),
            searching: false,
            loading: false,
            detail: None,
        }
    }
}

impl Activities {
    /// A table that has loaded nothing.
    pub open spec fn fresh(self) -> bool {
        &&& self.items@ == Seq::<FoldedActivity>::empty()
        &&& self.cursor == Some(0usize)
        &&& self.page == 1
        &&& self.per_page == PER_PAGE
        &&& self.total == 0
        &&& self.filter_idx == 0
        &&& self.query@ == Seq::<char>::empty()
        &&& !self.searching
        &&& !self.loading
        &&& self.detail is None
    }

    /// The ring stands on one of its filters.
    pub open spec fn wf(self) -> bool {
        self.filter_idx < FILTER_COUNT
    }

    /// The rows on display.
    pub open spec fn rows(self) -> Seq<FoldedActivity> {
        shown(self.items@, self.query@)
    }

    /// The row under the cursor.
    pub open spec fn chosen(self) -> Option<FoldedActivity> {
        match self.cursor {
            Some(i) => if i < self.rows().len() {
                Some(self.rows()[i as int])
            } else {
                None
            },
            None => None,
        }
    }

    /// The read of the page and filter at hand.
    pub open spec fn fetch_effect(self) -> Effect {
        Effect::Call(
            Request::ListActivities {
                status: filter_at(self.filter_idx as int).1,
                archived: filter_at(self.filter_idx as int).2,
                page: self.page,
                per_page: self.per_page,
            },
        )
    }

    /// A page newly turned to: the search dropped, the cursor at the top, the
    /// read under way.
    pub open spec fn entered(pre: Self, page: int, filter_idx: int, post: Self, out: Outcome) -> bool {
        &&& post == Activities {
            page: page as u32,
            filter_idx: filter_idx as usize,
            searching: false,
            query: post.query,
            cursor: Some(0usize),
            loading: true,
            ..pre
        }
        &&& post.query@ == Seq::<char>::empty()
        &&& out.asks(seq![post.fetch_effect()])
    }

    /// What a row action does: nothing without a row, a refusal on a row the
    /// server does not know, else the call.
    pub open spec fn acted(self, call: spec_fn(Activity) -> Request, out: Outcome) -> bool {
        match self.chosen() {
            None => out.quiet(),
            Some(f) => if f.provisional() {
                out.says(Level::Warning, still_queued())
            } else {
                out.asks(seq![Effect::Call(call(f.activity))])
            },
        }
    }

    /// How the table answers an action.
    pub open spec fn handled(pre: Self, action: Action, post: Self, out: Outcome) -> bool {
        match action {
            Action::ActivitiesLoaded { items, page, per_page, total } => {
                &&& post == Activities {
                    items,
                    loading: false,
                    page: if page > 0 {
                        page
                    } else {
                        pre.page
                    },
                    per_page: if per_page > 0 {
                        per_page
                    } else {
                        pre.per_page
                    },
                    total,
                    cursor: select_clamped(pre.cursor, shown(items@, pre.query@).len() as int),
                    ..pre
                }
                &&& out.quiet()
            },
            Action::ActivitiesLoadFailed(msg) => {
                &&& post == Activities { loading: false, ..pre }
                &&& out.says(Level::Error, msg@)
            },
            Action::ActivitiesMove(d) => {
                &&& post == Activities {
                    cursor: select_stepped(pre.cursor, d as int, pre.rows().len() as int),
                    ..pre
                }
                &&& out.quiet()
            },
            Action::ActivitiesJumpStart => {
                &&& post == Activities {
                    cursor: if pre.rows().len() > 0 {
                        Some(0usize)
                    } else {
                        None
                    },
                    ..pre
                }
                &&& out.quiet()
            },
            Action::ActivitiesJumpEnd => {
                &&& post == Activities {
                    cursor: if pre.rows().len() > 0 {
                        Some((pre.rows().len() - 1) as usize)
                    } else {
                        pre.cursor
                    },
                    ..pre
                }
                &&& out.quiet()
            },
            Action::ActivitiesPageNext => if pre.page < pages(pre.total, pre.per_page) {
                Self::entered(pre, pre.page + 1, pre.filter_idx as int, post, out)
            } else {
                post == pre && out.quiet()
            },
            Action::ActivitiesPagePrev => if pre.page > 1 {
                Self::entered(pre, pre.page - 1, pre.filter_idx as int, post, out)
            } else {
                post == pre && out.quiet()
            },
            Action::ActivitiesCycleFilter => Self::entered(
                pre,
                1,
                (pre.filter_idx + 1) % (FILTER_COUNT as int),
                post,
                out,
            ),
            Action::ActivitiesSearchInput(c) => {
                &&& post == Activities { query: post.query, cursor: Some(0usize), ..pre }
                &&& post.query@ == pre.query@.push(c)
                &&& out.quiet()
            },
            Action::ActivitiesSearchBackspace => {
                &&& post == Activities { query: post.query, cursor: Some(0usize), ..pre }
                &&& post.query@ == (if pre.query@.len() > 0 {
                    pre.query@.drop_last()
                } else {
                    pre.query@
                })
                &&& out.quiet()
            },
            Action::ActivitiesSearchSubmit => {
                &&& post == Activities { searching: false, ..pre }
                &&& out.quiet()
            },
            Action::ActivitiesSearchCancel => {
                &&& post == Activities {
                    searching: false,
                    query: post.query,
                    cursor: Some(0usize),
                    ..pre
                }
                &&& post.query@ == Seq::<char>::empty()
                &&& out.quiet()
            },
            Action::ActivitiesOpenDetail => match pre.chosen() {
                None => post == pre && out.quiet(),
                Some(f) => {
                    &&& post == Activities { detail: Some(f.activity), ..pre }
                    &&& if f.provisional() {
                        out.quiet()
                    } else {
                        out.asks(seq![Effect::Call(Request::GetActivity(f.activity.id))])
                    }
                },
            },
            Action::ActivitiesDetailLoaded(a) => {
                &&& post == Activities {
                    detail: if pre.detail is Some {
                        Some(*a)
                    } else {
                        None
                    },
                    ..pre
                }
                &&& out.quiet()
            },
            Action::ActivitiesCloseDetail => {
                &&& post == Activities { detail: None, ..pre }
                &&& out.quiet()
            },
            Action::ActivitiesComplete => {
                &&& post == pre
                &&& pre.acted(
                    |a: Activity| Request::CompleteActivity { id: a.id, title: a.title },
                    out,
                )
            },
            Action::ActivitiesArchive => {
                &&& post == pre
                &&& pre.acted(
                    |a: Activity|
                        Request::ArchiveActivity { id: a.id, archived: a.archived_at is Some },
                    out,
                )
            },
            Action::ActivitiesDuplicate => {
                &&& post == pre
                &&& pre.acted(
                    |a: Activity| Request::DuplicateActivity { id: a.id, title: a.title },
                    out,
                )
            },
            Action::ActivitiesStartTimer => {
                &&& post == pre
                &&& pre.acted(|a: Activity| Request::StartTimer { id: a.id, title: a.title }, out)
            },
            Action::RefreshActivities => {
                &&& post == Activities { loading: true, ..pre }
                &&& out.asks(seq![pre.fetch_effect()])
            },
            _ => post == pre && out.quiet(),
        }
    }

    /// Entering the screen reads the page.
    pub fn on_enter(&mut self) -> (out: Vec<Effect>)
        ensures
            *final(self) == (Activities { loading: true, ..*old(self) }),
            out@ == seq![old(self).fetch_effect()],
    {
        self.loading = true;
        let mut out: Vec<Effect> = Vec::new();
        out.push(self.fetch());
        assert(out@ =~= seq![old(self).fetch_effect()]);
        out
    }

    fn fetch(&self) -> (res: Effect)
        ensures
            res == self.fetch_effect(),
    {
        let (_, status, archived) = filter(self.filter_idx);
        Effect::Call(
            Request::ListActivities { status, archived, page: self.page, per_page: self.per_page },
        )
    }

    /// Total pages implied by the pagination at hand; one where there is none.
    pub fn total_pages(&self) -> (res: u32)
        ensures
            res == pages(self.total, self.per_page),
    {
        page_count(self.total, self.per_page)
    }

    /// The rows on display.
    pub fn visible(&self) -> (res: Vec<&FoldedActivity>)
        ensures
            res@.len() == self.rows().len(),
            forall|i: int| 0 <= i < res@.len() ==> *(#[trigger] res@[i]) == self.rows()[i],
    {
        let all = self.query.as_str().is_empty();
        let q = lower(self.query.as_str());
        let mut out: Vec<&FoldedActivity> = Vec::new();
        let mut i: usize = 0;
        while i < self.items.len()
            invariant
                i <= self.items.len(),
                all == (self.query@.len() == 0),
                q@ == ascii_lower(self.query@),
                out@.len() == shown(self.items@.take(i as int), self.query@).len(),
                forall|j: int|
                    0 <= j < out@.len() ==> *(#[trigger] out@[j]) == shown(
                        self.items@.take(i as int),
                        self.query@,
                    )[j],
            decreases self.items.len() - i,
        {
            proof {
                let here = self.items@.take(i as int + 1);
                assert(here.drop_last() =~= self.items@.take(i as int));
                assert(here.last() == self.items@[i as int]);
                assert(here =~= self.items@.take(i as int).push(self.items@[i as int]));
            }
            if all || matches_query(&self.items[i].activity, &q) {
                out.push(&self.items[i]);
            }
            i = i + 1;
        }
        assert(self.items@.take(self.items@.len() as int) =~= self.items@);
        out
    }

    fn selected(&self) -> (res: Option<FoldedActivity>)
        ensures
            res == self.chosen(),
    {
        let vis = self.visible();
        match self.cursor {
            Some(i) => if i < vis.len() {
                Some(vis[i].clone())
            } else {
                None
            },
            None => None,
        }
    }

    /// The selected row when it names a record of the server: the row actions'
    /// gate.
    fn selected_confirmed(&self) -> (res: Result<Option<Activity>, Outcome>)
        ensures
            match self.chosen() {
                None => res == Ok::<Option<Activity>, Outcome>(None),
                Some(f) => if f.provisional() {
                    res matches Err(out) && out.says(Level::Warning, still_queued())
                } else {
                    res == Ok::<Option<Activity>, Outcome>(Some(f.activity))
                },
            },
    {
        match self.selected() {
            Some(f) => if f.is_provisional() {
                Err(
                    Outcome::say(
                        Level::Warning,
                        own(
                            "still queued — it syncs when the wire returns; resolve a stuck write in `engineer queue`",
                        ),
                    ),
                )
            } else {
                Ok(Some(f.activity))
            },
            None => Ok(None),
        }
    }

    fn enter_page(&mut self) -> (out: Outcome)
        ensures
            Self::entered(
                *old(self),
                old(self).page as int,
                old(self).filter_idx as int,
                *final(self),
                out,
            ),
    {
        self.searching = false;
        self.query.clear();
        self.cursor = Some(0);
        self.loading = true;
        Outcome::ask(self.fetch())
    }

    /// How the table answers an action.
    pub fn handle(&mut self, action: Action) -> (out: Outcome)
        requires
            old(self).wf(),
        ensures
            final(self).wf(),
            Self::handled(*old(self), action, *final(self), out),
    {
        match action {
            Action::ActivitiesLoaded { items, page, per_page, total } => {
                self.items = items;
                self.loading = false;
                if page > 0 {
                    self.page = page;
                }
                if per_page > 0 {
                    self.per_page = per_page;
                }
                self.total = total;
                let n: usize = self.visible().len();
                self.cursor = select_clamp(self.cursor, n);
            },
            Action::ActivitiesLoadFailed(msg) => {
                self.loading = false;
                return Outcome::say(Level::Error, msg);
            },
            Action::ActivitiesMove(d) => {
                let n: usize = self.visible().len();
                self.cursor = select_step(self.cursor, d, n);
            },
            Action::ActivitiesJumpStart => {
                let n: usize = self.visible().len();
                self.cursor = if n > 0 {
                    Some(0)
                } else {
                    None
                };
            },
            Action::ActivitiesJumpEnd => {
                let n: usize = self.visible().len();
                if n > 0 {
                    self.cursor = Some(n - 1);
                }
            },
            Action::ActivitiesPageNext => {
                if self.page < self.total_pages() {
                    self.page = self.page + 1;
                    return self.enter_page();
                }
            },
            Action::ActivitiesPagePrev => {
                if self.page > 1 {
                    self.page = self.page - 1;
                    return self.enter_page();
                }
            },
            Action::ActivitiesCycleFilter => {
                self.filter_idx = (self.filter_idx + 1) % FILTER_COUNT;
                self.page = 1;
                return self.enter_page();
            },
            Action::ActivitiesSearchInput(c) => {
                self.query.push(c);
                self.cursor = Some(0);
            },
            Action::ActivitiesSearchBackspace => {
                let _ = self.query.pop();
                self.cursor = Some(0);
            },
            Action::ActivitiesSearchSubmit => self.searching = false,
            Action::ActivitiesSearchCancel => {
                self.searching = false;
                self.query.clear();
                self.cursor = Some(0);
            },
            Action::ActivitiesOpenDetail => {
                if let Some(f) = self.selected() {
                    let id: i64 = f.activity.id;
                    self.detail = Some(f.activity);
                    if id < 0 {
                        return Outcome::none();
                    }
                    return Outcome::call(Request::GetActivity(id));
                }
            },
            Action::ActivitiesDetailLoaded(a) => {
                if self.detail.is_some() {
                    self.detail = Some(*a);
                }
            },
            Action::ActivitiesCloseDetail => self.detail = None,
            Action::ActivitiesComplete => {
                return match self.selected_confirmed() {
                    Ok(Some(a)) => Outcome::call(
                        Request::CompleteActivity { id: a.id, title: a.title },
                    ),
                    Ok(None) => Outcome::none(),
                    Err(refusal) => refusal,
                };
            },
            Action::ActivitiesArchive => {
                return match self.selected_confirmed() {
                    Ok(Some(a)) => Outcome::call(
                        Request::ArchiveActivity { id: a.id, archived: a.is_archived() },
                    ),
                    Ok(None) => Outcome::none(),
                    Err(refusal) => refusal,
                };
            },
            Action::ActivitiesDuplicate => {
                return match self.selected_confirmed() {
                    Ok(Some(a)) => Outcome::call(
                        Request::DuplicateActivity { id: a.id, title: a.title },
                    ),
                    Ok(None) => Outcome::none(),
                    Err(refusal) => refusal,
                };
            },
            Action::ActivitiesStartTimer => {
                return match self.selected_confirmed() {
                    Ok(Some(a)) => Outcome::call(Request::StartTimer { id: a.id, title: a.title }),
                    Ok(None) => Outcome::none(),
                    Err(refusal) => refusal,
                };
            },
            Action::RefreshActivities => {
                self.loading = true;
                return Outcome::ask(self.fetch());
            },
            _ => {},
        }
        Outcome::none()
    }

    /// How the detail read and the search prompt take a key.
    pub open spec fn intercepted(
        pre: Self,
        key: KeyEvent,
        post: Self,
        res: Option<Action>,
    ) -> bool {
        if pre.detail is Some {
            &&& post == pre
            &&& res == (match key.code {
                KeyCode::Esc | KeyCode::Enter | KeyCode::Char('h') => Some(
                    Action::ActivitiesCloseDetail,
                ),
                _ => None,
            })
        } else if pre.searching {
            &&& post == pre
            &&& res == (match key.code {
                KeyCode::Esc => Some(Action::ActivitiesSearchCancel),
                KeyCode::Enter => Some(Action::ActivitiesSearchSubmit),
                KeyCode::Backspace => Some(Action::ActivitiesSearchBackspace),
                KeyCode::Char(c) => Some(Action::ActivitiesSearchInput(c)),
                _ => None,
            })
        } else if key.code == KeyCode::Char('/') {
            &&& post == Activities { searching: true, query: post.query, ..pre }
            &&& post.query@ == Seq::<char>::empty()
            &&& res is Some
            &&& notifies(
                res->0,
                Level::Info,
                "filter: type to narrow this page · Esc clears"@,
            )
        } else {
            post == pre && res is None
        }
    }

    /// The detail read and the search prompt own keys before the global keymap.
    pub fn intercept_key(&mut self, key: KeyEvent) -> (res: Option<Action>)
        ensures
            Self::intercepted(*old(self), key, *final(self), res),
            final(self).filter_idx == old(self).filter_idx,
    {
        if self.detail.is_some() {
            return match key.code {
                KeyCode::Esc | KeyCode::Enter | KeyCode::Char('h') => Some(
                    Action::ActivitiesCloseDetail,
                ),
                _ => None,
            };
        }
        if !self.searching {
            if let KeyCode::Char('/') = key.code {
                self.searching = true;
                self.query.clear();
                return Some(
                    notice(Level::Info, own("filter: type to narrow this page · Esc clears")),
                );
            }
            return None;
        }
        match key.code {
            KeyCode::Esc => Some(Action::ActivitiesSearchCancel),
            KeyCode::Enter => Some(Action::ActivitiesSearchSubmit),
            KeyCode::Backspace => Some(Action::ActivitiesSearchBackspace),
            KeyCode::Char(c) => Some(Action::ActivitiesSearchInput(c)),
            _ => None,
        }
    }

    // ---- what the panel says ----

    /// The panel's title: the search as typed, else the filter.
    pub open spec fn title_text(self) -> Seq<char> {
        if self.searching || self.query@.len() > 0 {
            "Activities · /"@ + self.query@ + "_"@
        } else if self.filter_idx == 0 {
            "Activities"@
        } else {
            "Activities · "@ + filter_at(self.filter_idx as int).0@
        }
    }

    /// The panel's title.
    pub fn panel_title(&self) -> (res: String)
        ensures
            res@ == self.title_text(),
    {
        if self.searching || !self.query.as_str().is_empty() {
            return cat3("Activities · /", self.query.as_str(), "_");
        }
        if self.filter_idx == 0 {
            own("Activities")
        } else {
            let (label, _, _) = filter(self.filter_idx);
            cat2("Activities · ", label)
        }
    }

    /// The bottom line: where the page stands, and whether a read is under way.
    pub open spec fn status_text(self) -> Seq<char> {
        page_status(self.page, self.per_page, self.total, self.items@.len(), self.loading)
    }

    /// The bottom line.
    pub fn status_line(&self) -> (res: String)
        ensures
            res@ == self.status_text(),
    {
        page_status_line(self.page, self.per_page, self.total, self.items.len(), self.loading)
    }

    /// What stands in place of the rows, where there are none to show.
    pub open spec fn empty_text(self) -> Option<Seq<char>> {
        if self.loading && self.items@.len() == 0 {
            Some("loading…"@)
        } else if self.rows().len() > 0 {
            None
        } else if self.query@.len() > 0 {
            Some("No activities match that filter on this page."@)
        } else {
            Some("No activities here. Log one with `a`, or cycle filters with `f`."@)
        }
    }

    /// What stands in place of the rows, where there are none to show.
    pub fn empty_message(&self) -> (res: Option<&'static str>)
        ensures
            res is Some <==> self.empty_text() is Some,
            res matches Some(s) ==> s@ == self.empty_text()->0,
    {
        if self.loading && self.items.len() == 0 {
            return Some("loading…");
        }
        if self.visible().len() > 0 {
            return None;
        }
        if !self.query.as_str().is_empty() {
            Some("No activities match that filter on this page.")
        } else {
            Some("No activities here. Log one with `a`, or cycle filters with `f`.")
        }
    }

    /// What the footer offers.
    pub open spec fn offered(self, f: Footer) -> bool {
        if self.detail is Some {
            f.offers(seq![("↵/Esc", "close"), ("h", "back")])
        } else if self.searching {
            f.reads(Tone::Muted, "type to filter this page · Enter to keep · Esc to clear"@)
        } else {
            f.offers(
                seq![
                    ("j/k", "move"),
                    ("↵", "detail"),
                    ("c", "done"),
                    ("a", "archive"),
                    ("d", "dup"),
                    ("t", "timer"),
                    ("f", "filter"),
                    ("[ ]", "page"),
                    ("/", "find"),
                    ("h", "back"),
                ],
            )
        }
    }

    /// What the footer offers.
    pub fn hints(&self) -> (res: Footer)
        ensures
            self.offered(res),
    {
        if self.detail.is_some() {
            return Footer::Keys(vec![("↵/Esc", "close"), ("h", "back")]);
        }
        if self.searching {
            return Footer::Text(
                Line::of(
                    Tone::Muted,
                    own("type to filter this page · Enter to keep · Esc to clear"),
                ),
            );
        }
        Footer::Keys(
            vec![
                ("j/k", "move"),
                ("↵", "detail"),
                ("c", "done"),
                ("a", "archive"),
                ("d", "dup"),
                ("t", "timer"),
                ("f", "filter"),
                ("[ ]", "page"),
                ("/", "find"),
                ("h", "back"),
            ],
        )
    }
}

// ---- rows ----

/// The pill of a status.
pub open spec fn status_text(status: Option<String>) -> (Tone, Seq<char>) {
    match status {
        Some(s) => if s@ == "completed"@ {
            (Tone::OnSuccess, " done "@)
        } else if s@ == "started"@ {
            (Tone::OnAccent, " live "@)
        } else if s@ == "planned"@ {
            (Tone::OnWarn, " plan "@)
        } else {
            (Tone::Muted, " "@ + s@ + " "@)
        },
        None => (Tone::Muted, " — "@),
    }
}

/// The pill of a status.
pub fn status_pill(status: &Option<String>) -> (res: Line)
    ensures
        res@ == seq![status_text(*status)],
{
    match status {
        Some(s) => if same(s.as_str(), "completed") {
            Line::of(Tone::OnSuccess, own(" done "))
        } else if same(s.as_str(), "started") {
            Line::of(Tone::OnAccent, own(" live "))
        } else if same(s.as_str(), "planned") {
            Line::of(Tone::OnWarn, own(" plan "))
        } else {
            Line::of(Tone::Muted, cat3(" ", s.as_str(), " "))
        },
        None => Line::of(Tone::Muted, own(" — ")),
    }
}

/// One row of the table. `pill` is the status that a pill shows, absent on a
/// row that is still queued.
#[derive(Debug)]
pub struct ActivityRow {
    pub pill: Option<Option<String>>,
    pub cells: Vec<Line>,
}

/// Minutes as a cell shows them.
pub open spec fn minutes_cell(d: Option<u32>) -> Seq<char> {
    match d {
        Some(n) => decimal(n as nat) + "m"@,
        None => Seq::empty(),
    }
}

fn minutes_of(d: Option<u32>) -> (res: String)
    ensures
        res@ == minutes_cell(d),
{
    match d {
        Some(n) => cat2(show(n as u64).as_str(), "m"),
        None => String::new(),
    }
}

/// When an activity began, seen from `now`.
pub open spec fn when_cell(started_at: Option<i64>, now: int) -> Seq<char> {
    match started_at {
        Some(t) => relative(t as int, now),
        None => Seq::empty(),
    }
}

/// The cells behind the status: kind, title, domain, duration and when. A row
/// that is still queued says so and reads amber; queued minutes ride beside the
/// confirmed ones, never summed into them.
pub open spec fn row_cells(f: FoldedActivity, now: int) -> Seq<Seq<(Tone, Seq<char>)>> {
    let a = f.activity;
    if f.provisional() {
        seq![
            seq![(Tone::Muted, or_empty(a.kind))],
            seq![(Tone::Warn, a.title@), (Tone::Muted, "  provisional · queued"@)],
            seq![(Tone::Muted, or_empty(a.domain_name))],
            seq![(Tone::Warn, minutes_cell(a.duration_minutes))],
            seq![(Tone::Muted, when_cell(a.started_at, now))],
        ]
    } else {
        seq![
            seq![(Tone::Muted, or_empty(a.kind))],
            seq![
                (
                    if a.archived_at is Some {
                        Tone::Muted
                    } else {
                        Tone::Plain
                    },
                    a.title@,
                ),
            ],
            seq![(Tone::Muted, or_empty(a.domain_name))],
            if f.queued_minutes > 0 {
                seq![
                    (Tone::Muted, minutes_cell(a.duration_minutes)),
                    (Tone::Warn, " ◔+"@ + decimal(f.queued_minutes as nat) + "m"@),
                ]
            } else {
                seq![(Tone::Muted, minutes_cell(a.duration_minutes))]
            },
            seq![(Tone::Muted, when_cell(a.started_at, now))],
        ]
    }
}

/// One row of the table, seen from `now`.
pub fn activity_row(f: &FoldedActivity, now: i64) -> (res: ActivityRow)
    ensures
        res.pill is None <==> f.provisional(),
        res.pill is Some ==> res.pill->0 == f.activity.status,
        page(res.cells@) == row_cells(*f, now as int),
{
    let a = &f.activity;
    let when = match a.started_at {
        Some(t) => fmt_relative(t, now),
        None => String::new(),
    };
    let mut cells = no_lines();
    push_line(&mut cells, Line::of(Tone::Muted, text_or_empty(&a.kind)));
    if f.is_provisional() {
        push_line(
            &mut cells,
            Line::of(Tone::Warn, a.title.clone()).with(Tone::Muted, own("  provisional · queued")),
        );
        push_line(&mut cells, Line::of(Tone::Muted, text_or_empty(&a.domain_name)));
        push_line(&mut cells, Line::of(Tone::Warn, minutes_of(a.duration_minutes)));
        push_line(&mut cells, Line::of(Tone::Muted, when));
        assert(page(cells@) =~~= row_cells(*f, now as int));
        return ActivityRow { pill: None, cells };
    }
    let tone = if a.is_archived() {
        Tone::Muted
    } else {
        Tone::Plain
    };
    push_line(&mut cells, Line::of(tone, a.title.clone()));
    push_line(&mut cells, Line::of(Tone::Muted, text_or_empty(&a.domain_name)));
    let dur = Line::of(Tone::Muted, minutes_of(a.duration_minutes));
    if f.queued_minutes > 0 {
        push_line(
            &mut cells,
            dur.with(Tone::Warn, cat3(" ◔+", show(f.queued_minutes as u64).as_str(), "m")),
        );
    } else {
        push_line(&mut cells, dur);
    }
    push_line(&mut cells, Line::of(Tone::Muted, when));
    assert(page(cells@) =~~= row_cells(*f, now as int));
    ActivityRow { pill: Some(crate::model::dup_text(&a.status)), cells }
}

// ---- the detail read ----

/// The labels of an activity: kind, intent, level and domain, as far as known.
pub open spec fn detail_tags(a: Activity) -> Seq<Seq<char>> {
    tag("kind "@, a.kind) + tag("intent "@, a.intent) + tag("bloom "@, a.bloom_level) + tag(
        "domain "@,
        a.domain_name,
    )
}

/// The times of an activity, as far as known.
pub open spec fn detail_times(a: Activity) -> Seq<Seq<char>> {
    (match a.duration_minutes {
        Some(d) => seq![decimal(d as nat) + " min"@],
        None => Seq::empty(),
    }) + (match a.segments_count {
        Some(c) => seq![decimal(c as nat) + " segment"@ + plural(c as int)],
        None => Seq::empty(),
    }) + (match a.started_at {
        Some(t) => seq!["started "@ + stamp_text(t as int, "%Y-%m-%d %H:%M"@)],
        None => Seq::empty(),
    }) + (match a.ended_at {
        Some(t) => seq!["ended "@ + stamp_text(t as int, "%H:%M"@)],
        None => Seq::empty(),
    })
}

/// The lines of the detail read. The status pill stands before the title.
pub open spec fn detail_page(a: Activity) -> Seq<Seq<(Tone, Seq<char>)>> {
    seq![seq![(Tone::Plain, "  "@), (Tone::Bold, a.title@)]] + muted_join(detail_tags(a))
        + muted_join(detail_times(a)) + (if a.archived_at is Some {
        seq![seq![(Tone::Muted, "archived"@)]]
    } else {
        Seq::empty()
    }) + (match a.notes_generated {
        Some(n) => if n@.len() > 0 {
            seq![seq![(Tone::Plain, ""@)]] + plain_lines(pieces(n@, '\n'))
        } else {
            Seq::empty()
        },
        None => Seq::empty(),
    })
}

/// The lines of the detail read.
#[verifier::rlimit(40)]
pub fn detail_lines(a: &Activity) -> (res: Vec<Line>)
    ensures
        page(res@) == detail_page(*a),
{
    let mut lines = no_lines();
    push_line(&mut lines, Line::of(Tone::Plain, own("  ")).with(Tone::Bold, a.title.clone()));
    let ghost head = page(lines@);
    assert(head =~~= seq![seq![(Tone::Plain, "  "@), (Tone::Bold, a.title@)]]);
    let mut tags = no_texts();
    push_tag(&mut tags, "kind ", &a.kind);
    push_tag(&mut tags, "intent ", &a.intent);
    push_tag(&mut tags, "bloom ", &a.bloom_level);
    push_tag(&mut tags, "domain ", &a.domain_name);
    assert(texts(tags@) =~= detail_tags(*a));
    push_muted_join(&mut lines, &tags);
    let mut timing = no_texts();
    if let Some(d) = a.duration_minutes {
        push_text(&mut timing, cat2(show(d as u64).as_str(), " min"));
    }
    if let Some(c) = a.segments_count {
        push_text(
            &mut timing,
            cat3(show(c as u64).as_str(), " segment", plural_of(c == 1).as_str()),
        );
    }
    if let Some(t) = a.started_at {
        push_text(&mut timing, cat2("started ", stamp(t, "%Y-%m-%d %H:%M").as_str()));
    }
    if let Some(t) = a.ended_at {
        push_text(&mut timing, cat2("ended ", stamp(t, "%H:%M").as_str()));
    }
    assert(texts(timing@) =~= detail_times(*a));
    push_muted_join(&mut lines, &timing);
    let ghost timed = page(lines@);
    if a.is_archived() {
        push_line(&mut lines, Line::of(Tone::Muted, own("archived")));
    }
    let ghost marked = page(lines@);
    assert(marked =~= timed + (if a.archived_at is Some {
        seq![seq![(Tone::Muted, "archived"@)]]
    } else {
        Seq::empty()
    }));
    if let Some(n) = &a.notes_generated {
        if !n.as_str().is_empty() {
            push_line(&mut lines, Line::of(Tone::Plain, own("")));
            push_plain_lines(&mut lines, &split(n.as_str(), '\n'));
            assert(page(lines@) =~= marked + (seq![seq![(Tone::Plain, ""@)]] + plain_lines(
                pieces(n@, '\n'),
            )));
        }
    }
    assert(page(lines@) =~= detail_page(*a));
    lines
}

// ---- what the calls answer ----

/// A loaded page, or the failure to load it.
pub open spec fn listed_action(
    reply: Result<(Vec<FoldedActivity>, u32, u32, u32), Fault>,
    a: Action,
) -> bool {
    match reply {
        Ok((items, page, per_page, total)) => a == (Action::ActivitiesLoaded {
            items,
            page,
            per_page,
            total,
        }),
        Err(e) => a matches Action::ActivitiesLoadFailed(msg) && msg@
            == "activities load failed: "@ + e.shown@,
    }
}

/// What the read of a page sends back.
pub fn listed(reply: Result<(Vec<FoldedActivity>, u32, u32, u32), Fault>) -> (res: Action)
    ensures
        listed_action(reply, res),
{
    match reply {
        Ok((items, page, per_page, total)) => Action::ActivitiesLoaded {
            items,
            page,
            per_page,
            total,
        },
        Err(e) => Action::ActivitiesLoadFailed(cat2("activities load failed: ", e.shown.as_str())),
    }
}

/// What completing an activity sends back.
pub fn completed<T>(title: &str, reply: WriteReply<T>) -> (res: Vec<Action>)
    ensures
        settled(
            reply,
            "completed · "@ + title@,
            "completed · "@ + title@ + " · queued (offline) — will sync"@,
            "complete failed"@,
            Action::RefreshActivities,
            res@,
        ),
{
    settle(
        reply,
        cat2("completed · ", title),
        cat3("completed · ", title, " · queued (offline) — will sync"),
        "complete failed",
        Action::RefreshActivities,
    )
}

/// What archiving (or unarchiving) an activity sends back.
pub fn archived<T>(was_archived: bool, reply: WriteReply<T>) -> (res: Vec<Action>)
    ensures
        settled(
            reply,
            if was_archived {
                "unarchived"@
            } else {
                "archived"@
            },
            if was_archived {
                "unarchived · queued (offline) — will sync"@
            } else {
                "archived · queued (offline) — will sync"@
            },
            "archive failed"@,
            Action::RefreshActivities,
            res@,
        ),
{
    if was_archived {
        settle(
            reply,
            own("unarchived"),
            own("unarchived · queued (offline) — will sync"),
            "archive failed",
            Action::RefreshActivities,
        )
    } else {
        settle(
            reply,
            own("archived"),
            own("archived · queued (offline) — will sync"),
            "archive failed",
            Action::RefreshActivities,
        )
    }
}

/// What duplicating an activity sends back.
pub fn duplicated<T>(title: &str, reply: WriteReply<T>) -> (res: Vec<Action>)
    ensures
        settled(
            reply,
            "duplicated · "@ + title@,
            "duplicated · "@ + title@ + " · queued (offline) — will sync"@,
            "duplicate failed"@,
            Action::RefreshActivities,
            res@,
        ),
{
    settle(
        reply,
        cat2("duplicated · ", title),
        cat3("duplicated · ", title, " · queued (offline) — will sync"),
        "duplicate failed",
        Action::RefreshActivities,
    )
}

/// What starting the timer on an activity sends back: the word and the clock,
/// real or provisional.
pub fn timer_started(title: &str, reply: WriteReply<Box<Timer>>) -> (res: Vec<Action>)
    ensures
        match reply {
            WriteReply::Confirmed(t) => {
                &&& res@.len() == 2
                &&& notifies(res@[0], Level::Success, "timer started · "@ + title@)
                &&& res@[1] == Action::TimerLoaded(t)
            },
            WriteReply::Provisional(t) => {
                &&& res@.len() == 2
                &&& notifies(
                    res@[0],
                    Level::Info,
                    "timer started · "@ + title@ + " · queued (offline) — will sync"@,
                )
                &&& res@[1] == Action::TimerProvisional(t)
            },
            WriteReply::Failed(e) => {
                &&& res@.len() == 1
                &&& notifies(res@[0], Level::Error, "timer start failed: "@ + e.shown@)
            },
        },
{
    match reply {
        WriteReply::Confirmed(t) => two(
            notice(Level::Success, cat2("timer started · ", title)),
            Action::TimerLoaded(t),
        ),
        WriteReply::Provisional(t) => two(
            notice(
                Level::Info,
                cat3("timer started · ", title, " · queued (offline) — will sync"),
            ),
            Action::TimerProvisional(t),
        ),
        WriteReply::Failed(e) => one(
            notice(Level::Error, cat2("timer start failed: ", e.shown.as_str())),
        ),
    }
}

// ---- laws ----

/// The row actions: those that write to the server.
pub open spec fn row_action(action: Action) -> bool {
    action is ActivitiesComplete || action is ActivitiesArchive || action is ActivitiesDuplicate
        || action is ActivitiesStartTimer
}

/// A row that is still queued is never acted on: every row action refuses, says
/// so, and asks for no call.
pub proof fn a_queued_row_is_left_alone(
    pre: Activities,
    action: Action,
    post: Activities,
    out: Outcome,
)
    requires
        row_action(action),
        pre.chosen() is Some,
        pre.chosen()->0.provisional(),
        Activities::handled(pre, action, post, out),
    ensures
        post == pre,
        out.says(Level::Warning, still_queued()),
{
}

/// Paging keeps inside the pages there are.
pub proof fn paging_stays_inside(pre: Activities, action: Action, post: Activities, out: Outcome)
    requires
        action is ActivitiesPageNext || action is ActivitiesPagePrev,
        1 <= pre.page <= pages(pre.total, pre.per_page),
        Activities::handled(pre, action, post, out),
    ensures
        1 <= post.page <= pages(post.total, post.per_page),
{
    lemma_pages(pre.total, pre.per_page);
}

/// The next page and the one before it undo each other.
pub proof fn paging_back_undoes_paging_on(
    a: Activities,
    b: Activities,
    c: Activities,
    there: Outcome,
    back: Outcome,
)
    requires
        1 <= a.page < pages(a.total, a.per_page),
        Activities::handled(a, Action::ActivitiesPageNext, b, there),
        Activities::handled(b, Action::ActivitiesPagePrev, c, back),
    ensures
        c.page == a.page,
        c.filter_idx == a.filter_idx,
        back.asks(seq![c.fetch_effect()]),
{
    lemma_pages(a.total, a.per_page);
}

/// Five turns of the filter ring come home, on the first page.
pub proof fn the_filter_ring_closes(
    a: Activities,
    b: Activities,
    c: Activities,
    d: Activities,
    e: Activities,
    f: Activities,
    outs: Seq<Outcome>,
)
    requires
        a.wf(),
        Activities::handled(a, Action::ActivitiesCycleFilter, b, outs[0]),
        Activities::handled(b, Action::ActivitiesCycleFilter, c, outs[1]),
        Activities::handled(c, Action::ActivitiesCycleFilter, d, outs[2]),
        Activities::handled(d, Action::ActivitiesCycleFilter, e, outs[3]),
        Activities::handled(e, Action::ActivitiesCycleFilter, f, outs[4]),
    ensures
        f.filter_idx == a.filter_idx,
        f.page == 1,
{
}

/// Cancelling the search puts every loaded row back on display.
pub proof fn cancelling_the_search_restores_the_page(
    pre: Activities,
    post: Activities,
    out: Outcome,
)
    requires
        Activities::handled(pre, Action::ActivitiesSearchCancel, post, out),
    ensures
        post.rows() == pre.items@,
{
}

/// A load leaves the cursor on a row of the table, wherever it stood.
pub proof fn a_load_clamps_the_cursor(
    pre: Activities,
    items: Vec<FoldedActivity>,
    page: u32,
    per_page: u32,
    total: u32,
    post: Activities,
    out: Outcome,
)
    requires
        items@.len() <= usize::MAX,
        Activities::handled(
            pre,
            Action::ActivitiesLoaded { items, page, per_page, total },
            post,
            out,
        ),
    ensures
        in_list(post.cursor, post.rows().len() as int),
{
    lemma_narrowed_is_no_longer(items@, ascii_lower(pre.query@));
}

proof fn lemma_narrowed_is_no_longer(items: Seq<FoldedActivity>, q: Seq<char>)
    ensures
        narrowed(items, q).len() <= items.len(),
    decreases items.len(),
{
    if items.len() > 0 {
        lemma_narrowed_is_no_longer(items.drop_last(), q);
    }
}

/// A row action goes to the row under the cursor, whichever of the rows on display
/// that is, as long as the server knows it: exactly one call, for that activity.
pub proof fn a_row_action_goes_to_the_row_under_the_cursor(
    pre: Activities,
    row: usize,
    action: Action,
    post: Activities,
    out: Outcome,
)
    requires
        pre.query@.len() == 0,
        pre.cursor == Some(row),
        row < pre.items@.len(),
        pre.items@[row as int].activity.id >= 0,
        row_action(action),
        Activities::handled(pre, action, post, out),
    ensures
        post == pre,
        out.note is None,
        out.effects@.len() == 1,
        ({
            let a = pre.items@[row as int].activity;
            &&& action is ActivitiesComplete ==> out.effects@[0] == Effect::Call(
                Request::CompleteActivity { id: a.id, title: a.title },
            )
            &&& action is ActivitiesDuplicate ==> out.effects@[0] == Effect::Call(
                Request::DuplicateActivity { id: a.id, title: a.title },
            )
            &&& action is ActivitiesStartTimer ==> out.effects@[0] == Effect::Call(
                Request::StartTimer { id: a.id, title: a.title },
            )
            &&& action is ActivitiesArchive ==> (out.effects@[0] matches Effect::Call(
                Request::ArchiveActivity { id, .. },
            ) && id == a.id)
        }),
{
}

/// Archiving takes the way that the row calls for: a live row is archived and an
/// archived one is brought back. The flag of the call is whether the row was
/// archived already.
pub proof fn archiving_turns_the_row_over(
    pre: Activities,
    post: Activities,
    out: Outcome,
    f: FoldedActivity,
)
    requires
        pre.chosen() == Some(f),
        f.activity.id >= 0,
        Activities::handled(pre, Action::ActivitiesArchive, post, out),
    ensures
        out.effects@.len() == 1,
        f.activity.archived_at is None ==> out.effects@[0] == Effect::Call(
            Request::ArchiveActivity { id: f.activity.id, archived: false },
        ),
        f.activity.archived_at is Some ==> out.effects@[0] == Effect::Call(
            Request::ArchiveActivity { id: f.activity.id, archived: true },
        ),
        post == pre,
{
}

/// Two rows of which one is archived take different ways.
pub proof fn a_live_and_an_archived_row_part(
    a: Activities,
    b: Activities,
    live: FoldedActivity,
    shelved: FoldedActivity,
    outs: Seq<Outcome>,
)
    requires
        a.chosen() == Some(live),
        b.chosen() == Some(shelved),
        live.activity.id >= 0,
        live.activity.id == shelved.activity.id,
        live.activity.archived_at is None,
        shelved.activity.archived_at is Some,
        Activities::handled(a, Action::ActivitiesArchive, a, outs[0]),
        Activities::handled(b, Action::ActivitiesArchive, b, outs[1]),
    ensures
        outs[0].effects@ != outs[1].effects@,
{
    assert(outs[0].effects@[0] == Effect::Call(
        Request::ArchiveActivity { id: live.activity.id, archived: false },
    ));
    assert(outs[1].effects@[0] == Effect::Call(
        Request::ArchiveActivity { id: shelved.activity.id, archived: true },
    ));
}

/// A row without a number of the server's yet is one that only the queue holds.
pub proof fn a_negative_number_is_a_queued_row(f: FoldedActivity)
    ensures
        f.provisional() <==> f.activity.id < 0,
{
}

proof fn lemma_narrowed(items: Seq<FoldedActivity>, q: Seq<char>)
    ensures
        forall|i: int|
            0 <= i < narrowed(items, q).len() ==> row_matches(
                (#[trigger] narrowed(items, q)[i]).activity,
                q,
            ) && items.contains(narrowed(items, q)[i]),
        forall|i: int|
            0 <= i < items.len() && row_matches((#[trigger] items[i]).activity, q) ==> narrowed(
                items,
                q,
            ).contains(items[i]),
    decreases items.len(),
{
    if items.len() > 0 {
        let init = items.drop_last();
        lemma_narrowed(init, q);
        let before = narrowed(init, q);
        let all = narrowed(items, q);
        assert forall|i: int| 0 <= i < all.len() implies row_matches(
            (#[trigger] all[i]).activity,
            q,
        ) && items.contains(all[i]) by {
            if i < before.len() {
                assert(all[i] == before[i]);
                assert(init.contains(before[i]));
                let j = choose|j: int| 0 <= j < init.len() && init[j] == before[i];
                assert(items[j] == all[i]);
            } else {
                assert(items[items.len() - 1] == all[i]);
            }
        }
        assert forall|i: int|
            0 <= i < items.len() && row_matches((#[trigger] items[i]).activity, q) implies all.contains(
            items[i],
        ) by {
            if i < init.len() {
                assert(init[i] == items[i]);
                let j = choose|j: int| 0 <= j < before.len() && before[j] == init[i];
                assert(all[j] == items[i]);
            } else {
                assert(all[all.len() - 1] == items[i]);
            }
        }
    }
}

/// A search shows the rows whose title, kind or domain holds what is typed, whatever
/// the case, and no other row; nothing typed shows them all.
pub proof fn a_search_shows_the_rows_that_hold_it(s: Activities, f: FoldedActivity)
    requires
        s.items@.contains(f),
    ensures
        s.query@.len() == 0 ==> s.rows() == s.items@,
        s.query@.len() > 0 ==> (s.rows().contains(f) <==> (holds(
            ascii_lower(f.activity.title@),
            ascii_lower(s.query@),
        ) || (f.activity.kind matches Some(k) && holds(ascii_lower(k@), ascii_lower(s.query@))) || (
        f.activity.domain_name matches Some(d) && holds(ascii_lower(d@), ascii_lower(s.query@))))),
{
    lemma_narrowed(s.items@, ascii_lower(s.query@));
    let i = choose|i: int| 0 <= i < s.items@.len() && s.items@[i] == f;
    assert(s.items@[i] == f);
}

/// Every row on display is one that was loaded.
pub proof fn a_shown_row_was_loaded(s: Activities, i: int)
    requires
        0 <= i < s.rows().len(),
    ensures
        s.items@.contains(s.rows()[i]),
{
    lemma_narrowed(s.items@, ascii_lower(s.query@));
    if s.query@.len() == 0 {
        assert(s.items@[i] == s.rows()[i]);
    }
}

/// With a search on, a row action goes to the row of the narrowed list that the
/// cursor stands on: one that was loaded, and that the search matches.
pub proof fn a_searched_row_is_the_one_acted_on(
    pre: Activities,
    row: usize,
    action: Action,
    post: Activities,
    out: Outcome,
)
    requires
        pre.query@.len() > 0,
        pre.cursor == Some(row),
        row < pre.rows().len(),
        pre.rows()[row as int].activity.id >= 0,
        row_action(action),
        Activities::handled(pre, action, post, out),
    ensures
        pre.items@.contains(pre.rows()[row as int]),
        out.effects@.len() == 1,
        ({
            let a = pre.rows()[row as int].activity;
            match out.effects@[0] {
                Effect::Call(Request::CompleteActivity { id, .. }) => action is ActivitiesComplete
                    && id == a.id,
                Effect::Call(Request::DuplicateActivity { id, .. }) => action is ActivitiesDuplicate
                    && id == a.id,
                Effect::Call(Request::StartTimer { id, .. }) => action is ActivitiesStartTimer && id
                    == a.id,
                Effect::Call(Request::ArchiveActivity { id, .. }) => action is ActivitiesArchive
                    && id == a.id,
                _ => false,
            }
        }),
{
    a_shown_row_was_loaded(pre, row as int);
}

/// The row under the cursor opens, and the server is asked for its record where it
/// knows the row.
pub proof fn the_row_under_the_cursor_opens(
    pre: Activities,
    f: FoldedActivity,
    post: Activities,
    out: Outcome,
)
    requires
        pre.chosen() == Some(f),
        Activities::handled(pre, Action::ActivitiesOpenDetail, post, out),
    ensures
        post.detail == Some(f.activity),
        f.activity.id >= 0 ==> out.effects@ == seq![
            Effect::Call(Request::GetActivity(f.activity.id)),
        ],
        f.activity.id < 0 ==> out.effects@.len() == 0,
        post == (Activities { detail: post.detail, ..pre }),
{
}

/// The row under the cursor is the row of that number on display.
pub proof fn the_cursor_names_its_row(s: Activities, row: usize)
    requires
        s.cursor == Some(row),
        row < s.rows().len(),
    ensures
        s.chosen() == Some(s.rows()[row as int]),
        s.query@.len() == 0 ==> s.chosen() == Some(s.items@[row as int]),
{
}

/// A step lands on the row that far away, or on an end of what is on display.
pub proof fn a_step_walks_the_rows(
    pre: Activities,
    row: usize,
    d: i32,
    post: Activities,
    out: Outcome,
)
    requires
        pre.cursor == Some(row),
        row < pre.rows().len() <= usize::MAX,
        Activities::handled(pre, Action::ActivitiesMove(d), post, out),
    ensures
        post.cursor is Some,
        0 <= row + d < pre.rows().len() ==> post.cursor->0 == row + d,
        row + d < 0 ==> post.cursor->0 == 0,
        row + d >= pre.rows().len() ==> post.cursor->0 == pre.rows().len() - 1,
        post == (Activities { cursor: post.cursor, ..pre }),
        out.effects@.len() == 0,
{
}

/// `gg` and `G` land on the first and the last row on display.
pub proof fn the_jumps_land_on_the_ends(
    pre: Activities,
    action: Action,
    post: Activities,
    out: Outcome,
)
    requires
        action is ActivitiesJumpStart || action is ActivitiesJumpEnd,
        0 < pre.rows().len() <= usize::MAX,
        Activities::handled(pre, action, post, out),
    ensures
        post.cursor is Some,
        action is ActivitiesJumpStart ==> post.cursor->0 == 0,
        action is ActivitiesJumpEnd ==> post.cursor->0 == pre.rows().len() - 1,
        post.items == pre.items,
{
}

/// The filters of the ring, as the server is asked for them: everything, one of three
/// statuses, or what is archived.
pub proof fn the_filters_of_the_ring(s: Activities)
    requires
        s.wf(),
    ensures
        s.fetch_effect() matches Effect::Call(
            Request::ListActivities { status, archived, page, per_page },
        ) && {
            &&& page == s.page
            &&& per_page == s.per_page
            &&& archived <==> s.filter_idx == 4
            &&& s.filter_idx == 0 || s.filter_idx == 4 ==> status is None
            &&& s.filter_idx == 1 ==> status == Some("planned")
            &&& s.filter_idx == 2 ==> status == Some("started")
            &&& s.filter_idx == 3 ==> status == Some("completed")
        },
{
}

/// The next filter is asked for from its first page.
pub proof fn the_next_filter_is_asked_for(pre: Activities, post: Activities, out: Outcome)
    requires
        pre.wf(),
        Activities::handled(pre, Action::ActivitiesCycleFilter, post, out),
    ensures
        post.filter_idx == (if pre.filter_idx == 4 {
            0
        } else {
            pre.filter_idx + 1
        }),
        post.page == 1,
        post.query@.len() == 0,
        out.effects@.len() == 1,
        out.effects@[0] matches Effect::Call(
            Request::ListActivities { status, archived, page, per_page },
        ) && {
            &&& page == 1
            &&& per_page == pre.per_page
            &&& archived <==> post.filter_idx == 4
            &&& post.filter_idx == 1 ==> status == Some("planned")
            &&& post.filter_idx == 2 ==> status == Some("started")
            &&& post.filter_idx == 3 ==> status == Some("completed")
            &&& post.filter_idx == 0 || post.filter_idx == 4 ==> status is None
        },
{
}

/// A page is turned wherever there is one to turn to, under the same filter, and the
/// server is asked for that page.
pub proof fn a_turned_page_keeps_the_filter(
    pre: Activities,
    action: Action,
    post: Activities,
    out: Outcome,
)
    requires
        action is ActivitiesPageNext || action is ActivitiesPagePrev,
        pre.wf(),
        Activities::handled(pre, action, post, out),
    ensures
        action is ActivitiesPageNext && pre.page < pages(pre.total, pre.per_page) ==> post.page
            == pre.page + 1 && out.effects@.len() == 1,
        action is ActivitiesPageNext && pre.page >= pages(pre.total, pre.per_page) ==> post == pre
            && out.effects@.len() == 0,
        action is ActivitiesPagePrev && pre.page > 1 ==> post.page == pre.page - 1
            && out.effects@.len() == 1,
        action is ActivitiesPagePrev && pre.page <= 1 ==> post == pre && out.effects@.len() == 0,
        out.effects@.len() == 1 ==> (out.effects@[0] matches Effect::Call(
            Request::ListActivities { status, archived, page, per_page },
        ) && page == post.page && per_page == pre.per_page && (archived <==> pre.filter_idx == 4)
            && (pre.filter_idx == 1 ==> status == Some("planned")) && (pre.filter_idx == 2
            ==> status == Some("started")) && (pre.filter_idx == 3 ==> status == Some(
            "completed",
        ))),
        post.filter_idx == pre.filter_idx,
{
    lemma_pages(pre.total, pre.per_page);
}

/// A page that came in is shown as it came, with the numbers it came with.
pub proof fn a_page_is_shown_as_it_came(
    pre: Activities,
    items: Vec<FoldedActivity>,
    page: u32,
    per_page: u32,
    total: u32,
    post: Activities,
    out: Outcome,
)
    requires
        page > 0,
        per_page > 0,
        Activities::handled(
            pre,
            Action::ActivitiesLoaded { items, page, per_page, total },
            post,
            out,
        ),
    ensures
        post.items@ == items@,
        post.page == page,
        post.per_page == per_page,
        post.total == total,
        post.filter_idx == pre.filter_idx,
        post.query == pre.query,
        !post.loading,
        out.effects@.len() == 0,
{
}

/// What is typed at the search prompt is the query, and nothing is read for it.
pub proof fn typing_fills_the_search(
    states: Seq<Activities>,
    typed: Seq<char>,
    outs: Seq<Outcome>,
    n: int,
)
    requires
        0 <= n <= typed.len(),
        states.len() == typed.len() + 1,
        forall|i: int|
            #![trigger states[i]]
            0 <= i < typed.len() ==> Activities::handled(
                states[i],
                Action::ActivitiesSearchInput(typed[i]),
                states[i + 1],
                outs[i],
            ),
    ensures
        states[n].query@ == states[0].query@ + typed.take(n),
        states[n].items == states[0].items,
        n > 0 ==> states[n].cursor == Some(0usize) && outs[n - 1].effects@.len() == 0,
    decreases n,
{
    if n > 0 {
        typing_fills_the_search(states, typed, outs, n - 1);
        assert(Activities::handled(
            states[n - 1],
            Action::ActivitiesSearchInput(typed[n - 1]),
            states[n],
            outs[n - 1],
        ));
        assert(typed.take(n) =~= typed.take(n - 1).push(typed[n - 1]));
        assert(states[n].query@ =~= states[0].query@ + typed.take(n));
    } else {
        assert(states[0].query@ + typed.take(0) =~= states[0].query@);
    }
}

/// A letter typed and taken back leaves the search as it was.
pub proof fn a_letter_taken_back_is_gone(
    a: Activities,
    c: char,
    b: Activities,
    d: Activities,
    x: Outcome,
    y: Outcome,
)
    requires
        Activities::handled(a, Action::ActivitiesSearchInput(c), b, x),
        Activities::handled(b, Action::ActivitiesSearchBackspace, d, y),
    ensures
        d.query@ == a.query@,
        d.rows() == a.rows(),
{
    assert(a.query@.push(c).drop_last() =~= a.query@);
}

/// Submitting the search keeps it, and what it shows.
pub proof fn a_submitted_search_stays(pre: Activities, post: Activities, out: Outcome)
    requires
        Activities::handled(pre, Action::ActivitiesSearchSubmit, post, out),
    ensures
        post.query == pre.query,
        post.rows() == pre.rows(),
        post.cursor == pre.cursor,
        !post.searching,
        out.effects@.len() == 0,
{
}

/// The record that was read takes the place of the row's in an open detail, and opens
/// none by itself.
pub proof fn a_read_record_fills_an_open_detail(
    pre: Activities,
    a: Box<Activity>,
    post: Activities,
    out: Outcome,
)
    requires
        Activities::handled(pre, Action::ActivitiesDetailLoaded(a), post, out),
    ensures
        pre.detail is Some ==> post.detail == Some(*a),
        pre.detail is None ==> post.detail is None,
        post.items == pre.items,
{
}

/// What a search shows keeps the order of the page.
pub proof fn a_search_keeps_the_order(items: Seq<FoldedActivity>, q: Seq<char>)
    ensures
        narrowed(items, q) == items.filter(
            |f: FoldedActivity|
                holds(ascii_lower(f.activity.title@), q) || (f.activity.kind matches Some(k)
                    && holds(ascii_lower(k@), q)) || (f.activity.domain_name matches Some(d)
                    && holds(ascii_lower(d@), q)),
        ),
    decreases items.len(),
{
    reveal(Seq::filter);
    if items.len() > 0 {
        a_search_keeps_the_order(items.drop_last(), q);
    }
}

/// What became of a row action is said, and the page is read again once the server has
/// it: a write that waits in the queue, and one that failed, read nothing.
pub proof fn a_settled_row_action_rereads(title: &str, reply: WriteReply<()>, res: Vec<Action>)
    requires
        call_ensures(completed::<()>, (title, reply), res) || call_ensures(
            duplicated::<()>,
            (title, reply),
            res,
        ),
    ensures
        res@.len() > 0,
        res@[0] matches Action::Notify { level, text } && {
            &&& level == (match reply {
                WriteReply::Confirmed(_) => Level::Success,
                WriteReply::Provisional(_) => Level::Info,
                WriteReply::Failed(_) => Level::Error,
            })
            &&& !(reply is Failed) ==> holds(text@, title@)
            &&& reply matches WriteReply::Failed(e) ==> holds(text@, e.shown@)
        },
        reply is Confirmed ==> res@.len() == 2 && res@[1] == Action::RefreshActivities,
        !(reply is Confirmed) ==> res@.len() == 1,
{
    let text = res@[0]->text@;
    match reply {
        WriteReply::Confirmed(_) => {
            lemma_held_last("completed · "@, title@, text);
            lemma_held_last("duplicated · "@, title@, text);
        },
        WriteReply::Provisional(_) => {
            lemma_held("completed · "@, title@, " · queued (offline) — will sync"@);
            lemma_held("duplicated · "@, title@, " · queued (offline) — will sync"@);
        },
        WriteReply::Failed(e) => {
            lemma_held_last("complete failed"@ + ": "@, e.shown@, text);
            lemma_held_last("duplicate failed"@ + ": "@, e.shown@, text);
        },
    }
}

proof fn lemma_held(a: Seq<char>, b: Seq<char>, c: Seq<char>)
    ensures
        holds(a + b + c, b),
{
    assert((a + b + c).subrange(a.len() as int, (a.len() + b.len()) as int) =~= b);
    assert(crate::text::stands_at(a + b + c, b, a.len() as int));
}

proof fn lemma_held_last(a: Seq<char>, b: Seq<char>, text: Seq<char>)
    ensures
        text == a + b ==> holds(text, b),
{
    if text == a + b {
        lemma_held(a, b, Seq::empty());
        assert(a + b + Seq::<char>::empty() =~= a + b);
    }
}

/// Archiving is answered by what it did: bringing a row back is not called archiving,
/// nor the other way round.
pub proof fn the_answer_says_which_way_it_went(
    reply: WriteReply<()>,
    there: Vec<Action>,
    back: Vec<Action>,
)
    requires
        !(reply is Failed),
        call_ensures(archived::<()>, (false, reply), there),
        call_ensures(archived::<()>, (true, reply), back),
    ensures
        there@.len() > 0,
        back@.len() > 0,
        there@[0] matches Action::Notify { text, .. } && text@.len() >= 8 && text@.take(8)
            == "archived"@,
        back@[0] matches Action::Notify { text, .. } && text@.len() >= 10 && text@.take(10)
            == "unarchived"@,
{
    reveal_strlit("archived");
    reveal_strlit("unarchived");
    reveal_strlit("archived · queued (offline) — will sync");
    reveal_strlit("unarchived · queued (offline) — will sync");
    assert(there@[0]->text@.take(8) =~= "archived"@);
    assert(back@[0]->text@.take(10) =~= "unarchived"@);
}

/// A started timer reaches the header: the live one, or the one that its queued write
/// implies; a failed start reaches nothing but a notice.
pub proof fn a_started_timer_reaches_the_header(
    title: &str,
    reply: WriteReply<Box<Timer>>,
    res: Vec<Action>,
)
    requires
        call_ensures(timer_started, (title, reply), res),
    ensures
        reply matches WriteReply::Confirmed(t) ==> res@.len() == 2 && res@[1]
            == Action::TimerLoaded(t),
        reply matches WriteReply::Provisional(t) ==> res@.len() == 2 && res@[1]
            == Action::TimerProvisional(t),
        reply is Failed ==> res@.len() == 1,
        res@[0] is Notify,
{
}

/// A row shows its own activity: the kind, the title, the domain, the minutes and when it
/// began. Queued minutes stand beside the confirmed ones and are never summed into them;
/// a row that only the queue holds says so.
pub proof fn a_row_shows_its_activity(f: FoldedActivity, now: int)
    ensures
        ({
            let row = row_cells(f, now);
            &&& row.len() == 5
            &&& row[0][0].1 == or_empty(f.activity.kind)
            &&& row[1][0].1 == f.activity.title@
            &&& row[2][0].1 == or_empty(f.activity.domain_name)
            &&& f.activity.duration_minutes matches Some(n) ==> row[3][0].1 == decimal(n as nat)
                + "m"@
            &&& f.activity.duration_minutes is None ==> row[3][0].1.len() == 0
            &&& f.activity.id >= 0 && f.queued_minutes > 0 ==> row[3].len() == 2 && row[3][1].1
                == " ◔+"@ + decimal(f.queued_minutes as nat) + "m"@
            &&& f.activity.id >= 0 && f.queued_minutes == 0 ==> row[3].len() == 1
            &&& f.activity.id < 0 ==> row[1].len() == 2 && row[1][1].1 == "  provisional · queued"@
            &&& f.activity.id >= 0 ==> row[1].len() == 1
            &&& f.activity.started_at matches Some(t) ==> row[4][0].1 == relative(t as int, now)
        }),
{
}

/// The detail opens with the title, and marks an archived activity as such.
pub proof fn the_detail_shows_its_activity(a: Activity)
    ensures
        detail_page(a).len() > 0,
        detail_page(a)[0][1].1 == a.title@,
        a.archived_at is Some ==> detail_page(a).contains(seq![(Tone::Muted, "archived"@)]),
{
    let head = seq![seq![(Tone::Plain, "  "@), (Tone::Bold, a.title@)]] + muted_join(
        detail_tags(a),
    ) + muted_join(detail_times(a));
    if a.archived_at is Some {
        assert(detail_page(a)[head.len() as int] == seq![(Tone::Muted, "archived"@)]);
    }
}

/// The pills of the statuses, no two alike.
pub proof fn the_pills_of_the_statuses(status: String)
    ensures
        status@ == "completed"@ ==> status_text(Some(status)) == (Tone::OnSuccess, " done "@),
        status@ == "started"@ ==> status_text(Some(status)) == (Tone::OnAccent, " live "@),
        status@ == "planned"@ ==> status_text(Some(status)) == (Tone::OnWarn, " plan "@),
{
    reveal_strlit("completed");
    reveal_strlit("started");
    reveal_strlit("planned");
    assert("completed"@.len() == 9 && "started"@.len() == 7 && "planned"@.len() == 7);
    assert("started"@[0] == 's' && "planned"@[0] == 'p');
}

/// What was read reaches the table as it came, and what failed reaches it in the words of
/// the failure.
pub proof fn a_read_reaches_the_table(
    reply: Result<(Vec<FoldedActivity>, u32, u32, u32), Fault>,
    sent: Action,
    pre: Activities,
    post: Activities,
    out: Outcome,
)
    requires
        call_ensures(listed, (reply,), sent),
        Activities::handled(pre, sent, post, out),
    ensures
        reply matches Ok((items, page, per_page, total)) ==> post.items == items && post.total
            == total && out.note is None,
        reply is Err ==> post.items == pre.items && out.note is Some && (out.note->0).0
            == Level::Error && holds((out.note->0).1@, reply->Err_0.shown@),
        !post.loading,
{
    if reply is Err {
        lemma_held_last(
            "activities load failed: "@,
            reply->Err_0.shown@,
            "activities load failed: "@ + reply->Err_0.shown@,
        );
    }
}

/// A fresh page keeps the cursor on its row where that row is there, and else puts it on the
/// last one.
pub proof fn a_load_keeps_the_row(
    pre: Activities,
    items: Vec<FoldedActivity>,
    page: u32,
    per_page: u32,
    total: u32,
    row: usize,
    post: Activities,
    out: Outcome,
)
    requires
        pre.query@.len() == 0,
        pre.cursor == Some(row),
        items@.len() <= usize::MAX,
        Activities::handled(
            pre,
            Action::ActivitiesLoaded { items, page, per_page, total },
            post,
            out,
        ),
    ensures
        row < items@.len() ==> post.cursor == Some(row),
        row >= items@.len() && items@.len() > 0 ==> post.cursor is Some && post.cursor->0
            == items@.len() - 1,
        items@.len() == 0 ==> post.cursor is None,
{
}

/// The title shows what narrows the table: the typed text while there is a search, else
/// the filter where it is not the first.
pub proof fn the_title_shows_what_narrows(s: Activities, title: String)
    requires
        s.filter_idx < FILTER_COUNT,
        call_ensures(Activities::panel_title, (&s,), title),
    ensures
        s.searching || s.query@.len() > 0 ==> title@ == "Activities · /"@ + s.query@ + "_"@,
        !s.searching && s.query@.len() == 0 && s.filter_idx == 0 ==> title@ == "Activities"@,
        !s.searching && s.query@.len() == 0 && s.filter_idx > 0 ==> title@ == "Activities · "@
            + filter_at(s.filter_idx as int).0@,
{
}

/// Rows are shown where there are any; what stands in their place tells a read under way
/// from a search without a match and from an empty table.
pub proof fn an_empty_table_says_why(s: Activities)
    ensures
        s.rows().len() > 0 ==> s.items@.len() > 0 ==> s.empty_text() is None,
        s.rows().len() == 0 && s.loading && s.items@.len() == 0 ==> s.empty_text() == Some(
            "loading…"@,
        ),
        s.rows().len() == 0 && !s.loading && s.query@.len() > 0 ==> s.empty_text() == Some(
            "No activities match that filter on this page."@,
        ),
        s.rows().len() == 0 && !s.loading && s.query@.len() == 0 ==> s.empty_text() == Some(
            "No activities here. Log one with `a`, or cycle filters with `f`."@,
        ),
{
}

/// Every field keeps its value but through the actions that are about it.
pub proof fn what_an_action_leaves_alone(
    pre: Activities,
    action: Action,
    post: Activities,
    out: Outcome,
)
    requires
        Activities::handled(pre, action, post, out),
    ensures
        post.items == pre.items || action is ActivitiesLoaded,
        post.cursor == pre.cursor || action is ActivitiesLoaded || action is ActivitiesMove
            || action is ActivitiesJumpStart || action is ActivitiesJumpEnd
            || action is ActivitiesPageNext || action is ActivitiesPagePrev
            || action is ActivitiesCycleFilter || action is ActivitiesSearchInput
            || action is ActivitiesSearchBackspace || action is ActivitiesSearchCancel,
        post.page == pre.page || action is ActivitiesLoaded || action is ActivitiesPageNext
            || action is ActivitiesPagePrev || action is ActivitiesCycleFilter,
        post.per_page == pre.per_page || action is ActivitiesLoaded,
        post.total == pre.total || action is ActivitiesLoaded,
        post.filter_idx == pre.filter_idx || action is ActivitiesCycleFilter,
        post.query == pre.query || action is ActivitiesPageNext || action is ActivitiesPagePrev
            || action is ActivitiesCycleFilter || action is ActivitiesSearchInput
            || action is ActivitiesSearchBackspace || action is ActivitiesSearchCancel,
        post.searching == pre.searching || action is ActivitiesPageNext
            || action is ActivitiesPagePrev || action is ActivitiesCycleFilter
            || action is ActivitiesSearchSubmit || action is ActivitiesSearchCancel,
        post.loading == pre.loading || action is ActivitiesLoaded || action is ActivitiesLoadFailed
            || action is ActivitiesPageNext || action is ActivitiesPagePrev
            || action is ActivitiesCycleFilter || action is RefreshActivities,
        post.detail == pre.detail || action is ActivitiesOpenDetail
            || action is ActivitiesDetailLoaded || action is ActivitiesCloseDetail,
{
}

/// Only these actions say something, and only these send something; a read under way is
/// marked until it is answered.
pub proof fn which_actions_are_heard(
    pre: Activities,
    action: Action,
    post: Activities,
    out: Outcome,
)
    requires
        Activities::handled(pre, action, post, out),
    ensures
        out.note is None || action is ActivitiesLoadFailed || action is ActivitiesComplete
            || action is ActivitiesArchive || action is ActivitiesDuplicate
            || action is ActivitiesStartTimer,
        out.effects@.len() == 0 || action is ActivitiesPageNext || action is ActivitiesPagePrev
            || action is ActivitiesCycleFilter || action is ActivitiesOpenDetail
            || action is ActivitiesComplete || action is ActivitiesArchive
            || action is ActivitiesDuplicate || action is ActivitiesStartTimer
            || action is RefreshActivities,
        out.effects@.len() <= 1,
        (action is ActivitiesCycleFilter || action is RefreshActivities) ==> post.loading,
        (action is ActivitiesLoaded || action is ActivitiesLoadFailed) ==> !post.loading,
{
}

/// A failed read is an error in the words that came with it, and a gesture on a row that
/// still waits in the queue is answered with a warning.
pub proof fn what_the_table_says(pre: Activities, action: Action, post: Activities, out: Outcome)
    requires
        Activities::handled(pre, action, post, out),
    ensures
        action matches Action::ActivitiesLoadFailed(msg) ==> out.note is Some && (out.note->0).0
            == Level::Error && (out.note->0).1@ == msg@,
        !(action is ActivitiesLoadFailed) && out.note is Some ==> (out.note->0).0
            == Level::Warning && (out.note->0).1@
            == "still queued — it syncs when the wire returns; resolve a stuck write in `engineer queue`"@
            && out.effects@.len() == 0,
{
}

/// The table starts on the first page of the first filter, with no search.
pub proof fn how_the_screen_starts(s: Activities)
    requires
        call_ensures(Activities::default, (), s),
    ensures
        s.items@.len() == 0,
        s.cursor == Some(0usize),
        s.page == 1,
        s.per_page == PER_PAGE,
        s.total == 0,
        s.filter_idx == 0,
        s.query@.len() == 0,
        !s.searching,
        !s.loading,
        s.detail is None,
{
}

} // verus!
