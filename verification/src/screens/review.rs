//! Review screen: spaced repetition over topics. One screen, three stages: the
//! dashboard, the sitting that rates the due queue topic by topic, and the
//! browse read over the whole catalogue.

use crate::action::{notice, notifies, one, two, Action, Effect, Outcome, Request};
use crate::cursor::{in_list, select_clamp, select_clamped, select_step, select_stepped};
use crate::dates::{stamp, stamp_text};
use crate::keys::{KeyCode, KeyEvent};
use crate::line::{no_lines, page, push_line, Footer, Line, Tone};
use crate::model::{Dashboard, Fault, Forecasts, RateResult, ReviewStats, Topic};
use crate::notify::Level;
use crate::paging::{lemma_pages, page_count, page_status, page_status_line, pages};
use crate::text::{
    cat2, cat3, decimal, fitted, join, joined, no_texts, or_empty, own, pad_or_truncate, plural,
    plural_of, push_text, show, show_signed, signed_decimal, text_or_empty, texts,
};
use vstd::prelude::*;

verus! {

/// The four spaced-repetition ratings, each a single keystroke: a letter of its
/// own word, clear of the global refresh key.
#[derive(Debug, Clone, Copy, PartialEq, Eq, Structural)]
pub enum Rating {
    Forgot,
    Fuzzy,
    Solid,
    Instant,
}

impl Rating {
    /// The wire value of the rating, which is its label too.
    pub open spec fn text(self) -> Seq<char> {
        match self {
            Rating::Forgot => "forgot"@,
            Rating::Fuzzy => "fuzzy"@,
            Rating::Solid => "solid"@,
            Rating::Instant => "instant"@,
        }
    }

    /// The keystroke that selects the rating.
    pub open spec fn letter(self) -> char {
        match self {
            Rating::Forgot => 'f',
            Rating::Fuzzy => 'z',
            Rating::Solid => 's',
            Rating::Instant => 'i',
        }
    }

    /// The rating that a keystroke selects.
    pub open spec fn of(c: char) -> Option<Rating> {
        if c == 'f' {
            Some(Rating::Forgot)
        } else if c == 'z' {
            Some(Rating::Fuzzy)
        } else if c == 's' {
            Some(Rating::Solid)
        } else if c == 'i' {
            Some(Rating::Instant)
        } else {
            None
        }
    }

    /// The wire value the rate endpoint expects, which is the display label too.
    pub fn as_str(self) -> (res: &'static str)
        ensures
            res@ == self.text(),
    {
        match self {
            Rating::Forgot => "forgot",
            Rating::Fuzzy => "fuzzy",
            Rating::Solid => "solid",
            Rating::Instant => "instant",
        }
    }

    /// The keystroke that selects the rating.
    pub fn key(self) -> (res: char)
        ensures
            res == self.letter(),
    {
        match self {
            Rating::Forgot => 'f',
            Rating::Fuzzy => 'z',
            Rating::Solid => 's',
            Rating::Instant => 'i',
        }
    }

    /// Map a rating keystroke to its rating.
    pub fn from_char(c: char) -> (res: Option<Rating>)
        ensures
            res == Self::of(c),
    {
        match c {
            'f' => Some(Rating::Forgot),
            'z' => Some(Rating::Fuzzy),
            's' => Some(Rating::Solid),
            'i' => Some(Rating::Instant),
            _ => None,
        }
    }
}

/// Every rating is the one its own keystroke selects, and no two share one.
pub proof fn ratings_and_keys_agree(a: Rating, b: Rating, c: char)
    ensures
        Rating::of(a.letter()) == Some(a),
        a.letter() == b.letter() ==> a == b,
        Rating::of(c) == Some(a) ==> c == a.letter(),
{
}

/// Which face the screen shows.
#[derive(Debug, Clone, Copy, PartialEq, Eq, Structural)]
pub enum Stage {
    Dashboard,
    Sitting,
    Browse,
}

/// How many sort orders the ring holds.
pub const SORT_COUNT: usize = 6;

/// Fallback page size where the server names none.
pub const PER_PAGE: u32 = 25;

/// The browse sort ring: the wire value and the label. Urgency comes first, so
/// that it opens in the order of the due queue.
pub open spec fn sort_at(i: int) -> (&'static str, &'static str) {
    if i == 0 {
        ("urgency", "urgency")
    } else if i == 1 {
        ("recent", "recent")
    } else if i == 2 {
        ("most_reviewed", "most reviewed")
    } else if i == 3 {
        ("least_reviewed", "least reviewed")
    } else if i == 4 {
        ("longest_interval", "longest interval")
    } else {
        ("az", "a–z")
    }
}

/// One sort order of the ring.
pub fn sort(i: usize) -> (res: (&'static str, &'static str))
    ensures
        res == sort_at(i as int),
{
    if i == 0 {
        ("urgency", "urgency")
    } else if i == 1 {
        ("recent", "recent")
    } else if i == 2 {
        ("most_reviewed", "most reviewed")
    } else if i == 3 {
        ("least_reviewed", "least reviewed")
    } else if i == 4 {
        ("longest_interval", "longest interval")
    } else {
        ("az", "a–z")
    }
}

/// The review screen.
#[derive(Debug)]
pub struct Review {
    pub stage: Stage,
    pub dashboard: Option<Dashboard>,
    pub loading: bool,
    pub error: Option<String>,
    /// The topic being rated; none once the queue has drained.
    pub current: Option<Topic>,
    pub rated: u32,
    pub done: bool,
    /// A rating is on its way, so that one topic is not rated twice.
    pub rating_in_flight: bool,
    pub topics: Vec<Topic>,
    pub cursor: Option<usize>,
    pub page: u32,
    pub per_page: u32,
    pub total: u32,
    pub sort_idx: usize,
    pub query: String,
    pub searching: bool,
    pub browse_loading: bool,
    /// The topic that the detail read shows, while it is open.
    pub detail: Option<Topic>,
}

impl Default for Review {
    fn default() -> (res: Self)
        ensures
            res.fresh(),
    {
        Review {
            stage: Stage::Dashboard,
            dashboard: None,
            loading: false,
            error: None,
            current: None,
            rated: 0,
            done: false,
            rating_in_flight: false,
            topics: Vec::new(),
            cursor: Some(0),
            page: 1,
            per_page: PER_PAGE,
            total: 0,
            sort_idx: 0,
            query: String::new(),
            searching: false,
            browse_loading: false,
            detail: None,
        }
    }
}

impl Review {
    /// A screen that has loaded nothing.
    pub open spec fn fresh(self) -> bool {
        &&& self.stage == Stage::Dashboard
        &&& self.dashboard is None
        &&& !self.loading
        &&& self.error is None
        &&& self.current is None
        &&& self.rated == 0
        &&& !self.done
        &&& !self.rating_in_flight
        &&& self.topics@ == Seq::<Topic>::empty()
        &&& self.cursor == Some(0usize)
        &&& self.page == 1
        &&& self.per_page == PER_PAGE
        &&& self.total == 0
        &&& self.sort_idx == 0
        &&& self.query@ == Seq::<char>::empty()
        &&& !self.searching
        &&& !self.browse_loading
        &&& self.detail is None
    }

    /// The ring stands on one of its orders.
    pub open spec fn wf(self) -> bool {
        self.sort_idx < SORT_COUNT
    }

    /// Which face the screen shows.
    pub fn stage(&self) -> (res: Stage)
        ensures
            res == self.stage,
    {
        self.stage
    }

    /// Whether an effect is the read of the page, order and query at hand.
    pub open spec fn fetches_page(self, e: Effect) -> bool {
        e matches Effect::Call(Request::ListTopics { sort, query, page }) && {
            &&& sort == sort_at(self.sort_idx as int).0
            &&& page == self.page
            &&& query is None <==> self.query@.len() == 0
            &&& query is Some ==> query->0 == self.query
        }
    }

    /// Nothing to say, and the browse read of `post` to make.
    pub open spec fn rereads(out: Outcome, post: Self) -> bool {
        &&& out.note is None
        &&& out.effects@.len() == 1
        &&& post.fetches_page(out.effects@[0])
    }

    /// The topic under the browse cursor.
    pub open spec fn chosen(self) -> Option<Topic> {
        match self.cursor {
            Some(i) => if i < self.topics@.len() {
                Some(self.topics@[i as int])
            } else {
                None
            },
            None => None,
        }
    }

    /// The topic that a rating would go to.
    pub open spec fn subject(self) -> Option<i64> {
        match self.stage {
            Stage::Sitting => match self.current {
                Some(t) => Some(t.subdomain_id),
                None => None,
            },
            Stage::Browse => match self.detail {
                Some(t) => Some(t.subdomain_id),
                None => None,
            },
            Stage::Dashboard => None,
        }
    }

    /// A browse page newly turned to: the prompt closed, the cursor at the top,
    /// the read under way.
    pub open spec fn entered(pre: Self, page: int, sort_idx: int, post: Self, out: Outcome) -> bool {
        &&& post == Review {
            page: page as u32,
            sort_idx: sort_idx as usize,
            searching: false,
            cursor: Some(0usize),
            browse_loading: true,
            ..pre
        }
        &&& Self::rereads(out, post)
    }

    /// How the screen answers an action.
    pub open spec fn handled(pre: Self, action: Action, post: Self, out: Outcome) -> bool {
        match action {
            Action::ReviewDashboardLoaded(d) => {
                &&& post == Review { dashboard: Some(*d), loading: false, error: None, ..pre }
                &&& out.quiet()
            },
            Action::ReviewLoadFailed(e) => {
                &&& post == Review {
                    loading: false,
                    browse_loading: false,
                    error: Some(e),
                    ..pre
                }
                &&& out.says(Level::Error, e@)
            },
            Action::RefreshReview => {
                &&& post == Review { loading: true, ..pre }
                &&& out.asks(seq![Effect::Call(Request::LoadDashboard)])
            },
            Action::ReviewOpenDashboard => {
                &&& post == Review { stage: Stage::Dashboard, loading: true, ..pre }
                &&& out.asks(seq![Effect::Call(Request::LoadDashboard)])
            },
            Action::ReviewOpenBrowse => {
                &&& post == Review {
                    stage: Stage::Browse,
                    detail: None,
                    searching: false,
                    query: post.query,
                    page: 1,
                    cursor: Some(0usize),
                    browse_loading: true,
                    ..pre
                }
                &&& post.query@ == Seq::<char>::empty()
                &&& Self::rereads(out, post)
            },
            Action::ReviewStartSitting => if pre.dashboard is Some
                && pre.dashboard->0.queue@.len() > 0 {
                &&& post == Review {
                    stage: Stage::Sitting,
                    current: post.current,
                    rated: 0,
                    done: false,
                    rating_in_flight: false,
                    ..pre
                }
                &&& post.current is Some
                &&& post.current->0.alike(pre.dashboard->0.queue@[0])
                &&& out.quiet()
            } else {
                &&& post == pre
                &&& out.says(Level::Info, "nothing due — you're all caught up"@)
            },
            Action::ReviewExitSitting => {
                &&& post == Review {
                    stage: Stage::Dashboard,
                    current: None,
                    done: false,
                    rating_in_flight: false,
                    loading: true,
                    ..pre
                }
                &&& out.asks(seq![Effect::Call(Request::LoadDashboard)])
            },
            Action::ReviewRate(rating) => if !pre.rating_in_flight && pre.subject() is Some {
                &&& post == Review { rating_in_flight: true, ..pre }
                &&& out.asks(
                    seq![Effect::Call(Request::RateTopic { id: pre.subject()->0, rating })],
                )
            } else {
                post == pre && out.quiet()
            },
            Action::ReviewRated(res) => match pre.stage {
                Stage::Sitting => {
                    &&& post == Review {
                        rating_in_flight: false,
                        rated: if pre.rated < u32::MAX {
                            (pre.rated + 1) as u32
                        } else {
                            pre.rated
                        },
                        current: res.next_topic,
                        done: pre.done || res.next_topic is None,
                        ..pre
                    }
                    &&& out.quiet()
                },
                Stage::Browse => {
                    &&& post == Review {
                        rating_in_flight: false,
                        detail: None,
                        browse_loading: true,
                        ..pre
                    }
                    &&& out.noted(Level::Success, "rated"@)
                    &&& out.effects@.len() == 1
                    &&& post.fetches_page(out.effects@[0])
                },
                Stage::Dashboard => {
                    &&& post == Review { rating_in_flight: false, ..pre }
                    &&& out.quiet()
                },
            },
            Action::ReviewRateFailed => {
                &&& post == Review { rating_in_flight: false, ..pre }
                &&& out.quiet()
            },
            Action::ReviewBrowseLoaded { items, page, per_page, total } => {
                &&& post == Review {
                    topics: items,
                    browse_loading: false,
                    page: if page > 0 {
                        page
                    } else {
                        pre.page
                    },
                    per_page: if per_page > 0 {
                        per_page
                    } else {
                        pre.per_page
                    },
                    total,
                    cursor: select_clamped(pre.cursor, items@.len() as int),
                    ..pre
                }
                &&& out.quiet()
            },
            Action::ReviewBrowseMove(d) => {
                &&& post == Review {
                    cursor: select_stepped(pre.cursor, d as int, pre.topics@.len() as int),
                    ..pre
                }
                &&& out.quiet()
            },
            Action::ReviewBrowseJumpStart => {
                &&& post == Review {
                    cursor: if pre.topics@.len() > 0 {
                        Some(0usize)
                    } else {
                        None
                    },
                    ..pre
                }
                &&& out.quiet()
            },
            Action::ReviewBrowseJumpEnd => {
                &&& post == Review {
                    cursor: if pre.topics@.len() > 0 {
                        Some((pre.topics@.len() - 1) as usize)
                    } else {
                        pre.cursor
                    },
                    ..pre
                }
                &&& out.quiet()
            },
            Action::ReviewBrowsePageNext => if pre.page < pages(pre.total, pre.per_page) {
                Self::entered(pre, pre.page + 1, pre.sort_idx as int, post, out)
            } else {
                post == pre && out.quiet()
            },
            Action::ReviewBrowsePagePrev => if pre.page > 1 {
                Self::entered(pre, pre.page - 1, pre.sort_idx as int, post, out)
            } else {
                post == pre && out.quiet()
            },
            Action::ReviewBrowseCycleSort => Self::entered(
                pre,
                1,
                (pre.sort_idx + 1) % (SORT_COUNT as int),
                post,
                out,
            ),
            Action::ReviewBrowseSearchInput(c) => {
                &&& post == Review { query: post.query, ..pre }
                &&& post.query@ == pre.query@.push(c)
                &&& out.quiet()
            },
            Action::ReviewBrowseSearchBackspace => {
                &&& post == Review { query: post.query, ..pre }
                &&& post.query@ == (if pre.query@.len() > 0 {
                    pre.query@.drop_last()
                } else {
                    pre.query@
                })
                &&& out.quiet()
            },
            Action::ReviewBrowseSearchSubmit => Self::entered(
                pre,
                1,
                pre.sort_idx as int,
                post,
                out,
            ),
            Action::ReviewBrowseSearchCancel => if pre.query@.len() > 0 {
                &&& post == Review {
                    searching: false,
                    query: post.query,
                    page: 1,
                    cursor: Some(0usize),
                    browse_loading: true,
                    ..pre
                }
                &&& post.query@ == Seq::<char>::empty()
                &&& Self::rereads(out, post)
            } else {
                &&& post == Review { searching: false, query: post.query, ..pre }
                &&& post.query@ == Seq::<char>::empty()
                &&& out.quiet()
            },
            Action::ReviewBrowseOpenDetail => match pre.chosen() {
                None => post == pre && out.quiet(),
                Some(t) => {
                    &&& post == Review { detail: post.detail, ..pre }
                    &&& post.detail is Some
                    &&& post.detail->0.alike(t)
                    &&& out.asks(seq![Effect::Call(Request::GetTopic(t.subdomain_id))])
                },
            },
            Action::ReviewBrowseDetailLoaded(t) => {
                &&& post == Review {
                    detail: if pre.detail is Some {
                        Some(*t)
                    } else {
                        None
                    },
                    ..pre
                }
                &&& out.quiet()
            },
            Action::ReviewBrowseCloseDetail => {
                &&& post == Review { detail: None, ..pre }
                &&& out.quiet()
            },
            _ => post == pre && out.quiet(),
        }
    }

    /// Entering the screen reads the dashboard.
    pub fn on_enter(&mut self) -> (out: Vec<Effect>)
        ensures
            *final(self) == (Review { loading: true, ..*old(self) }),
            out@ == seq![Effect::Call(Request::LoadDashboard)],
    {
        self.loading = true;
        let mut out: Vec<Effect> = Vec::new();
        out.push(Effect::Call(Request::LoadDashboard));
        assert(out@ =~= seq![Effect::Call(Request::LoadDashboard)]);
        out
    }

    fn fetch_browse(&self) -> (res: Effect)
        ensures
            self.fetches_page(res),
    {
        let query = if self.query.as_str().is_empty() {
            None
        } else {
            Some(self.query.clone())
        };
        let (wire, _) = sort(self.sort_idx);
        Effect::Call(Request::ListTopics { sort: wire, query, page: self.page })
    }

    fn enter_browse_page(&mut self) -> (out: Outcome)
        ensures
            Self::entered(
                *old(self),
                old(self).page as int,
                old(self).sort_idx as int,
                *final(self),
                out,
            ),
    {
        self.searching = false;
        self.cursor = Some(0);
        self.browse_loading = true;
        Outcome::ask(self.fetch_browse())
    }

    /// Total pages implied by the pagination at hand; one where there is none.
    pub fn total_pages(&self) -> (res: u32)
        ensures
            res == pages(self.total, self.per_page),
    {
        page_count(self.total, self.per_page)
    }

    fn selected_topic(&self) -> (res: Option<Topic>)
        ensures
            res is Some <==> self.chosen() is Some,
            res matches Some(t) ==> t.alike(self.chosen()->0),
    {
        match self.cursor {
            Some(i) => if i < self.topics.len() {
                Some(self.topics[i].clone())
            } else {
                None
            },
            None => None,
        }
    }

    fn queue_head(&self) -> (res: Option<Topic>)
        ensures
            res is Some <==> (self.dashboard is Some && self.dashboard->0.queue@.len() > 0),
            res matches Some(t) ==> t.alike(self.dashboard->0.queue@[0]),
    {
        match &self.dashboard {
            Some(d) => if d.queue.len() > 0 {
                Some(d.queue[0].clone())
            } else {
                None
            },
            None => None,
        }
    }

    fn rate_subject(&self) -> (res: Option<i64>)
        ensures
            res == self.subject(),
    {
        match self.stage {
            Stage::Sitting => match &self.current {
                Some(t) => Some(t.subdomain_id),
                None => None,
            },
            Stage::Browse => match &self.detail {
                Some(t) => Some(t.subdomain_id),
                None => None,
            },
            Stage::Dashboard => None,
        }
    }

    /// How the screen answers an action.
    #[verifier::rlimit(60)]
    #[verifier::spinoff_prover]
    pub fn handle(&mut self, action: Action) -> (out: Outcome)
        requires
            old(self).wf(),
        ensures
            final(self).wf(),
            Self::handled(*old(self), action, *final(self), out),
    {
        match action {
            Action::ReviewDashboardLoaded(d) => {
                self.dashboard = Some(*d);
                self.loading = false;
                self.error = None;
            },
            Action::ReviewLoadFailed(e) => {
                self.loading = false;
                self.browse_loading = false;
                self.error = Some(e.clone());
                return Outcome::say(Level::Error, e);
            },
            Action::RefreshReview => {
                self.loading = true;
                return Outcome::call(Request::LoadDashboard);
            },
            Action::ReviewOpenDashboard => {
                self.stage = Stage::Dashboard;
                self.loading = true;
                return Outcome::call(Request::LoadDashboard);
            },
            Action::ReviewOpenBrowse => {
                self.stage = Stage::Browse;
                self.detail = None;
                self.searching = false;
                self.query.clear();
                self.page = 1;
                self.cursor = Some(0);
                self.browse_loading = true;
                return Outcome::ask(self.fetch_browse());
            },
            Action::ReviewStartSitting => {
                match self.queue_head() {
                    Some(topic) => {
                        self.stage = Stage::Sitting;
                        self.current = Some(topic);
                        self.rated = 0;
                        self.done = false;
                        self.rating_in_flight = false;
                    },
                    None => {
                        return Outcome::say(Level::Info, own("nothing due — you're all caught up"));
                    },
                }
            },
            Action::ReviewExitSitting => {
                self.stage = Stage::Dashboard;
                self.current = None;
                self.done = false;
                self.rating_in_flight = false;
                self.loading = true;
                return Outcome::call(Request::LoadDashboard);
            },
            Action::ReviewRate(rating) => {
                if self.rating_in_flight {
                    return Outcome::none();
                }
                if let Some(id) = self.rate_subject() {
                    self.rating_in_flight = true;
                    return Outcome::call(Request::RateTopic { id, rating });
                }
            },
            Action::ReviewRated(res) => {
                self.rating_in_flight = false;
                match self.stage {
                    Stage::Sitting => {
                        if self.rated < u32::MAX {
                            self.rated = self.rated + 1;
                        }
                        let answer = *res;
                        if answer.next_topic.is_none() {
                            self.done = true;
                        }
                        self.current = answer.next_topic;
                    },
                    Stage::Browse => {
                        self.detail = None;
                        self.browse_loading = true;
                        let mut out = Outcome::ask(self.fetch_browse());
                        out.note = Some((Level::Success, own("rated")));
                        return out;
                    },
                    Stage::Dashboard => {},
                }
            },
            Action::ReviewRateFailed => self.rating_in_flight = false,
            Action::ReviewBrowseLoaded { items, page, per_page, total } => {
                self.topics = items;
                self.browse_loading = false;
                if page > 0 {
                    self.page = page;
                }
                if per_page > 0 {
                    self.per_page = per_page;
                }
                self.total = total;
                self.cursor = select_clamp(self.cursor, self.topics.len());
            },
            Action::ReviewBrowseMove(d) => {
                self.cursor = select_step(self.cursor, d, self.topics.len());
            },
            Action::ReviewBrowseJumpStart => {
                self.cursor = if self.topics.len() > 0 {
                    Some(0)
                } else {
                    None
                };
            },
            Action::ReviewBrowseJumpEnd => {
                if self.topics.len() > 0 {
                    self.cursor = Some(self.topics.len() - 1);
                }
            },
            Action::ReviewBrowsePageNext => {
                if self.page < self.total_pages() {
                    self.page = self.page + 1;
                    return self.enter_browse_page();
                }
            },
            Action::ReviewBrowsePagePrev => {
                if self.page > 1 {
                    self.page = self.page - 1;
                    return self.enter_browse_page();
                }
            },
            Action::ReviewBrowseCycleSort => {
                self.sort_idx = (self.sort_idx + 1) % SORT_COUNT;
                self.page = 1;
                return self.enter_browse_page();
            },
            Action::ReviewBrowseSearchInput(c) => self.query.push(c),
            Action::ReviewBrowseSearchBackspace => {
                let _ = self.query.pop();
            },
            Action::ReviewBrowseSearchSubmit => {
                self.page = 1;
                return self.enter_browse_page();
            },
            Action::ReviewBrowseSearchCancel => {
                self.searching = false;
                let had_query = !self.query.as_str().is_empty();
                self.query.clear();
                if had_query {
                    self.page = 1;
                    self.cursor = Some(0);
                    self.browse_loading = true;
                    return Outcome::ask(self.fetch_browse());
                }
            },
            Action::ReviewBrowseOpenDetail => {
                if let Some(t) = self.selected_topic() {
                    let id: i64 = t.subdomain_id;
                    self.detail = Some(t);
                    return Outcome::call(Request::GetTopic(id));
                }
            },
            Action::ReviewBrowseDetailLoaded(t) => {
                if self.detail.is_some() {
                    self.detail = Some(*t);
                }
            },
            Action::ReviewBrowseCloseDetail => self.detail = None,
            _ => {},
        }
        Outcome::none()
    }

    /// The action that a rating keystroke dispatches.
    pub open spec fn rate_action(c: char) -> Option<Action> {
        match Rating::of(c) {
            Some(r) => Some(Action::ReviewRate(r)),
            None => None,
        }
    }

    /// How the rating contexts and the search prompt take a key.
    pub open spec fn intercepted(
        pre: Self,
        key: KeyEvent,
        post: Self,
        res: Option<Action>,
    ) -> bool {
        match pre.stage {
            Stage::Dashboard => post == pre && res is None,
            Stage::Sitting => {
                &&& post == pre
                &&& res == (if pre.done {
                    match key.code {
                        KeyCode::Enter | KeyCode::Esc | KeyCode::Char('h') => Some(
                            Action::ReviewExitSitting,
                        ),
                        _ => None,
                    }
                } else {
                    match key.code {
                        KeyCode::Esc => Some(Action::ReviewExitSitting),
                        KeyCode::Char(c) => Self::rate_action(c),
                        _ => None,
                    }
                })
            },
            Stage::Browse => if pre.detail is Some {
                &&& post == pre
                &&& res == (match key.code {
                    KeyCode::Esc | KeyCode::Enter | KeyCode::Char('h') => Some(
                        Action::ReviewBrowseCloseDetail,
                    ),
                    KeyCode::Char(c) => Self::rate_action(c),
                    _ => None,
                })
            } else if pre.searching {
                &&& post == pre
                &&& res == (match key.code {
                    KeyCode::Esc => Some(Action::ReviewBrowseSearchCancel),
                    KeyCode::Enter => Some(Action::ReviewBrowseSearchSubmit),
                    KeyCode::Backspace => Some(Action::ReviewBrowseSearchBackspace),
                    KeyCode::Char(c) => Some(Action::ReviewBrowseSearchInput(c)),
                    _ => None,
                })
            } else if key.code == KeyCode::Char('/') {
                &&& post == Review { searching: true, query: post.query, ..pre }
                &&& post.query@ == Seq::<char>::empty()
                &&& res is Some
                &&& notifies(
                    res->0,
                    Level::Info,
                    "search topics · Enter to run · Esc clears"@,
                )
            } else {
                post == pre && res is None
            },
        }
    }

    fn rate_key(c: char) -> (res: Option<Action>)
        ensures
            res == Self::rate_action(c),
    {
        match Rating::from_char(c) {
            Some(r) => Some(Action::ReviewRate(r)),
            None => None,
        }
    }

    /// The rating contexts (the sitting, the browse detail) and the browse
    /// search prompt own keys before the global keymap.
    pub fn intercept_key(&mut self, key: KeyEvent) -> (res: Option<Action>)
        ensures
            Self::intercepted(*old(self), key, *final(self), res),
            final(self).sort_idx == old(self).sort_idx,
    {
        match self.stage {
            Stage::Sitting => {
                if self.done {
                    return match key.code {
                        KeyCode::Enter | KeyCode::Esc | KeyCode::Char('h') => Some(
                            Action::ReviewExitSitting,
                        ),
                        _ => None,
                    };
                }
                match key.code {
                    KeyCode::Esc => Some(Action::ReviewExitSitting),
                    KeyCode::Char(c) => Self::rate_key(c),
                    _ => None,
                }
            },
            Stage::Browse => {
                if self.detail.is_some() {
                    return match key.code {
                        KeyCode::Esc | KeyCode::Enter | KeyCode::Char('h') => Some(
                            Action::ReviewBrowseCloseDetail,
                        ),
                        KeyCode::Char(c) => Self::rate_key(c),
                        _ => None,
                    };
                }
                if self.searching {
                    return match key.code {
                        KeyCode::Esc => Some(Action::ReviewBrowseSearchCancel),
                        KeyCode::Enter => Some(Action::ReviewBrowseSearchSubmit),
                        KeyCode::Backspace => Some(Action::ReviewBrowseSearchBackspace),
                        KeyCode::Char(c) => Some(Action::ReviewBrowseSearchInput(c)),
                        _ => None,
                    };
                }
                if let KeyCode::Char('/') = key.code {
                    self.searching = true;
                    self.query.clear();
                    return Some(
                        notice(Level::Info, own("search topics · Enter to run · Esc clears")),
                    );
                }
                None
            },
            Stage::Dashboard => None,
        }
    }

    // ---- what the panels say ----

    /// The browse panel's title.
    pub open spec fn browse_title_text(self) -> Seq<char> {
        let head = "Review · browse · "@ + sort_at(self.sort_idx as int).1@;
        if self.searching || self.query@.len() > 0 {
            head + " · /"@ + self.query@ + "_"@
        } else {
            head
        }
    }

    /// The browse panel's title.
    pub fn browse_title(&self) -> (res: String)
        ensures
            res@ == self.browse_title_text(),
    {
        let (_, label) = sort(self.sort_idx);
        let head = cat2("Review · browse · ", label);
        if self.searching || !self.query.as_str().is_empty() {
            crate::text::cat4(head.as_str(), " · /", self.query.as_str(), "_")
        } else {
            head
        }
    }

    /// The browse panel's bottom line.
    pub fn browse_status(&self) -> (res: String)
        ensures
            res@ == page_status(
                self.page,
                self.per_page,
                self.total,
                self.topics@.len(),
                self.browse_loading,
            ),
    {
        page_status_line(
            self.page,
            self.per_page,
            self.total,
            self.topics.len(),
            self.browse_loading,
        )
    }

    /// What stands in place of the browse rows, where there are none.
    pub open spec fn browse_empty_text(self) -> Option<&'static str> {
        if self.topics@.len() > 0 {
            None
        } else if self.browse_loading {
            Some("loading…")
        } else if self.query@.len() > 0 {
            Some("No topics match that search.")
        } else {
            Some("No topics.")
        }
    }

    /// What stands in place of the browse rows, where there are none.
    pub fn browse_empty(&self) -> (res: Option<&'static str>)
        ensures
            res == self.browse_empty_text(),
    {
        if self.topics.len() > 0 {
            None
        } else if self.browse_loading {
            Some("loading…")
        } else if !self.query.as_str().is_empty() {
            Some("No topics match that search.")
        } else {
            Some("No topics.")
        }
    }

    /// The dashboard's lines: the due count, the cadence and the queue, or why
    /// there are none yet.
    pub open spec fn dashboard_page(self) -> Seq<Seq<(Tone, Seq<char>)>> {
        match self.dashboard {
            None => match self.error {
                Some(e) => seq![seq![(Tone::Danger, "could not load review: "@ + e@)]],
                None => seq![seq![(Tone::Plain, "loading…"@)]],
            },
            Some(d) => {
                let due = d.queue@.len() as int;
                (if due == 0 {
                    seq![seq![(Tone::Success, "Nothing due — you're all caught up ✓"@)]]
                } else {
                    seq![
                        seq![
                            (Tone::Header, decimal(due as nat) + " topic"@ + plural(due) + " due"@),
                            (
                                Tone::Muted,
                                "  ·  ~"@ + decimal(
                                    if d.est_minutes < 0 {
                                        0
                                    } else {
                                        d.est_minutes as nat
                                    },
                                ) + " min"@,
                            ),
                        ],
                        seq![(Tone::Muted, "press ↵ to start the sitting"@)],
                    ]
                }) + seq![
                    seq![(Tone::Plain, ""@)],
                    seq![(Tone::Muted, joined(stats_parts(d.stats), "  ·  "@))],
                    seq![(Tone::Plain, ""@)],
                ] + (if due > 0 {
                    seq![seq![(Tone::Header, "QUEUE · urgency order"@)]] + queue_page(
                        d.queue@,
                        name_width(d.queue@),
                    )
                } else {
                    Seq::empty()
                })
            },
        }
    }

    /// The dashboard's lines.
    pub fn dashboard_lines(&self) -> (res: Vec<Line>)
        ensures
            page(res@) == self.dashboard_page(),
    {
        let mut lines = no_lines();
        let d = match &self.dashboard {
            Some(d) => d,
            None => {
                match &self.error {
                    Some(e) => push_line(
                        &mut lines,
                        Line::of(Tone::Danger, cat2("could not load review: ", e.as_str())),
                    ),
                    None => push_line(&mut lines, Line::of(Tone::Plain, own("loading…"))),
                }
                assert(page(lines@) =~~= self.dashboard_page());
                return lines;
            },
        };
        let due: usize = d.queue.len();
        if due == 0 {
            push_line(
                &mut lines,
                Line::of(Tone::Success, own("Nothing due — you're all caught up ✓")),
            );
        } else {
            let est: u64 = if d.est_minutes < 0 {
                0
            } else {
                d.est_minutes as u64
            };
            let head = crate::text::cat4(
                show(due as u64).as_str(),
                " topic",
                plural_of(due == 1).as_str(),
                " due",
            );
            push_line(
                &mut lines,
                Line::of(Tone::Header, head).with(
                    Tone::Muted,
                    cat3("  ·  ~", show(est).as_str(), " min"),
                ),
            );
            push_line(&mut lines, Line::of(Tone::Muted, own("press ↵ to start the sitting")));
        }
        push_line(&mut lines, Line::of(Tone::Plain, own("")));
        push_line(&mut lines, stats_line(d));
        push_line(&mut lines, Line::of(Tone::Plain, own("")));
        if due > 0 {
            push_line(&mut lines, Line::of(Tone::Header, own("QUEUE · urgency order")));
            push_queue(&mut lines, &d.queue, widest_name(&d.queue));
        }
        assert(page(lines@) =~~= self.dashboard_page());
        lines
    }

    /// The sitting's lines: the topic with what is known of it and the four
    /// ratings, or the closing count.
    pub open spec fn sitting_page(self) -> Seq<Seq<(Tone, Seq<char>)>> {
        if self.done {
            seq![
                seq![(Tone::SuccessBold, "Sitting complete ✓"@)],
                seq![(Tone::Plain, ""@)],
                seq![
                    (
                        Tone::Muted,
                        "You rated "@ + decimal(self.rated as nat) + " topic"@ + plural(
                            self.rated as int,
                        ) + "."@,
                    ),
                ],
                seq![(Tone::Plain, ""@)],
                seq![(Tone::Muted, "press ↵ or Esc to return"@)],
            ]
        } else {
            match self.current {
                None => seq![seq![(Tone::Plain, "loading…"@)]],
                Some(t) => topic_page(t) + seq![
                    seq![(Tone::Plain, ""@)],
                    seq![(Tone::Bold, "How well did you remember?"@)],
                    rating_spans(t.forecasts),
                    seq![(Tone::Plain, ""@)],
                    seq![(Tone::Muted, decimal(self.rated as nat) + " rated this sitting"@)],
                ],
            }
        }
    }

    /// The sitting's lines.
    pub fn sitting_lines(&self) -> (res: Vec<Line>)
        ensures
            page(res@) == self.sitting_page(),
    {
        if self.done {
            let mut lines = no_lines();
            push_line(&mut lines, Line::of(Tone::SuccessBold, own("Sitting complete ✓")));
            push_line(&mut lines, Line::of(Tone::Plain, own("")));
            push_line(
                &mut lines,
                Line::of(
                    Tone::Muted,
                    crate::text::cat5(
                        "You rated ",
                        show(self.rated as u64).as_str(),
                        " topic",
                        plural_of(self.rated == 1).as_str(),
                        ".",
                    ),
                ),
            );
            push_line(&mut lines, Line::of(Tone::Plain, own("")));
            push_line(&mut lines, Line::of(Tone::Muted, own("press ↵ or Esc to return")));
            assert(page(lines@) =~~= self.sitting_page());
            return lines;
        }
        match &self.current {
            None => {
                let mut lines = no_lines();
                push_line(&mut lines, Line::of(Tone::Plain, own("loading…")));
                assert(page(lines@) =~~= self.sitting_page());
                lines
            },
            Some(t) => {
                let mut lines = topic_lines(t);
                push_line(&mut lines, Line::of(Tone::Plain, own("")));
                push_line(&mut lines, Line::of(Tone::Bold, own("How well did you remember?")));
                push_line(&mut lines, rating_hints_line(t));
                push_line(&mut lines, Line::of(Tone::Plain, own("")));
                push_line(
                    &mut lines,
                    Line::of(
                        Tone::Muted,
                        cat2(show(self.rated as u64).as_str(), " rated this sitting"),
                    ),
                );
                assert(page(lines@) =~~= self.sitting_page());
                lines
            },
        }
    }

    /// What the footer offers.
    pub open spec fn offered(self, f: Footer) -> bool {
        match self.stage {
            Stage::Dashboard => f.offers(
                seq![("↵/s", "start"), ("b", "browse"), ("r", "refresh"), ("h", "home")],
            ),
            Stage::Sitting => if self.done {
                f.offers(seq![("↵/Esc", "done")])
            } else {
                f.offers(
                    seq![
                        ("f", "forgot"),
                        ("z", "fuzzy"),
                        ("s", "solid"),
                        ("i", "instant"),
                        ("Esc", "exit"),
                    ],
                )
            },
            Stage::Browse => if self.detail is Some {
                f.offers(seq![("f/z/s/i", "rate"), ("↵/Esc", "close")])
            } else if self.searching {
                f.reads(Tone::Muted, "type to search topics · Enter to run · Esc to clear"@)
            } else {
                f.offers(
                    seq![
                        ("j/k", "move"),
                        ("↵", "detail"),
                        ("s", "sort"),
                        ("[ ]", "page"),
                        ("/", "find"),
                        ("h", "back"),
                    ],
                )
            },
        }
    }

    /// What the footer offers.
    pub fn hints(&self) -> (res: Footer)
        ensures
            self.offered(res),
    {
        match self.stage {
            Stage::Dashboard => Footer::Keys(
                vec![("↵/s", "start"), ("b", "browse"), ("r", "refresh"), ("h", "home")],
            ),
            Stage::Sitting => if self.done {
                Footer::Keys(vec![("↵/Esc", "done")])
            } else {
                Footer::Keys(
                    vec![
                        ("f", "forgot"),
                        ("z", "fuzzy"),
                        ("s", "solid"),
                        ("i", "instant"),
                        ("Esc", "exit"),
                    ],
                )
            },
            Stage::Browse => if self.detail.is_some() {
                Footer::Keys(vec![("f/z/s/i", "rate"), ("↵/Esc", "close")])
            } else if self.searching {
                Footer::Text(
                    Line::of(
                        Tone::Muted,
                        own("type to search topics · Enter to run · Esc to clear"),
                    ),
                )
            } else {
                Footer::Keys(
                    vec![
                        ("j/k", "move"),
                        ("↵", "detail"),
                        ("s", "sort"),
                        ("[ ]", "page"),
                        ("/", "find"),
                        ("h", "back"),
                    ],
                )
            },
        }
    }
}

// ---- topics in words ----

/// A topic's name, or its number where it has none.
pub open spec fn name_of(t: Topic) -> Seq<char> {
    match t.subdomain_name {
        Some(n) => n@,
        None => "topic #"@ + signed_decimal(t.subdomain_id as int),
    }
}

/// A topic's name, or its number where it has none.
pub fn topic_name(t: &Topic) -> (res: String)
    ensures
        res@ == name_of(*t),
{
    match &t.subdomain_name {
        Some(n) => n.clone(),
        None => cat2("topic #", show_signed(t.subdomain_id).as_str()),
    }
}

/// The cadence in parts: `streak 3 days`, `best 9`, `12 this month` and, where
/// known, `avg 21d interval`.
pub open spec fn stats_parts(s: ReviewStats) -> Seq<Seq<char>> {
    seq![
        "streak "@ + decimal(s.current_streak as nat) + " day"@ + plural(s.current_streak as int),
        "best "@ + decimal(s.longest_streak as nat),
        decimal(s.this_month as nat) + " this month"@,
    ] + (match s.avg_interval {
        Some(avg) => seq!["avg "@ + signed_decimal(avg as int) + "d interval"@],
        None => Seq::empty(),
    })
}

/// The cadence in one line.
pub fn stats_line(d: &Dashboard) -> (res: Line)
    ensures
        res@ == seq![(Tone::Muted, joined(stats_parts(d.stats), "  ·  "@))],
{
    let s = &d.stats;
    let mut parts = no_texts();
    push_text(
        &mut parts,
        crate::text::cat4(
            "streak ",
            show(s.current_streak as u64).as_str(),
            " day",
            plural_of(s.current_streak == 1).as_str(),
        ),
    );
    push_text(&mut parts, cat2("best ", show(s.longest_streak as u64).as_str()));
    push_text(&mut parts, cat2(show(s.this_month as u64).as_str(), " this month"));
    if let Some(avg) = s.avg_interval {
        push_text(&mut parts, cat3("avg ", show_signed(avg).as_str(), "d interval"));
    }
    assert(texts(parts@) =~= stats_parts(d.stats));
    Line::of(Tone::Muted, join(&parts, "  ·  "))
}

/// The state and review count of a topic, and its interval where known.
pub open spec fn freshness_text(t: Topic) -> Seq<char> {
    joined(
        seq![t.state@, decimal(t.review_count as nat) + "×"@] + (match t.interval_days {
            Some(iv) => seq![signed_decimal(iv as int) + "d"@],
            None => Seq::empty(),
        }),
        " · "@,
    )
}

/// A compact read of how fresh a topic is.
pub fn freshness(t: &Topic) -> (res: String)
    ensures
        res@ == freshness_text(*t),
{
    let mut parts = no_texts();
    push_text(&mut parts, t.state.clone());
    push_text(&mut parts, cat2(show(t.review_count as u64).as_str(), "×"));
    if let Some(iv) = t.interval_days {
        push_text(&mut parts, cat2(show_signed(iv).as_str(), "d"));
    }
    assert(texts(parts@) =~= seq![t.state@, decimal(t.review_count as nat) + "×"@] + (
    match t.interval_days {
        Some(iv) => seq![signed_decimal(iv as int) + "d"@],
        None => Seq::empty(),
    }));
    join(&parts, " · ")
}

/// The length of the longest of some topics' names.
pub open spec fn longest_name(queue: Seq<Topic>) -> nat
    decreases queue.len(),
{
    if queue.len() == 0 {
        0
    } else {
        let before = longest_name(queue.drop_last());
        if name_of(queue.last()).len() > before {
            name_of(queue.last()).len()
        } else {
            before
        }
    }
}

/// The width of the name column: the longest name, between ten and
/// twenty-eight.
pub open spec fn name_width(queue: Seq<Topic>) -> nat {
    let w = longest_name(queue);
    if w < 10 {
        10
    } else if w > 28 {
        28
    } else {
        w
    }
}

fn widest_name(queue: &Vec<Topic>) -> (res: usize)
    ensures
        res == name_width(queue@),
{
    let mut w: usize = 0;
    let mut i: usize = 0;
    while i < queue.len()
        invariant
            i <= queue.len(),
            w == longest_name(queue@.take(i as int)),
        decreases queue.len() - i,
    {
        proof {
            let here = queue@.take(i as int + 1);
            assert(here.drop_last() =~= queue@.take(i as int));
            assert(here.last() == queue@[i as int]);
        }
        let n: usize = topic_name(&queue[i]).as_str().unicode_len();
        if n > w {
            w = n;
        }
        i = i + 1;
    }
    assert(queue@.take(queue@.len() as int) =~= queue@);
    if w < 10 {
        10
    } else if w > 28 {
        28
    } else {
        w
    }
}

/// One row of the due queue: name, domain and freshness in columns.
pub open spec fn queue_spans(t: Topic, width: nat) -> Seq<(Tone, Seq<char>)> {
    seq![
        (Tone::Plain, fitted(name_of(t), width) + "  "@),
        (Tone::Muted, fitted(or_empty(t.domain_name), 18) + "  "@),
        (Tone::Muted, freshness_text(t)),
    ]
}

/// The rows of the due queue.
pub open spec fn queue_page(queue: Seq<Topic>, width: nat) -> Seq<Seq<(Tone, Seq<char>)>> {
    queue.map_values(|t: Topic| queue_spans(t, width))
}

/// One row of the due queue.
pub fn queue_line(t: &Topic, width: usize) -> (res: Line)
    ensures
        res@ == queue_spans(*t, width as nat),
{
    let name = cat2(pad_or_truncate(topic_name(t).as_str(), width).as_str(), "  ");
    let domain = cat2(
        pad_or_truncate(text_or_empty(&t.domain_name).as_str(), 18).as_str(),
        "  ",
    );
    let l = Line::of(Tone::Plain, name).with(Tone::Muted, domain).with(Tone::Muted, freshness(t));
    assert(l@ =~= queue_spans(*t, width as nat));
    l
}

fn push_queue(lines: &mut Vec<Line>, queue: &Vec<Topic>, width: usize)
    ensures
        page(final(lines)@) == page(old(lines)@) + queue_page(queue@, width as nat),
{
    let ghost start = page(lines@);
    let mut i: usize = 0;
    assert(start + queue_page(queue@.take(0), width as nat) =~= start);
    while i < queue.len()
        invariant
            i <= queue.len(),
            page(lines@) == start + queue_page(queue@.take(i as int), width as nat),
        decreases queue.len() - i,
    {
        push_line(lines, queue_line(&queue[i], width));
        i = i + 1;
        assert(page(lines@) =~= start + queue_page(queue@.take(i as int), width as nat));
    }
    assert(queue@.take(queue@.len() as int) =~= queue@);
}

/// The cells of a browse row: topic, domain, state, reviews and interval.
pub open spec fn topic_cells(t: Topic) -> Seq<Seq<(Tone, Seq<char>)>> {
    seq![
        seq![(Tone::Plain, name_of(t))],
        seq![(Tone::Muted, or_empty(t.domain_name))],
        seq![(Tone::Muted, t.state@)],
        seq![(Tone::Muted, decimal(t.review_count as nat) + "×"@)],
        seq![
            (
                Tone::Muted,
                match t.interval_days {
                    Some(d) => signed_decimal(d as int) + "d"@,
                    None => Seq::empty(),
                },
            ),
        ],
    ]
}

/// The cells of a browse row.
pub fn topic_row(t: &Topic) -> (res: Vec<Line>)
    ensures
        page(res@) == topic_cells(*t),
{
    let iv = match t.interval_days {
        Some(d) => cat2(show_signed(d).as_str(), "d"),
        None => String::new(),
    };
    let mut cells = no_lines();
    push_line(&mut cells, Line::of(Tone::Plain, topic_name(t)));
    push_line(&mut cells, Line::of(Tone::Muted, text_or_empty(&t.domain_name)));
    push_line(&mut cells, Line::of(Tone::Muted, t.state.clone()));
    push_line(
        &mut cells,
        Line::of(Tone::Muted, cat2(show(t.review_count as u64).as_str(), "×")),
    );
    push_line(&mut cells, Line::of(Tone::Muted, iv));
    assert(page(cells@) =~~= topic_cells(*t));
    cells
}

/// The interval that a rating would set, where the server says.
pub open spec fn forecast(f: Forecasts, r: Rating) -> Option<i64> {
    match r {
        Rating::Forgot => f.forgot,
        Rating::Fuzzy => f.fuzzy,
        Rating::Solid => f.solid,
        Rating::Instant => f.instant,
    }
}

/// One rating key with its label and the interval it would set.
pub open spec fn rating_span(f: Forecasts, r: Rating) -> Seq<(Tone, Seq<char>)> {
    seq![
        (Tone::OnAccent, " "@ + seq![r.letter()] + " "@),
        (Tone::Plain, " "@ + r.text()),
    ] + (match forecast(f, r) {
        Some(days) => seq![(Tone::Muted, " →"@ + signed_decimal(days as int) + "d"@)],
        None => Seq::empty(),
    })
}

/// The four rating keys with their labels and intervals.
pub open spec fn rating_spans(f: Forecasts) -> Seq<(Tone, Seq<char>)> {
    rating_span(f, Rating::Forgot) + seq![(Tone::Plain, "   "@)] + rating_span(f, Rating::Fuzzy)
        + seq![(Tone::Plain, "   "@)] + rating_span(f, Rating::Solid) + seq![(Tone::Plain, "   "@)]
        + rating_span(f, Rating::Instant)
}

fn with_rating(l: Line, f: &Forecasts, r: Rating) -> (res: Line)
    ensures
        res@ == l@ + rating_span(*f, r),
{
    let mut key = String::new();
    key.push(r.key());
    assert(key@ =~= seq![r.letter()]);
    let l2 = l.with(Tone::OnAccent, cat3(" ", key.as_str(), " ")).with(
        Tone::Plain,
        cat2(" ", r.as_str()),
    );
    let days = match r {
        Rating::Forgot => f.forgot,
        Rating::Fuzzy => f.fuzzy,
        Rating::Solid => f.solid,
        Rating::Instant => f.instant,
    };
    match days {
        Some(d) => {
            let l3 = l2.with(Tone::Muted, cat3(" →", show_signed(d).as_str(), "d"));
            assert(l3@ =~= l@ + rating_span(*f, r));
            l3
        },
        None => {
            assert(l2@ =~= l@ + rating_span(*f, r));
            l2
        },
    }
}

/// The four rating keys with their labels and, where known, the interval each
/// would set.
pub fn rating_hints_line(t: &Topic) -> (res: Line)
    ensures
        res@ == rating_spans(t.forecasts),
{
    let gap = "   ";
    let l = with_rating(Line::empty(), &t.forecasts, Rating::Forgot).with(Tone::Plain, own(gap));
    let l = with_rating(l, &t.forecasts, Rating::Fuzzy).with(Tone::Plain, own(gap));
    let l = with_rating(l, &t.forecasts, Rating::Solid).with(Tone::Plain, own(gap));
    let l = with_rating(l, &t.forecasts, Rating::Instant);
    assert(l@ =~= rating_spans(t.forecasts));
    l
}

/// The context of a topic in parts: interval, reviews and the last review.
pub open spec fn context_parts(t: Topic) -> Seq<Seq<char>> {
    (match t.interval_days {
        Some(iv) => seq!["interval "@ + signed_decimal(iv as int) + "d"@],
        None => Seq::empty(),
    }) + seq![decimal(t.review_count as nat) + " review"@ + plural(t.review_count as int)] + (
    match t.last_reviewed_at {
        Some(ts) => seq!["last "@ + stamp_text(ts as int, "%Y-%m-%d"@)],
        None => Seq::empty(),
    })
}

/// The context of a topic: new, or its interval, reviews and last review.
pub open spec fn context_text(t: Topic) -> Seq<char> {
    if t.review_count == 0 {
        "new topic · not yet reviewed"@
    } else {
        joined(context_parts(t), "  ·  "@)
    }
}

/// The context of a topic.
pub fn context_line(t: &Topic) -> (res: String)
    ensures
        res@ == context_text(*t),
{
    if t.review_count == 0 {
        return own("new topic · not yet reviewed");
    }
    let mut parts = no_texts();
    if let Some(iv) = t.interval_days {
        push_text(&mut parts, cat3("interval ", show_signed(iv).as_str(), "d"));
    }
    push_text(
        &mut parts,
        cat3(
            show(t.review_count as u64).as_str(),
            " review",
            plural_of(t.review_count == 1).as_str(),
        ),
    );
    if let Some(ts) = t.last_reviewed_at {
        push_text(&mut parts, cat2("last ", stamp(ts, "%Y-%m-%d").as_str()));
    }
    assert(texts(parts@) =~= context_parts(*t));
    join(&parts, "  ·  ")
}

/// The titles of a topic's notes as bullets.
pub open spec fn bullets(notes: Seq<String>) -> Seq<Seq<(Tone, Seq<char>)>> {
    notes.map_values(|n: String| seq![(Tone::Plain, "• "@ + n@)])
}

/// What is known of a topic: name, domain, context and notes.
pub open spec fn topic_page(t: Topic) -> Seq<Seq<(Tone, Seq<char>)>> {
    seq![seq![(Tone::Bold, name_of(t))]] + (match t.domain_name {
        Some(dn) => seq![seq![(Tone::Muted, dn@)]],
        None => Seq::empty(),
    }) + seq![seq![(Tone::Plain, ""@)], seq![(Tone::Muted, context_text(t))]] + (
    if t.notes@.len() > 0 {
        seq![seq![(Tone::Plain, ""@)]] + bullets(t.notes@)
    } else {
        Seq::empty()
    })
}

fn push_bullets(lines: &mut Vec<Line>, notes: &Vec<String>)
    ensures
        page(final(lines)@) == page(old(lines)@) + bullets(notes@),
{
    let ghost start = page(lines@);
    let mut i: usize = 0;
    assert(start + bullets(notes@.take(0)) =~= start);
    while i < notes.len()
        invariant
            i <= notes.len(),
            page(lines@) == start + bullets(notes@.take(i as int)),
        decreases notes.len() - i,
    {
        push_line(lines, Line::of(Tone::Plain, cat2("• ", notes[i].as_str())));
        i = i + 1;
        assert(page(lines@) =~= start + bullets(notes@.take(i as int)));
    }
    assert(notes@.take(notes@.len() as int) =~= notes@);
}

fn topic_lines(t: &Topic) -> (res: Vec<Line>)
    ensures
        page(res@) == topic_page(*t),
{
    let mut lines = no_lines();
    push_line(&mut lines, Line::of(Tone::Bold, topic_name(t)));
    if let Some(dn) = &t.domain_name {
        push_line(&mut lines, Line::of(Tone::Muted, dn.clone()));
    }
    push_line(&mut lines, Line::of(Tone::Plain, own("")));
    push_line(&mut lines, Line::of(Tone::Muted, context_line(t)));
    if t.notes.len() > 0 {
        push_line(&mut lines, Line::of(Tone::Plain, own("")));
        push_bullets(&mut lines, &t.notes);
    }
    assert(page(lines@) =~~= topic_page(*t));
    lines
}

/// The lines of the browse detail: what is known of the topic, and the ratings.
pub open spec fn detail_page(t: Topic) -> Seq<Seq<(Tone, Seq<char>)>> {
    topic_page(t) + seq![
        seq![(Tone::Plain, ""@)],
        seq![(Tone::Muted, "rate:"@)],
        rating_spans(t.forecasts),
    ]
}

/// The lines of the browse detail.
pub fn detail_lines(t: &Topic) -> (res: Vec<Line>)
    ensures
        page(res@) == detail_page(*t),
{
    let mut lines = topic_lines(t);
    push_line(&mut lines, Line::of(Tone::Plain, own("")));
    push_line(&mut lines, Line::of(Tone::Muted, own("rate:")));
    push_line(&mut lines, rating_hints_line(t));
    assert(page(lines@) =~~= detail_page(*t));
    lines
}

// ---- what the calls answer ----

/// What the read of the dashboard sends back.
pub fn dashboard_read(reply: Result<Box<Dashboard>, Fault>) -> (res: Action)
    ensures
        match reply {
            Ok(d) => res == Action::ReviewDashboardLoaded(d),
            Err(e) => res matches Action::ReviewLoadFailed(msg) && msg@ == "review load failed: "@
                + e.shown@,
        },
{
    match reply {
        Ok(d) => Action::ReviewDashboardLoaded(d),
        Err(e) => Action::ReviewLoadFailed(cat2("review load failed: ", e.shown.as_str())),
    }
}

/// What the read of a browse page sends back.
pub fn topics_read(reply: Result<(Vec<Topic>, u32, u32, u32), Fault>) -> (res: Action)
    ensures
        match reply {
            Ok((items, page, per_page, total)) => res == (Action::ReviewBrowseLoaded {
                items,
                page,
                per_page,
                total,
            }),
            Err(e) => res matches Action::ReviewLoadFailed(msg) && msg@ == "topics load failed: "@
                + e.shown@,
        },
{
    match reply {
        Ok((items, page, per_page, total)) => Action::ReviewBrowseLoaded {
            items,
            page,
            per_page,
            total,
        },
        Err(e) => Action::ReviewLoadFailed(cat2("topics load failed: ", e.shown.as_str())),
    }
}

/// What a rating sends back; a failed one releases the guard.
pub fn rated(reply: Result<Box<RateResult>, Fault>) -> (res: Vec<Action>)
    ensures
        match reply {
            Ok(r) => res@ == seq![Action::ReviewRated(r)],
            Err(e) => {
                &&& res@.len() == 2
                &&& notifies(res@[0], Level::Error, "rate failed: "@ + e.shown@)
                &&& res@[1] == Action::ReviewRateFailed
            },
        },
{
    match reply {
        Ok(r) => one(Action::ReviewRated(r)),
        Err(e) => two(
            notice(Level::Error, cat2("rate failed: ", e.shown.as_str())),
            Action::ReviewRateFailed,
        ),
    }
}

// ---- laws ----

/// While a rating is on its way no other one is sent.
pub proof fn no_topic_is_rated_twice(pre: Review, r: Rating, post: Review, out: Outcome)
    requires
        pre.rating_in_flight,
        Review::handled(pre, Action::ReviewRate(r), post, out),
    ensures
        post == pre,
        out.quiet(),
{
}

/// A rating in the sitting goes to the topic on display, raises the guard, and
/// its answer lowers the guard, counts once, and shows the next due topic or
/// the end.
pub proof fn a_sitting_advances_one_topic_at_a_time(
    a: Review,
    r: Rating,
    b: Review,
    x: Outcome,
    answer: Box<RateResult>,
    c: Review,
    y: Outcome,
)
    requires
        a.stage == Stage::Sitting,
        a.current is Some,
        !a.rating_in_flight,
        !a.done,
        a.rated < u32::MAX,
        Review::handled(a, Action::ReviewRate(r), b, x),
        Review::handled(b, Action::ReviewRated(answer), c, y),
    ensures
        x.asks(
            seq![Effect::Call(Request::RateTopic { id: a.current->0.subdomain_id, rating: r })],
        ),
        b.rating_in_flight,
        !c.rating_in_flight,
        c.rated == a.rated + 1,
        c.current == answer.next_topic,
        c.done <==> answer.next_topic is None,
{
}

/// Starting a sitting and leaving it at once comes back to the dashboard with
/// nothing rated.
pub proof fn leaving_a_sitting_rates_nothing(
    a: Review,
    b: Review,
    c: Review,
    x: Outcome,
    y: Outcome,
)
    requires
        a.dashboard is Some,
        a.dashboard->0.queue@.len() > 0,
        Review::handled(a, Action::ReviewStartSitting, b, x),
        Review::handled(b, Action::ReviewExitSitting, c, y),
    ensures
        c.stage == Stage::Dashboard,
        c.current is None,
        c.rated == 0,
        c.dashboard == a.dashboard,
        x.quiet(),
        y.asks(seq![Effect::Call(Request::LoadDashboard)]),
{
}

/// Browse paging keeps inside the pages there are.
pub proof fn paging_stays_inside(pre: Review, action: Action, post: Review, out: Outcome)
    requires
        action is ReviewBrowsePageNext || action is ReviewBrowsePagePrev,
        1 <= pre.page <= pages(pre.total, pre.per_page),
        Review::handled(pre, action, post, out),
    ensures
        1 <= post.page <= pages(post.total, post.per_page),
{
    lemma_pages(pre.total, pre.per_page);
}

/// Six turns of the sort ring come home, on the first page.
pub proof fn the_sort_ring_closes(s: Seq<Review>, outs: Seq<Outcome>)
    requires
        s.len() == 7,
        s[0].wf(),
        forall|i: int|
            0 <= i < 6 ==> Review::handled(
                #[trigger] s[i],
                Action::ReviewBrowseCycleSort,
                s[i + 1],
                outs[i],
            ),
    ensures
        s[6].sort_idx == s[0].sort_idx,
        s[6].page == 1,
{
    assert(Review::handled(s[0], Action::ReviewBrowseCycleSort, s[1], outs[0]));
    assert(Review::handled(s[1], Action::ReviewBrowseCycleSort, s[2], outs[1]));
    assert(Review::handled(s[2], Action::ReviewBrowseCycleSort, s[3], outs[2]));
    assert(Review::handled(s[3], Action::ReviewBrowseCycleSort, s[4], outs[3]));
    assert(Review::handled(s[4], Action::ReviewBrowseCycleSort, s[5], outs[4]));
    assert(Review::handled(s[5], Action::ReviewBrowseCycleSort, s[6], outs[5]));
}

/// The browse cursor is on a topic after a load, wherever it stood.
pub proof fn a_load_clamps_the_cursor(
    pre: Review,
    items: Vec<Topic>,
    page: u32,
    per_page: u32,
    total: u32,
    post: Review,
    out: Outcome,
)
    requires
        items@.len() <= usize::MAX,
        Review::handled(
            pre,
            Action::ReviewBrowseLoaded { items, page, per_page, total },
            post,
            out,
        ),
    ensures
        in_list(post.cursor, post.topics@.len() as int),
{
}

/// A rating goes to the topic on display, with the rating that was struck: the
/// sitting's topic in a sitting, the opened one in the catalogue.
pub proof fn a_rating_goes_to_the_topic_on_display(
    pre: Review,
    r: Rating,
    post: Review,
    out: Outcome,
)
    requires
        !pre.rating_in_flight,
        Review::handled(pre, Action::ReviewRate(r), post, out),
    ensures
        pre.stage == Stage::Sitting && pre.current is Some ==> out.effects@ == seq![
            Effect::Call(Request::RateTopic { id: pre.current->0.subdomain_id, rating: r }),
        ] && post.rating_in_flight,
        pre.stage == Stage::Browse && pre.detail is Some ==> out.effects@ == seq![
            Effect::Call(Request::RateTopic { id: pre.detail->0.subdomain_id, rating: r }),
        ] && post.rating_in_flight,
        pre.stage == Stage::Sitting && pre.current is None ==> out.effects@.len() == 0,
        pre.stage == Stage::Browse && pre.detail is None ==> out.effects@.len() == 0,
        pre.stage == Stage::Dashboard ==> out.effects@.len() == 0,
        post == (Review { rating_in_flight: post.rating_in_flight, ..pre }),
{
}

/// In a sitting, and on an opened topic, the four letters rate: `f` forgot, `z`
/// fuzzy, `s` solid, `i` instant. The topic on display is the one rated.
pub proof fn the_letters_rate_the_topic_on_display(
    a: Review,
    key: KeyEvent,
    b: Review,
    res: Option<Action>,
    c: Review,
    out: Outcome,
    rating: Rating,
)
    requires
        !a.rating_in_flight,
        ({
            ||| a.stage == Stage::Sitting && a.current is Some && !a.done
            ||| a.stage == Stage::Browse && a.detail is Some
        }),
        key.code == KeyCode::Char(
            match rating {
                Rating::Forgot => 'f',
                Rating::Fuzzy => 'z',
                Rating::Solid => 's',
                Rating::Instant => 'i',
            },
        ),
        Review::intercepted(a, key, b, res),
        res is Some,
        Review::handled(b, res->0, c, out),
    ensures
        out.effects@ == seq![
            Effect::Call(
                Request::RateTopic {
                    id: if a.stage == Stage::Sitting {
                        a.current->0.subdomain_id
                    } else {
                        a.detail->0.subdomain_id
                    },
                    rating,
                },
            ),
        ],
{
}

/// A key that rates is taken by a sitting that has a topic, and by an opened topic.
pub proof fn a_rating_key_is_taken(a: Review, key: KeyEvent, b: Review, res: Option<Action>, r: Rating)
    requires
        ({
            ||| a.stage == Stage::Sitting && !a.done
            ||| a.stage == Stage::Browse && a.detail is Some
        }),
        key.code == KeyCode::Char(r.letter()),
        Review::intercepted(a, key, b, res),
    ensures
        res == Some(Action::ReviewRate(r)),
        b == a,
{
}

/// A sitting starts with the first topic that is due.
pub proof fn a_sitting_starts_with_the_first_due(pre: Review, post: Review, out: Outcome)
    requires
        Review::handled(pre, Action::ReviewStartSitting, post, out),
    ensures
        pre.dashboard is Some && pre.dashboard->0.queue@.len() > 0 ==> post.stage == Stage::Sitting
            && post.current is Some && post.current->0.subdomain_id
            == pre.dashboard->0.queue@[0].subdomain_id && post.rated == 0 && !post.done
            && !post.rating_in_flight,
        pre.dashboard is None || pre.dashboard->0.queue@.len() == 0 ==> post == pre
            && out.note is Some,
        out.effects@.len() == 0,
{
}

/// A rating answered in the catalogue closes the topic and reads the same page
/// again, under the same search and order.
pub proof fn a_rating_in_the_catalogue_rereads_the_page(
    pre: Review,
    answer: Box<RateResult>,
    post: Review,
    out: Outcome,
)
    requires
        pre.stage == Stage::Browse,
        pre.wf(),
        Review::handled(pre, Action::ReviewRated(answer), post, out),
    ensures
        post.detail is None,
        !post.rating_in_flight,
        post.page == pre.page,
        post.query == pre.query,
        post.sort_idx == pre.sort_idx,
        out.effects@.len() == 1,
        out.effects@[0] matches Effect::Call(Request::ListTopics { query, page, .. }) && {
            &&& page == pre.page
            &&& match query {
                Some(text) => text@ == pre.query@ && text@.len() > 0,
                None => pre.query@.len() == 0,
            }
        },
{
}

/// What is typed at the search prompt is the query, letter by letter, and nothing is
/// read before it is submitted.
pub proof fn typing_fills_the_search(
    states: Seq<Review>,
    typed: Seq<char>,
    outs: Seq<Outcome>,
    n: int,
)
    requires
        0 <= n <= typed.len(),
        states.len() == typed.len() + 1,
        forall|i: int|
            #![trigger states[i]]
            0 <= i < typed.len() ==> Review::handled(
                states[i],
                Action::ReviewBrowseSearchInput(typed[i]),
                states[i + 1],
                outs[i],
            ) && outs[i].effects@.len() == 0,
    ensures
        states[n].query@ == states[0].query@ + typed.take(n),
        states[n].sort_idx == states[0].sort_idx,
        states[n].searching == states[0].searching,
        states[n].topics == states[0].topics,
    decreases n,
{
    if n > 0 {
        typing_fills_the_search(states, typed, outs, n - 1);
        assert(Review::handled(
            states[n - 1],
            Action::ReviewBrowseSearchInput(typed[n - 1]),
            states[n],
            outs[n - 1],
        ));
        assert(typed.take(n) =~= typed.take(n - 1).push(typed[n - 1]));
        assert(states[n].query@ =~= states[0].query@ + typed.take(n));
    } else {
        assert(states[0].query@ + typed.take(0) =~= states[0].query@);
    }
}

/// `/`, a text, `Enter`: the catalogue is asked for the topics that match that very
/// text, from the first page on, in the order the ring stands on. With nothing typed
/// it is asked for all of them.
pub proof fn a_search_asks_for_what_was_typed(
    pre: Review,
    slash: KeyEvent,
    opened: Option<Action>,
    states: Seq<Review>,
    typed: Seq<char>,
    outs: Seq<Outcome>,
    post: Review,
    out: Outcome,
)
    requires
        pre.stage == Stage::Browse,
        pre.detail is None,
        !pre.searching,
        slash.code == KeyCode::Char('/'),
        states.len() == typed.len() + 1,
        Review::intercepted(pre, slash, states[0], opened),
        forall|i: int|
            #![trigger states[i]]
            0 <= i < typed.len() ==> Review::handled(
                states[i],
                Action::ReviewBrowseSearchInput(typed[i]),
                states[i + 1],
                outs[i],
            ),
        Review::handled(states.last(), Action::ReviewBrowseSearchSubmit, post, out),
    ensures
        states[0].searching,
        out.note is None,
        out.effects@.len() == 1,
        out.effects@[0] matches Effect::Call(Request::ListTopics { sort, query, page }) && {
            &&& page == 1
            &&& sort == sort_at(pre.sort_idx as int).0
            &&& typed.len() > 0 ==> query is Some && query->0@ == typed
            &&& typed.len() == 0 ==> query is None
        },
        post.page == 1,
        post.query@ == typed,
        !post.searching,
{
    typing_fills_the_search(states, typed, outs, typed.len() as int);
    assert(typed.take(typed.len() as int) =~= typed);
    assert(Seq::<char>::empty() + typed =~= typed);
}

/// Turning a page keeps the search and the order and asks for the page next to the
/// one on display.
pub proof fn a_turned_page_keeps_the_search(
    pre: Review,
    action: Action,
    post: Review,
    out: Outcome,
)
    requires
        action is ReviewBrowsePageNext || action is ReviewBrowsePagePrev,
        Review::handled(pre, action, post, out),
        post != pre,
    ensures
        action is ReviewBrowsePageNext ==> post.page == (pre.page + 1) as u32,
        action is ReviewBrowsePagePrev ==> post.page == (pre.page - 1) as u32,
        post.query == pre.query,
        post.sort_idx == pre.sort_idx,
        out.effects@.len() == 1,
        out.effects@[0] matches Effect::Call(Request::ListTopics { sort, query, page }) && {
            &&& page == post.page
            &&& sort == sort_at(pre.sort_idx as int).0
            &&& match query {
                Some(text) => text@ == pre.query@ && text@.len() > 0,
                None => pre.query@.len() == 0,
            }
        },
{
}

/// A page is turned wherever there is one to turn to.
pub proof fn a_page_is_turned_where_there_is_one(
    pre: Review,
    action: Action,
    post: Review,
    out: Outcome,
)
    requires
        action is ReviewBrowsePageNext || action is ReviewBrowsePagePrev,
        Review::handled(pre, action, post, out),
        pages(pre.total, pre.per_page) <= u32::MAX,
    ensures
        action is ReviewBrowsePageNext && pre.page < pages(pre.total, pre.per_page) ==> post.page
            == pre.page + 1 && out.effects@.len() == 1,
        action is ReviewBrowsePageNext && pre.page >= pages(pre.total, pre.per_page) ==> post == pre
            && out.effects@.len() == 0,
        action is ReviewBrowsePagePrev && pre.page > 1 ==> post.page == pre.page - 1
            && out.effects@.len() == 1,
        action is ReviewBrowsePagePrev && pre.page <= 1 ==> post == pre && out.effects@.len() == 0,
{
}

/// The next order of the ring is asked for from its first page, the search kept.
pub proof fn the_next_order_is_asked_for(pre: Review, post: Review, out: Outcome)
    requires
        pre.wf(),
        Review::handled(pre, Action::ReviewBrowseCycleSort, post, out),
    ensures
        post.sort_idx == (if pre.sort_idx == 5 {
            0
        } else {
            pre.sort_idx + 1
        }),
        post.page == 1,
        post.query == pre.query,
        out.effects@.len() == 1,
        out.effects@[0] matches Effect::Call(Request::ListTopics { sort, query, page }) && {
            &&& page == 1
            &&& sort == sort_at(post.sort_idx as int).0
            &&& match query {
                Some(text) => text@ == pre.query@ && text@.len() > 0,
                None => pre.query@.len() == 0,
            }
        },
{
}

/// The six orders as the server knows them, no two alike.
pub proof fn the_orders_of_the_catalogue(i: int, j: int)
    requires
        0 <= i < j < 6,
    ensures
        sort_at(i).0@ != sort_at(j).0@,
        sort_at(0).0 == "urgency",
        sort_at(1).0 == "recent",
        sort_at(2).0 == "most_reviewed",
        sort_at(3).0 == "least_reviewed",
        sort_at(4).0 == "longest_interval",
        sort_at(5).0 == "az",
{
    reveal_strlit("urgency");
    reveal_strlit("recent");
    reveal_strlit("most_reviewed");
    reveal_strlit("least_reviewed");
    reveal_strlit("longest_interval");
    reveal_strlit("az");
    assert("urgency"@.len() == 7 && "recent"@.len() == 6 && "most_reviewed"@.len() == 13
        && "least_reviewed"@.len() == 14 && "longest_interval"@.len() == 16 && "az"@.len() == 2);
}

/// Leaving the prompt drops the search: what had narrowed the catalogue is read
/// again without it, from the first page.
pub proof fn a_cancelled_search_reads_everything(pre: Review, post: Review, out: Outcome)
    requires
        Review::handled(pre, Action::ReviewBrowseSearchCancel, post, out),
    ensures
        post.query@.len() == 0,
        !post.searching,
        pre.query@.len() > 0 ==> out.effects@.len() == 1 && (out.effects@[0] matches Effect::Call(
            Request::ListTopics { query, page, .. },
        ) && query is None && page == 1),
        pre.query@.len() == 0 ==> out.effects@.len() == 0,
{
}

/// Entering the catalogue reads its first page without a search.
pub proof fn the_catalogue_opens_on_everything(pre: Review, post: Review, out: Outcome)
    requires
        Review::handled(pre, Action::ReviewOpenBrowse, post, out),
    ensures
        post.stage == Stage::Browse,
        post.detail is None,
        post.query@.len() == 0,
        out.effects@.len() == 1,
        out.effects@[0] matches Effect::Call(Request::ListTopics { sort, query, page }) && query
            is None && page == 1 && sort == sort_at(pre.sort_idx as int).0,
{
}

/// The topic under the cursor, whichever row that is, is the one that opens and the
/// one whose record is read.
pub proof fn the_topic_under_the_cursor_opens(
    pre: Review,
    row: usize,
    post: Review,
    out: Outcome,
)
    requires
        pre.cursor == Some(row),
        row < pre.topics@.len(),
        Review::handled(pre, Action::ReviewBrowseOpenDetail, post, out),
    ensures
        post.detail is Some,
        post.detail->0.subdomain_id == pre.topics@[row as int].subdomain_id,
        out.effects@ == seq![
            Effect::Call(Request::GetTopic(pre.topics@[row as int].subdomain_id)),
        ],
        post.cursor == pre.cursor,
        post.topics == pre.topics,
{
}

/// A step lands on the row that far away, or on an end of the page.
pub proof fn a_step_walks_the_topics(pre: Review, row: usize, d: i32, post: Review, out: Outcome)
    requires
        pre.cursor == Some(row),
        row < pre.topics@.len() <= usize::MAX,
        Review::handled(pre, Action::ReviewBrowseMove(d), post, out),
    ensures
        post.cursor is Some,
        0 <= row + d < pre.topics@.len() ==> post.cursor->0 == row + d,
        row + d < 0 ==> post.cursor->0 == 0,
        row + d >= pre.topics@.len() ==> post.cursor->0 == pre.topics@.len() - 1,
        post == (Review { cursor: post.cursor, ..pre }),
        out.effects@.len() == 0,
{
}

/// `gg` and `G` land on the first and the last topic of the page.
pub proof fn the_jumps_land_on_the_ends(pre: Review, action: Action, post: Review, out: Outcome)
    requires
        action is ReviewBrowseJumpStart || action is ReviewBrowseJumpEnd,
        0 < pre.topics@.len() <= usize::MAX,
        Review::handled(pre, action, post, out),
    ensures
        post.cursor is Some,
        action is ReviewBrowseJumpStart ==> post.cursor->0 == 0,
        action is ReviewBrowseJumpEnd ==> post.cursor->0 == pre.topics@.len() - 1,
        post.topics == pre.topics,
{
}

/// A page that came in is shown as it came, with the numbers it came with.
pub proof fn a_page_is_shown_as_it_came(
    pre: Review,
    items: Vec<Topic>,
    page: u32,
    per_page: u32,
    total: u32,
    post: Review,
    out: Outcome,
)
    requires
        page > 0,
        per_page > 0,
        Review::handled(
            pre,
            Action::ReviewBrowseLoaded { items, page, per_page, total },
            post,
            out,
        ),
    ensures
        post.topics@ == items@,
        post.page == page,
        post.per_page == per_page,
        post.total == total,
        post.query == pre.query,
        !post.browse_loading,
        out.effects@.len() == 0,
{
}

/// A failed rating rates nothing: the topic stays on display and can be rated again.
pub proof fn a_failed_rating_keeps_the_topic(pre: Review, post: Review, out: Outcome)
    requires
        Review::handled(pre, Action::ReviewRateFailed, post, out),
    ensures
        !post.rating_in_flight,
        post.current == pre.current,
        post.detail == pre.detail,
        post.rated == pre.rated,
        post.stage == pre.stage,
{
}

/// A rating that went through is answered by its result, one that failed by a notice and
/// the release of the guard.
pub proof fn how_a_rating_is_answered(
    reply: Result<Box<RateResult>, Fault>,
    sent: Vec<Action>,
)
    requires
        call_ensures(rated, (reply,), sent),
    ensures
        reply matches Ok(r) ==> sent@ == seq![Action::ReviewRated(r)],
        reply is Err ==> sent@.len() == 2 && (sent@[0] matches Action::Notify { level, .. } && level
            == Level::Error) && sent@[1] is ReviewRateFailed,
{
}

/// The words of the ratings on the wire, no two alike.
pub proof fn the_ratings_on_the_wire(a: Rating, b: Rating)
    ensures
        Rating::Forgot.text() == "forgot"@,
        Rating::Fuzzy.text() == "fuzzy"@,
        Rating::Solid.text() == "solid"@,
        Rating::Instant.text() == "instant"@,
        Rating::Forgot.letter() == 'f',
        Rating::Fuzzy.letter() == 'z',
        Rating::Solid.letter() == 's',
        Rating::Instant.letter() == 'i',
        a.text() == b.text() ==> a == b,
{
    reveal_strlit("forgot");
    reveal_strlit("fuzzy");
    reveal_strlit("solid");
    reveal_strlit("instant");
    assert("forgot"@.len() == 6 && "fuzzy"@.len() == 5 && "solid"@.len() == 5 && "instant"@.len()
        == 7);
    assert("fuzzy"@[0] == 'f' && "solid"@[0] == 's');
}

/// A row of the catalogue shows its own topic: the name, the domain, the state, how often
/// it was reviewed and at which interval.
pub proof fn a_row_shows_its_topic(t: Topic)
    ensures
        topic_cells(t).len() == 5,
        t.subdomain_name matches Some(n) ==> topic_cells(t)[0][0].1 == n@,
        t.subdomain_name is None ==> topic_cells(t)[0][0].1 == "topic #"@ + signed_decimal(
            t.subdomain_id as int,
        ),
        t.domain_name matches Some(d) ==> topic_cells(t)[1][0].1 == d@,
        topic_cells(t)[2][0].1 == t.state@,
        topic_cells(t)[3][0].1 == decimal(t.review_count as nat) + "×"@,
        t.interval_days matches Some(d) ==> topic_cells(t)[4][0].1 == signed_decimal(d as int)
            + "d"@,
{
}

/// The keys that rate are shown each with its own word and the interval it would set.
pub proof fn the_forecasts_stand_with_their_ratings(f: Forecasts, r: Rating)
    ensures
        rating_span(f, r)[0].1 == " "@ + seq![r.letter()] + " "@,
        rating_span(f, r)[1].1 == " "@ + r.text(),
        r == Rating::Forgot && f.forgot is Some ==> rating_span(f, r)[2].1 == " →"@
            + signed_decimal(f.forgot->0 as int) + "d"@,
        r == Rating::Fuzzy && f.fuzzy is Some ==> rating_span(f, r)[2].1 == " →"@ + signed_decimal(
            f.fuzzy->0 as int,
        ) + "d"@,
        r == Rating::Solid && f.solid is Some ==> rating_span(f, r)[2].1 == " →"@ + signed_decimal(
            f.solid->0 as int,
        ) + "d"@,
        r == Rating::Instant && f.instant is Some ==> rating_span(f, r)[2].1 == " →"@
            + signed_decimal(f.instant->0 as int) + "d"@,
{
}

/// The sitting shows the topic being rated, and at its end how many were.
pub proof fn the_sitting_shows_its_topic(s: Review)
    ensures
        s.done ==> s.sitting_page()[2][0].1 == "You rated "@ + decimal(s.rated as nat) + " topic"@
            + plural(s.rated as int) + "."@,
        !s.done && s.current is Some ==> s.sitting_page()[0][0].1 == name_of(s.current->0),
        !s.done && s.current is Some ==> s.sitting_page().last()[0].1 == decimal(s.rated as nat)
            + " rated this sitting"@,
{
}

/// The dashboard counts the topics that are due.
pub proof fn the_dashboard_counts_what_is_due(s: Review, d: Dashboard)
    requires
        s.dashboard == Some(d),
    ensures
        d.queue@.len() > 0 ==> s.dashboard_page()[0][0].1 == decimal(d.queue@.len()) + " topic"@
            + plural(d.queue@.len() as int) + " due"@,
        d.queue@.len() == 0 ==> s.dashboard_page()[0][0].1
            == "Nothing due — you're all caught up ✓"@,
{
}

/// What was read reaches the screen as it came, and a failure in its words.
pub proof fn a_read_reaches_the_review(
    board: Result<Box<Dashboard>, Fault>,
    topics: Result<(Vec<Topic>, u32, u32, u32), Fault>,
    a: Action,
    b: Action,
)
    requires
        call_ensures(dashboard_read, (board,), a),
        call_ensures(topics_read, (topics,), b),
    ensures
        board matches Ok(d) ==> a == Action::ReviewDashboardLoaded(d),
        board is Err ==> (a matches Action::ReviewLoadFailed(msg) && msg@ == "review load failed: "@
            + board->Err_0.shown@),
        topics matches Ok((items, page, per_page, total)) ==> b == (Action::ReviewBrowseLoaded {
            items,
            page,
            per_page,
            total,
        }),
        topics is Err ==> (b matches Action::ReviewLoadFailed(msg) && msg@
            == "topics load failed: "@ + topics->Err_0.shown@),
{
}

/// A dashboard is shown as it came; a failed read is said and keeps the one before it.
pub proof fn the_dashboard_is_shown_as_it_came(
    pre: Review,
    action: Action,
    post: Review,
    out: Outcome,
)
    requires
        Review::handled(pre, action, post, out),
    ensures
        action matches Action::ReviewDashboardLoaded(d) ==> post.dashboard == Some(*d)
            && !post.loading && post.error is None,
        action matches Action::ReviewLoadFailed(e) ==> post.dashboard == pre.dashboard
            && post.topics == pre.topics && post.error == Some(e) && out.note is Some && (
        out.note->0).0 == Level::Error && (out.note->0).1@ == e@,
        action is RefreshReview ==> out.effects@ == seq![Effect::Call(Request::LoadDashboard)],
        action is ReviewOpenDashboard ==> post.stage == Stage::Dashboard && out.effects@ == seq![
            Effect::Call(Request::LoadDashboard),
        ],
{
}

/// A fresh page keeps the cursor on its row where that row is there, and else puts it on the
/// last one.
pub proof fn a_load_keeps_the_row(
    pre: Review,
    items: Vec<Topic>,
    page: u32,
    per_page: u32,
    total: u32,
    row: usize,
    post: Review,
    out: Outcome,
)
    requires
        pre.cursor == Some(row),
        items@.len() <= usize::MAX,
        Review::handled(
            pre,
            Action::ReviewBrowseLoaded { items, page, per_page, total },
            post,
            out,
        ),
    ensures
        row < items@.len() ==> post.cursor == Some(row),
        row >= items@.len() && items@.len() > 0 ==> post.cursor is Some && post.cursor->0
            == items@.len() - 1,
{
}

/// The record that was read takes the place of the row's in an open topic.
pub proof fn a_read_topic_fills_an_open_detail(
    pre: Review,
    t: Box<Topic>,
    post: Review,
    out: Outcome,
)
    requires
        Review::handled(pre, Action::ReviewBrowseDetailLoaded(t), post, out),
    ensures
        pre.detail is Some ==> post.detail == Some(*t),
        pre.detail is None ==> post.detail is None,
        post.topics == pre.topics,
{
}

/// The catalogue's title names its order, and the typed text while there is a search.
pub proof fn the_title_names_the_order(s: Review)
    ensures
        s.searching || s.query@.len() > 0 ==> s.browse_title_text() == "Review · browse · "@
            + sort_at(s.sort_idx as int).1@ + " · /"@ + s.query@ + "_"@,
        !s.searching && s.query@.len() == 0 ==> s.browse_title_text() == "Review · browse · "@
            + sort_at(s.sort_idx as int).1@,
{
}

/// Topics are shown where there are any; what stands in their place tells a read under
/// way from a search without a match and from an empty catalogue.
pub proof fn an_empty_catalogue_says_why(s: Review)
    ensures
        s.topics@.len() > 0 ==> s.browse_empty_text() is None,
        s.topics@.len() == 0 && s.browse_loading ==> s.browse_empty_text() == Some("loading…"),
        s.topics@.len() == 0 && !s.browse_loading && s.query@.len() > 0 ==> s.browse_empty_text()
            == Some("No topics match that search."),
        s.topics@.len() == 0 && !s.browse_loading && s.query@.len() == 0
            ==> s.browse_empty_text() == Some("No topics."),
{
}

/// A finished sitting tells how many topics were rated.
pub proof fn a_finished_sitting_counts_its_topics(s: Review)
    requires
        s.done,
    ensures
        s.sitting_page()[0] == seq![(Tone::SuccessBold, "Sitting complete ✓"@)],
        s.rated == 1 ==> s.sitting_page()[2][0].1 == "You rated "@ + decimal(1) + " topic"@ + "."@,
        s.rated != 1 ==> s.sitting_page()[2][0].1 == "You rated "@ + decimal(s.rated as nat)
            + " topics"@ + "."@,
{
    reveal_strlit(" topic");
    reveal_strlit(" topics");
    assert(" topic"@ + seq!['s'] =~= " topics"@);
    let head = "You rated "@ + decimal(s.rated as nat);
    assert(head + " topic"@ + Seq::<char>::empty() =~= head + " topic"@);
    assert(head + " topic"@ + seq!['s'] =~= head + (" topic"@ + seq!['s']));
}

/// Every field keeps its value but through the actions that are about it.
pub proof fn what_an_action_leaves_alone(
    pre: Review,
    action: Action,
    post: Review,
    out: Outcome,
)
    requires
        Review::handled(pre, action, post, out),
    ensures
        post.stage == pre.stage || action is ReviewOpenDashboard || action is ReviewOpenBrowse
            || action is ReviewStartSitting || action is ReviewExitSitting,
        post.dashboard == pre.dashboard || action is ReviewDashboardLoaded,
        post.loading == pre.loading || action is ReviewDashboardLoaded
            || action is ReviewLoadFailed || action is RefreshReview
            || action is ReviewOpenDashboard || action is ReviewExitSitting,
        post.error == pre.error || action is ReviewDashboardLoaded || action is ReviewLoadFailed,
        post.current == pre.current || action is ReviewStartSitting || action is ReviewExitSitting
            || action is ReviewRated,
        post.rated == pre.rated || action is ReviewStartSitting || action is ReviewRated,
        post.done == pre.done || action is ReviewStartSitting || action is ReviewExitSitting
            || action is ReviewRated,
        post.rating_in_flight == pre.rating_in_flight || action is ReviewStartSitting
            || action is ReviewExitSitting || action is ReviewRate || action is ReviewRated
            || action is ReviewRateFailed,
        post.topics == pre.topics || action is ReviewBrowseLoaded,
        post.cursor == pre.cursor || action is ReviewOpenBrowse || action is ReviewBrowseLoaded
            || action is ReviewBrowseMove || action is ReviewBrowseJumpStart
            || action is ReviewBrowseJumpEnd || action is ReviewBrowsePageNext
            || action is ReviewBrowsePagePrev || action is ReviewBrowseCycleSort
            || action is ReviewBrowseSearchSubmit || action is ReviewBrowseSearchCancel,
        post.page == pre.page || action is ReviewOpenBrowse || action is ReviewBrowseLoaded
            || action is ReviewBrowsePageNext || action is ReviewBrowsePagePrev
            || action is ReviewBrowseCycleSort || action is ReviewBrowseSearchSubmit
            || action is ReviewBrowseSearchCancel,
        post.per_page == pre.per_page || action is ReviewBrowseLoaded,
        post.total == pre.total || action is ReviewBrowseLoaded,
        post.sort_idx == pre.sort_idx || action is ReviewBrowseCycleSort,
        post.query == pre.query || action is ReviewOpenBrowse || action is ReviewBrowseSearchInput
            || action is ReviewBrowseSearchBackspace || action is ReviewBrowseSearchCancel,
        post.searching == pre.searching || action is ReviewOpenBrowse
            || action is ReviewBrowsePageNext || action is ReviewBrowsePagePrev
            || action is ReviewBrowseCycleSort || action is ReviewBrowseSearchSubmit
            || action is ReviewBrowseSearchCancel,
        post.browse_loading == pre.browse_loading || action is ReviewLoadFailed
            || action is ReviewOpenBrowse || action is ReviewRated || action is ReviewBrowseLoaded
            || action is ReviewBrowsePageNext || action is ReviewBrowsePagePrev
            || action is ReviewBrowseCycleSort || action is ReviewBrowseSearchSubmit
            || action is ReviewBrowseSearchCancel,
        post.detail == pre.detail || action is ReviewOpenBrowse || action is ReviewRated
            || action is ReviewBrowseOpenDetail || action is ReviewBrowseDetailLoaded
            || action is ReviewBrowseCloseDetail,
{
}

/// Only these actions say something, and only these send something; a read under way is
/// marked until it is answered.
pub proof fn which_actions_are_heard(
    pre: Review,
    action: Action,
    post: Review,
    out: Outcome,
)
    requires
        Review::handled(pre, action, post, out),
    ensures
        out.note is None || action is ReviewLoadFailed || action is ReviewStartSitting
            || action is ReviewRated,
        out.effects@.len() == 0 || action is RefreshReview || action is ReviewOpenDashboard
            || action is ReviewOpenBrowse || action is ReviewExitSitting || action is ReviewRate
            || action is ReviewRated || action is ReviewBrowsePageNext
            || action is ReviewBrowsePagePrev || action is ReviewBrowseCycleSort
            || action is ReviewBrowseSearchSubmit || action is ReviewBrowseSearchCancel
            || action is ReviewBrowseOpenDetail,
        out.effects@.len() <= 1,
        (action is RefreshReview || action is ReviewOpenDashboard
            || action is ReviewExitSitting) ==> post.loading,
        (action is ReviewDashboardLoaded || action is ReviewLoadFailed) ==> !post.loading,
{
}

/// The catalogue is marked as being read from the moment a page is asked for until it
/// comes or fails.
pub proof fn a_page_asked_for_is_awaited(pre: Review, action: Action, post: Review, out: Outcome)
    requires
        Review::handled(pre, action, post, out),
    ensures
        action is ReviewOpenBrowse || action is ReviewBrowseCycleSort
            || action is ReviewBrowseSearchSubmit ==> post.browse_loading,
        action is ReviewBrowsePageNext && post.page != pre.page ==> post.browse_loading,
        action is ReviewBrowsePagePrev && post.page != pre.page ==> post.browse_loading,
        action is ReviewBrowseLoaded || action is ReviewLoadFailed ==> !post.browse_loading,
{
}

/// What the review says: a failure in the words that came with it, that nothing is due
/// where a sitting has nothing to start with, and that a topic of the catalogue was
/// rated.
pub proof fn what_the_review_says(pre: Review, action: Action, post: Review, out: Outcome)
    requires
        Review::handled(pre, action, post, out),
    ensures
        action matches Action::ReviewLoadFailed(e) ==> out.note is Some && (out.note->0).0
            == Level::Error && (out.note->0).1@ == e@,
        action is ReviewStartSitting ==> (out.note is Some <==> (pre.dashboard is None
            || pre.dashboard->0.queue@.len() == 0)),
        action is ReviewStartSitting && out.note is Some ==> post == pre && (out.note->0).0
            == Level::Info && (out.note->0).1@ == "nothing due — you're all caught up"@,
        action is ReviewRated ==> (out.note is Some <==> pre.stage is Browse),
        action is ReviewRated && out.note is Some ==> (out.note->0).0 == Level::Success && (
        out.note->0).1@ == "rated"@,
{
}

/// The screen starts on its dashboard, with no sitting, and the catalogue on its first page.
pub proof fn how_the_screen_starts(s: Review)
    requires
        call_ensures(Review::default, (), s),
    ensures
        s.stage is Dashboard,
        s.dashboard is None,
        !s.loading,
        s.error is None,
        s.current is None,
        s.rated == 0,
        !s.done,
        !s.rating_in_flight,
        s.topics@.len() == 0,
        s.cursor == Some(0usize),
        s.page == 1,
        s.per_page == PER_PAGE,
        s.total == 0,
        s.sort_idx == 0,
        s.query@.len() == 0,
        !s.searching,
        !s.browse_loading,
        s.detail is None,
{
}

} // verus!
