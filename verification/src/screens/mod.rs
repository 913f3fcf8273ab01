//! Screen routing. Each screen is a self-contained reducer.

pub mod activities;
pub mod activity_new;
pub mod audit;
pub mod board;
pub mod book_detail;
pub mod books;
pub mod connect;
pub mod home;
pub mod inbox;
pub mod login;
pub mod notes;
pub mod progress;
pub mod queue;
pub mod review;
pub mod settings;

use crate::action::{Action, Effect, Moment, Outcome};
use crate::command::{drawn, render_line};
use crate::keys::KeyEvent;
use crate::line::Footer;
use crate::screens::activities::Activities;
use crate::screens::activity_new::ActivityNew;
use crate::screens::audit::Audit;
use crate::screens::board::Board;
use crate::screens::book_detail::BookDetail;
use crate::screens::books::Books;
use crate::screens::connect::Connect;
use crate::screens::home::Home;
use crate::screens::inbox::Inbox;
use crate::screens::login::Login;
use crate::screens::notes::Notes;
use crate::screens::progress::Progress;
use crate::screens::queue::Queue;
use crate::screens::review::Review;
use crate::screens::settings::Settings;
use vstd::prelude::*;

verus! {

/// Which screen is showing.
#[derive(Debug, Clone, Copy, PartialEq, Eq, Structural)]
pub enum ScreenKind {
    Login,
    Home,
    Books,
    BookDetail,
    ActivityNew,
    Activities,
    Progress,
    Timer,
    Notes,
    Review,
    Settings,
    Audit,
    Week,
    Inbox,
    Connect,
    Queue,
}

/// Whether keys are commands or text.
#[derive(Debug, Clone, Copy, PartialEq, Eq, Structural)]
pub enum ScreenMode {
    Normal,
    Insert,
}

/// The screen that is showing. The timer and the week board keep their state in
/// the shell: what reaches them is handed on, a key that they take too.
#[derive(Debug)]
#[allow(clippy::large_enum_variant)]
pub enum Screen {
    Login(Login),
    Home(Home),
    Books(Books),
    BookDetail(BookDetail),
    ActivityNew(ActivityNew),
    Activities(Activities),
    Progress(Progress),
    Timer(Board),
    Notes(Notes),
    Review(Box<Review>),
    Settings(Settings),
    Audit(Audit),
    Week(Board),
    Inbox(Inbox),
    Connect(Connect),
    Queue(Queue),
}

impl Screen {
    /// The board that is showing, where one is.
    pub open spec fn board(self) -> Option<Board> {
        match self {
            Screen::Timer(b) => Some(b),
            Screen::Week(b) => Some(b),
            _ => None,
        }
    }

    /// Which screen this is.
    pub open spec fn sort(self) -> ScreenKind {
        match self {
            Screen::Login(_) => ScreenKind::Login,
            Screen::Home(_) => ScreenKind::Home,
            Screen::Books(_) => ScreenKind::Books,
            Screen::BookDetail(_) => ScreenKind::BookDetail,
            Screen::ActivityNew(_) => ScreenKind::ActivityNew,
            Screen::Activities(_) => ScreenKind::Activities,
            Screen::Progress(_) => ScreenKind::Progress,
            Screen::Timer(_) => ScreenKind::Timer,
            Screen::Notes(_) => ScreenKind::Notes,
            Screen::Review(_) => ScreenKind::Review,
            Screen::Settings(_) => ScreenKind::Settings,
            Screen::Audit(_) => ScreenKind::Audit,
            Screen::Week(_) => ScreenKind::Week,
            Screen::Inbox(_) => ScreenKind::Inbox,
            Screen::Connect(_) => ScreenKind::Connect,
            Screen::Queue(_) => ScreenKind::Queue,
        }
    }

    /// The screen keeps its own invariant.
    pub open spec fn wf(self) -> bool {
        match self {
            Screen::BookDetail(s) => s.wf(),
            Screen::ActivityNew(s) => s.wf(),
            Screen::Activities(s) => s.wf(),
            Screen::Progress(s) => s.wf(),
            Screen::Review(s) => s.wf(),
            _ => true,
        }
    }

    /// Whether the screen can answer an action: the week it steps to has a name,
    /// and the minutes it trims to fit.
    pub open spec fn admits(self, action: Action) -> bool {
        match self {
            Screen::Progress(s) => s.admits(action),
            Screen::Audit(s) => s.admits(action),
            _ => true,
        }
    }

    /// Whether the screen can answer an action.
    pub fn can_take(&self, action: &Action) -> (res: bool)
        ensures
            res == self.admits(*action),
    {
        match self {
            Screen::Progress(s) => s.can_take(action),
            Screen::Audit(s) => s.can_take(action),
            _ => true,
        }
    }

    /// A screen as it opens.
    pub open spec fn fresh(self) -> bool {
        match self {
            Screen::Login(s) => s.state is Idle,
            Screen::Home(s) => s.fresh(),
            Screen::Books(s) => s.fresh(),
            Screen::BookDetail(s) => {
                &&& s.book is None
                &&& s.chapters@.len() == 0
                &&& s.cursor == Some(0usize)
                &&& s.edit_page is None
                &&& s.status_picker is None
            },
            Screen::ActivityNew(s) => s.fresh(),
            Screen::Activities(s) => s.fresh(),
            Screen::Progress(s) => s.fresh(),
            Screen::Timer(s) => s.fresh(),
            Screen::Notes(s) => s.fresh(),
            Screen::Review(s) => s.fresh(),
            Screen::Settings(s) => s.settings is None && !s.loading && s.failure is None,
            Screen::Audit(s) => s.fresh(),
            Screen::Week(s) => s.fresh(),
            Screen::Inbox(s) => s.fresh(),
            Screen::Connect(s) => s.fresh(),
            Screen::Queue(s) => s.fresh(),
        }
    }

    /// A screen of this kind, as it opens.
    pub fn new(kind: ScreenKind) -> (res: Self)
        ensures
            res.sort() == kind,
            res.fresh(),
            res.wf(),
    {
        match kind {
            ScreenKind::Login => Screen::Login(Login::default()),
            ScreenKind::Home => Screen::Home(Home::default()),
            ScreenKind::Books => Screen::Books(Books::default()),
            ScreenKind::BookDetail => Screen::BookDetail(BookDetail::default()),
            ScreenKind::ActivityNew => Screen::ActivityNew(ActivityNew::default()),
            ScreenKind::Activities => Screen::Activities(Activities::default()),
            ScreenKind::Progress => Screen::Progress(Progress::default()),
            ScreenKind::Timer => Screen::Timer(Board::blank()),
            ScreenKind::Notes => Screen::Notes(Notes::default()),
            ScreenKind::Review => Screen::Review(Box::new(Review::default())),
            ScreenKind::Settings => Screen::Settings(Settings::default()),
            ScreenKind::Audit => Screen::Audit(Audit::default()),
            ScreenKind::Week => Screen::Week(Board::blank()),
            ScreenKind::Inbox => Screen::Inbox(Inbox::default()),
            ScreenKind::Connect => Screen::Connect(Connect::default()),
            ScreenKind::Queue => Screen::Queue(Queue::default()),
        }
    }

    /// Which screen this is.
    pub fn kind(&self) -> (res: ScreenKind)
        ensures
            res == self.sort(),
    {
        match self {
            Screen::Login(_) => ScreenKind::Login,
            Screen::Home(_) => ScreenKind::Home,
            Screen::Books(_) => ScreenKind::Books,
            Screen::BookDetail(_) => ScreenKind::BookDetail,
            Screen::ActivityNew(_) => ScreenKind::ActivityNew,
            Screen::Activities(_) => ScreenKind::Activities,
            Screen::Progress(_) => ScreenKind::Progress,
            Screen::Timer(_) => ScreenKind::Timer,
            Screen::Notes(_) => ScreenKind::Notes,
            Screen::Review(_) => ScreenKind::Review,
            Screen::Settings(_) => ScreenKind::Settings,
            Screen::Audit(_) => ScreenKind::Audit,
            Screen::Week(_) => ScreenKind::Week,
            Screen::Inbox(_) => ScreenKind::Inbox,
            Screen::Connect(_) => ScreenKind::Connect,
            Screen::Queue(_) => ScreenKind::Queue,
        }
    }

    /// The title in the chrome.
    pub open spec fn title_text(kind: ScreenKind) -> Seq<char> {
        match kind {
            ScreenKind::Login => "Sign in"@,
            ScreenKind::Home => "Home"@,
            ScreenKind::Books => "Books"@,
            ScreenKind::BookDetail => "Book"@,
            ScreenKind::ActivityNew => "New activity"@,
            ScreenKind::Activities => "Activities"@,
            ScreenKind::Progress => "Progress"@,
            ScreenKind::Timer => "Timer"@,
            ScreenKind::Notes => "Notes"@,
            ScreenKind::Review => "Review"@,
            ScreenKind::Settings => "Settings · Timer"@,
            ScreenKind::Audit => "Progress · Segment audit"@,
            ScreenKind::Week => "Week"@,
            ScreenKind::Inbox => "Inbox"@,
            ScreenKind::Connect => "Connect"@,
            ScreenKind::Queue => "Queue"@,
        }
    }

    /// The title in the chrome.
    pub fn title(&self) -> (res: &'static str)
        ensures
            res@ == Self::title_text(self.sort()),
    {
        match self.kind() {
            ScreenKind::Login => "Sign in",
            ScreenKind::Home => "Home",
            ScreenKind::Books => "Books",
            ScreenKind::BookDetail => "Book",
            ScreenKind::ActivityNew => "New activity",
            ScreenKind::Activities => "Activities",
            ScreenKind::Progress => "Progress",
            ScreenKind::Timer => "Timer",
            ScreenKind::Notes => "Notes",
            ScreenKind::Review => "Review",
            ScreenKind::Settings => "Settings · Timer",
            ScreenKind::Audit => "Progress · Segment audit",
            ScreenKind::Week => "Week",
            ScreenKind::Inbox => "Inbox",
            ScreenKind::Connect => "Connect",
            ScreenKind::Queue => "Queue",
        }
    }

    /// Whether keys are commands or text: only the form of a new activity types.
    pub open spec fn key_mode(self) -> ScreenMode {
        match self {
            Screen::ActivityNew(s) => s.mode,
            _ => ScreenMode::Normal,
        }
    }

    /// Whether keys are commands or text.
    pub fn mode(&self) -> (res: ScreenMode)
        ensures
            res == self.key_mode(),
    {
        match self {
            Screen::ActivityNew(s) => s.mode(),
            _ => ScreenMode::Normal,
        }
    }

    /// What entering the screen does: most mark themselves as loading and ask for
    /// their read.
    pub open spec fn entered(pre: Self, post: Self, effects: Seq<Effect>) -> bool {
        match pre {
            Screen::Login(_) => post == pre && effects == Seq::<Effect>::empty(),
            Screen::Home(s) => {
                &&& post == Screen::Home(Home { loading: true, ..s })
                &&& effects == home::reads()
            },
            Screen::Books(s) => {
                &&& post == Screen::Books(Books { loading: true, ..s })
                &&& effects.len() == 1
                &&& s.fetches(effects[0])
            },
            Screen::BookDetail(_) => post == pre && effects == Seq::<Effect>::empty(),
            Screen::ActivityNew(_) => post == pre && effects == Seq::<Effect>::empty(),
            Screen::Activities(s) => {
                &&& post == Screen::Activities(Activities { loading: true, ..s })
                &&& effects == seq![s.fetch_effect()]
            },
            Screen::Progress(s) => {
                &&& post == Screen::Progress(Progress { loading: true, ..s })
                &&& effects == seq![
                    Effect::Call(crate::action::Request::LoadProgress { offset: s.offset }),
                ]
            },
            Screen::Timer(_) => {
                &&& post == pre
                &&& effects == seq![Effect::EnterShell(ScreenKind::Timer)]
            },
            Screen::Notes(s) => {
                &&& post == Screen::Notes(Notes { loading: true, ..s })
                &&& effects.len() == 1
                &&& s.fetches(effects[0])
            },
            Screen::Review(s) => {
                &&& post == Screen::Review(Box::new(Review { loading: true, ..*s }))
                &&& effects == seq![Effect::Call(crate::action::Request::LoadDashboard)]
            },
            Screen::Settings(s) => {
                &&& post == Screen::Settings(Settings { loading: true, ..s })
                &&& effects == seq![Effect::Call(crate::action::Request::LoadSettings)]
            },
            Screen::Audit(s) => {
                &&& post == Screen::Audit(Audit { loading: true, ..s })
                &&& effects == seq![
                    Effect::Call(crate::action::Request::LoadAudit),
                    Effect::Call(crate::action::Request::LoadKnobs),
                ]
            },
            Screen::Week(_) => {
                &&& post == pre
                &&& effects == seq![Effect::EnterShell(ScreenKind::Week)]
            },
            Screen::Inbox(s) => {
                &&& post == Screen::Inbox(Inbox { loading: true, ..s })
                &&& effects == seq![Effect::Call(crate::action::Request::ListDrafts)]
            },
            Screen::Connect(s) => {
                &&& post == Screen::Connect(Connect { loading: true, ..s })
                &&& effects == seq![Effect::Call(crate::action::Request::ListSources)]
            },
            Screen::Queue(s) => {
                &&& post == Screen::Queue(Queue { loading: true, ..s })
                &&& effects == seq![Effect::Call(crate::action::Request::LoadQueue)]
            },
        }
    }

    /// Entering the screen asks for what fills it.
    pub fn on_enter(&mut self) -> (out: Vec<Effect>)
        ensures
            Self::entered(*old(self), *final(self), out@),
            old(self).wf() ==> final(self).wf(),
    {
        match self {
            Screen::Login(s) => s.on_enter(),
            Screen::Home(s) => s.on_enter(),
            Screen::Books(s) => s.on_enter(),
            Screen::BookDetail(s) => s.on_enter(),
            Screen::ActivityNew(s) => s.on_enter(),
            Screen::Activities(s) => s.on_enter(),
            Screen::Progress(s) => s.on_enter(),
            Screen::Timer(_) => Outcome::ask(Effect::EnterShell(ScreenKind::Timer)).effects,
            Screen::Notes(s) => s.on_enter(),
            Screen::Review(s) => s.on_enter(),
            Screen::Settings(s) => s.on_enter(),
            Screen::Audit(s) => s.on_enter(),
            Screen::Week(_) => Outcome::ask(Effect::EnterShell(ScreenKind::Week)).effects,
            Screen::Inbox(s) => s.on_enter(),
            Screen::Connect(s) => s.on_enter(),
            Screen::Queue(s) => s.on_enter(),
        }
    }

    /// What the screen makes of a key before the global keymap sees it.
    pub open spec fn intercepted(
        pre: Self,
        key: KeyEvent,
        post: Self,
        res: Option<Action>,
    ) -> bool {
        match pre {
            Screen::Books(s) => post matches Screen::Books(t) && Books::intercepted(s, key, t, res),
            Screen::BookDetail(s) => post == pre && res == s.intercepted(key),
            Screen::Activities(s) => post matches Screen::Activities(t) && Activities::intercepted(
                s,
                key,
                t,
                res,
            ),
            Screen::Progress(s) => post == pre && res == s.intercepted(key),
            Screen::Timer(s) => post == pre && res == s.intercepted(key),
            Screen::Week(s) => post == pre && res == s.intercepted(key),
            Screen::Notes(s) => post matches Screen::Notes(t) && Notes::intercepted(s, key, t, res),
            Screen::Review(s) => post matches Screen::Review(t) && Review::intercepted(
                *s,
                key,
                *t,
                res,
            ),
            Screen::Inbox(s) => post == pre && res == s.intercepted(key),
            Screen::Connect(s) => post == pre && res == s.intercepted(key),
            _ => post == pre && res is None,
        }
    }

    /// Screens may take keys before the global keymap: their prompts, searches
    /// and edits do.
    pub fn intercept_key(&mut self, key: KeyEvent) -> (res: Option<Action>)
        ensures
            Self::intercepted(*old(self), key, *final(self), res),
            old(self).wf() ==> final(self).wf(),
            final(self).sort() == old(self).sort(),
            res is None ==> *final(self) == *old(self),
    {
        match self {
            Screen::Books(s) => s.intercept_key(key),
            Screen::BookDetail(s) => s.intercept_key(key),
            Screen::Activities(s) => s.intercept_key(key),
            Screen::Progress(s) => s.intercept_key(key),
            Screen::Timer(s) => s.intercept_key(key),
            Screen::Week(s) => s.intercept_key(key),
            Screen::Notes(s) => s.intercept_key(key),
            Screen::Review(s) => s.intercept_key(key),
            Screen::Inbox(s) => s.intercept_key(key),
            Screen::Connect(s) => s.intercept_key(key),
            Screen::Queue(s) => s.intercept_key(key),
            _ => None,
        }
    }

    /// How the screen answers an action at a moment.
    pub open spec fn handled(
        pre: Self,
        action: Action,
        now: Moment,
        post: Self,
        out: Outcome,
    ) -> bool {
        match pre {
            Screen::Login(s) => post matches Screen::Login(t) && Login::handled(s, action, t, out),
            Screen::Home(s) => post matches Screen::Home(t) && Home::handled(
                s,
                action,
                now.millis,
                t,
                out,
            ),
            Screen::Books(s) => post matches Screen::Books(t) && Books::handled(s, action, t, out),
            Screen::BookDetail(s) => post matches Screen::BookDetail(t) && BookDetail::handled(
                s,
                action,
                t,
                out,
            ),
            Screen::ActivityNew(s) => post matches Screen::ActivityNew(t) && ActivityNew::handled(
                s,
                action,
                now.second,
                t,
                out,
            ),
            Screen::Activities(s) => post matches Screen::Activities(t) && Activities::handled(
                s,
                action,
                t,
                out,
            ),
            Screen::Progress(s) => post matches Screen::Progress(t) && Progress::handled(
                s,
                action,
                now.hours,
                t,
                out,
            ),
            Screen::Timer(s) => post matches Screen::Timer(t) && Board::handled(
                s,
                ScreenKind::Timer,
                action,
                t,
                out,
            ),
            Screen::Notes(s) => post matches Screen::Notes(t) && Notes::handled(s, action, t, out),
            Screen::Review(s) => post matches Screen::Review(t) && Review::handled(
                *s,
                action,
                *t,
                out,
            ),
            Screen::Settings(s) => post matches Screen::Settings(t) && Settings::handled(
                s,
                action,
                t,
                out,
            ),
            Screen::Audit(s) => post matches Screen::Audit(t) && Audit::handled(s, action, t, out),
            Screen::Week(s) => post matches Screen::Week(t) && Board::handled(
                s,
                ScreenKind::Week,
                action,
                t,
                out,
            ),
            Screen::Inbox(s) => post matches Screen::Inbox(t) && Inbox::handled(s, action, t, out),
            Screen::Connect(s) => post matches Screen::Connect(t) && Connect::handled(
                s,
                action,
                t,
                out,
            ),
            Screen::Queue(s) => post matches Screen::Queue(t) && Queue::handled(s, action, t, out),
        }
    }

    /// How the screen answers an action at a moment.
    pub fn handle(&mut self, action: Action, now: Moment) -> (out: Outcome)
        requires
            old(self).wf(),
            old(self).admits(action),
        ensures
            final(self).wf(),
            Self::handled(*old(self), action, now, *final(self), out),
            final(self).sort() == old(self).sort(),
    {
        match self {
            Screen::Login(s) => s.handle(action),
            Screen::Home(s) => s.handle(action, now.millis),
            Screen::Books(s) => s.handle(action),
            Screen::BookDetail(s) => s.handle(action),
            Screen::ActivityNew(s) => s.handle(action, now.second),
            Screen::Activities(s) => s.handle(action),
            Screen::Progress(s) => s.handle(action, now.hours),
            Screen::Timer(s) => s.handle(ScreenKind::Timer, action),
            Screen::Notes(s) => s.handle(action),
            Screen::Review(s) => s.handle(action),
            Screen::Settings(s) => s.handle(action),
            Screen::Audit(s) => s.handle(action),
            Screen::Week(s) => s.handle(ScreenKind::Week, action),
            Screen::Inbox(s) => s.handle(action),
            Screen::Connect(s) => s.handle(action),
            Screen::Queue(s) => s.handle(action),
        }
    }

    // ---- the footer ----

    /// What the footer offers: the command line while one is typed, the keys that
    /// follow a prefix, or the screen's own.
    pub open spec fn offered(
        self,
        leader: bool,
        goto: bool,
        command: Option<Seq<char>>,
        f: Footer,
    ) -> bool {
        match command {
            Some(buf) => f matches Footer::Text(line) && line@ == drawn(buf),
            None => if leader {
                f.offers(
                    seq![
                        ("1", "home"),
                        ("2", "books"),
                        ("3", "progress"),
                        ("t", "timer"),
                        ("a", "+activity"),
                        ("A", "activities"),
                        ("R", "review"),
                        ("n", "notes"),
                        ("c", "+note"),
                        ("s", "save"),
                    ],
                )
            } else if goto {
                f.offers(
                    seq![
                        ("t", "timer"),
                        ("p", "progress"),
                        ("w", "week"),
                        ("r", "review"),
                        ("i", "inbox"),
                        ("h", "home"),
                        ("b", "books"),
                        ("n", "notes"),
                        ("a", "activities"),
                        ("g", "top"),
                    ],
                )
            } else {
                self.own_offered(f)
            },
        }
    }

    /// What the screen itself offers.
    pub open spec fn own_offered(self, f: Footer) -> bool {
        match self {
            Screen::Login(s) => s.offered(f),
            Screen::Home(_) => f.offers(
                seq![
                    ("r", "refresh"),
                    ("a", "+activity"),
                    ("g t", "timer"),
                    ("g p", "progress"),
                    ("g r", "review"),
                    ("i", "inbox"),
                    ("c", "+note"),
                    (":", "cmd"),
                    ("q", "quit"),
                ],
            ),
            Screen::Books(s) => s.offered(f),
            Screen::BookDetail(s) => s.offered(f),
            Screen::ActivityNew(s) => s.offered(f),
            Screen::Activities(s) => s.offered(f),
            Screen::Progress(s) => s.offered(f),
            Screen::Timer(s) => s.offered(f),
            Screen::Notes(s) => s.offered(f),
            Screen::Review(s) => s.offered(f),
            Screen::Settings(s) => s.offered(f),
            Screen::Audit(s) => s.offered(f),
            Screen::Week(s) => s.offered(f),
            Screen::Inbox(s) => s.offered(f),
            Screen::Connect(s) => s.offered(f),
            Screen::Queue(s) => s.offered(f),
        }
    }

    fn own_hints(&self) -> (res: Footer)
        ensures
            self.own_offered(res),
    {
        match self {
            Screen::Login(s) => s.hints(),
            Screen::Home(_) => Footer::Keys(
                vec![
                    ("r", "refresh"),
                    ("a", "+activity"),
                    ("g t", "timer"),
                    ("g p", "progress"),
                    ("g r", "review"),
                    ("i", "inbox"),
                    ("c", "+note"),
                    (":", "cmd"),
                    ("q", "quit"),
                ],
            ),
            Screen::Books(s) => s.hints(),
            Screen::BookDetail(s) => s.hints(),
            Screen::ActivityNew(s) => s.hints(),
            Screen::Activities(s) => s.hints(),
            Screen::Progress(s) => s.hints(),
            Screen::Timer(s) => s.hints(),
            Screen::Notes(s) => s.hints(),
            Screen::Review(s) => s.hints(),
            Screen::Settings(s) => s.hints(),
            Screen::Audit(s) => s.hints(),
            Screen::Week(s) => s.hints(),
            Screen::Inbox(s) => s.hints(),
            Screen::Connect(s) => s.hints(),
            Screen::Queue(s) => s.hints(),
        }
    }

    /// What the footer offers.
    pub fn hints(&self, leader: bool, goto: bool, command: Option<&String>) -> (res: Footer)
        ensures
            self.offered(
                leader,
                goto,
                match command {
                    Some(buf) => Some(buf@),
                    None => None,
                },
                res,
            ),
    {
        if let Some(buf) = command {
            return Footer::Text(render_line(buf.as_str()));
        }
        if leader {
            return Footer::Keys(
                vec![
                    ("1", "home"),
                    ("2", "books"),
                    ("3", "progress"),
                    ("t", "timer"),
                    ("a", "+activity"),
                    ("A", "activities"),
                    ("R", "review"),
                    ("n", "notes"),
                    ("c", "+note"),
                    ("s", "save"),
                ],
            );
        }
        if goto {
            return Footer::Keys(
                vec![
                    ("t", "timer"),
                    ("p", "progress"),
                    ("w", "week"),
                    ("r", "review"),
                    ("i", "inbox"),
                    ("h", "home"),
                    ("b", "books"),
                    ("n", "notes"),
                    ("a", "activities"),
                    ("g", "top"),
                ],
            );
        }
        self.own_hints()
    }
}

/// A screen never turns into another one by itself: only the shell switches
/// screens.
pub proof fn a_screen_stays_itself(
    pre: Screen,
    action: Action,
    now: Moment,
    post: Screen,
    out: Outcome,
)
    requires
        Screen::handled(pre, action, now, post, out),
    ensures
        post.sort() == pre.sort(),
{
}

/// Opening a screen afresh reads what that screen shows, and nothing else.
pub proof fn a_fresh_screen_reads_its_own(fresh: Screen, post: Screen, effects: Seq<Effect>)
    requires
        fresh.fresh(),
        Screen::entered(fresh, post, effects),
    ensures
        post.sort() == fresh.sort(),
        fresh is Login || fresh is BookDetail || fresh is ActivityNew ==> effects.len() == 0,
        fresh is Home ==> effects.len() == 2 && effects.contains(
            Effect::Call(crate::action::Request::LoadToday),
        ) && effects.contains(Effect::Call(crate::action::Request::CountDrafts)),
        fresh is Books ==> effects.len() == 1 && (effects[0] matches Effect::Call(
            crate::action::Request::ListBooks { status, query },
        ) && status == Some(crate::model::BookStatus::Reading) && query is None),
        fresh is Activities ==> effects.len() == 1 && (effects[0] matches Effect::Call(
            crate::action::Request::ListActivities { status, archived, page, .. },
        ) && status is None && !archived && page == 1),
        fresh is Progress ==> effects == seq![
            Effect::Call(crate::action::Request::LoadProgress { offset: 0 }),
        ],
        fresh is Notes ==> effects.len() == 1 && (effects[0] matches Effect::Call(
            crate::action::Request::ListNotes { query, with_archived },
        ) && query is None && !with_archived),
        fresh is Review ==> effects == seq![Effect::Call(crate::action::Request::LoadDashboard)],
        fresh is Settings ==> effects == seq![Effect::Call(crate::action::Request::LoadSettings)],
        fresh is Audit ==> effects.len() == 2 && effects[0] == Effect::Call(
            crate::action::Request::LoadAudit,
        ) && effects[1] == Effect::Call(crate::action::Request::LoadKnobs),
        fresh is Inbox ==> effects == seq![Effect::Call(crate::action::Request::ListDrafts)],
        fresh is Connect ==> effects == seq![Effect::Call(crate::action::Request::ListSources)],
        fresh is Queue ==> effects == seq![Effect::Call(crate::action::Request::LoadQueue)],
        fresh is Timer ==> effects == seq![Effect::EnterShell(ScreenKind::Timer)],
        fresh is Week ==> effects == seq![Effect::EnterShell(ScreenKind::Week)],
{
    if fresh is Home {
        let first = effects[0];
        let second = effects[1];
        assert(effects.contains(first));
        assert(effects.contains(second));
    }
}

/// No two screens have the same title in the chrome but those that share a subject.
pub proof fn the_titles_of_the_screens()
    ensures
        Screen::title_text(ScreenKind::Home) == "Home"@,
        Screen::title_text(ScreenKind::Books) == "Books"@,
        Screen::title_text(ScreenKind::Timer) == "Timer"@,
        Screen::title_text(ScreenKind::Week) == "Week"@,
        Screen::title_text(ScreenKind::Login) == "Sign in"@,
{
}

/// Each screen answers its own actions, by its own rules.
pub proof fn each_screen_answers_for_itself(
    pre: Screen,
    action: Action,
    now: Moment,
    post: Screen,
    out: Outcome,
)
    requires
        Screen::handled(pre, action, now, post, out),
    ensures
        pre matches Screen::Home(s) ==> post is Home && Home::handled(
            s,
            action,
            now.millis,
            post->Home_0,
            out,
        ),
        pre matches Screen::Books(s) ==> post is Books && Books::handled(
            s,
            action,
            post->Books_0,
            out,
        ),
        pre matches Screen::BookDetail(s) ==> post is BookDetail && BookDetail::handled(
            s,
            action,
            post->BookDetail_0,
            out,
        ),
        pre matches Screen::ActivityNew(s) ==> post is ActivityNew && ActivityNew::handled(
            s,
            action,
            now.second,
            post->ActivityNew_0,
            out,
        ),
        pre matches Screen::Activities(s) ==> post is Activities && Activities::handled(
            s,
            action,
            post->Activities_0,
            out,
        ),
        pre matches Screen::Progress(s) ==> post is Progress && Progress::handled(
            s,
            action,
            now.hours,
            post->Progress_0,
            out,
        ),
        pre matches Screen::Notes(s) ==> post is Notes && Notes::handled(
            s,
            action,
            post->Notes_0,
            out,
        ),
        pre matches Screen::Review(s) ==> post is Review && Review::handled(
            *s,
            action,
            *(post->Review_0),
            out,
        ),
        pre matches Screen::Settings(s) ==> post is Settings && Settings::handled(
            s,
            action,
            post->Settings_0,
            out,
        ),
        pre matches Screen::Audit(s) ==> post is Audit && Audit::handled(
            s,
            action,
            post->Audit_0,
            out,
        ),
        pre matches Screen::Inbox(s) ==> post is Inbox && Inbox::handled(
            s,
            action,
            post->Inbox_0,
            out,
        ),
        pre matches Screen::Connect(s) ==> post is Connect && Connect::handled(
            s,
            action,
            post->Connect_0,
            out,
        ),
        pre matches Screen::Queue(s) ==> post is Queue && Queue::handled(
            s,
            action,
            post->Queue_0,
            out,
        ),
        pre is Login ==> post == pre && out.effects@.len() == 0,
{
}

/// Each screen takes the keys that are its own before the keymap does.
pub proof fn each_screen_takes_its_own_keys(
    pre: Screen,
    key: KeyEvent,
    post: Screen,
    res: Option<Action>,
)
    requires
        Screen::intercepted(pre, key, post, res),
    ensures
        post.sort() == pre.sort(),
        pre matches Screen::Inbox(s) ==> res == s.intercepted(key) && post == pre,
        pre matches Screen::Connect(s) ==> res == s.intercepted(key) && post == pre,
        pre matches Screen::Progress(s) ==> res == s.intercepted(key) && post == pre,
        pre matches Screen::BookDetail(s) ==> res == s.intercepted(key) && post == pre,
        pre matches Screen::Books(s) ==> Books::intercepted(s, key, post->Books_0, res),
        pre matches Screen::Activities(s) ==> Activities::intercepted(
            s,
            key,
            post->Activities_0,
            res,
        ),
        pre matches Screen::Notes(s) ==> Notes::intercepted(s, key, post->Notes_0, res),
        pre matches Screen::Review(s) ==> Review::intercepted(*s, key, *(post->Review_0), res),
        pre is Home || pre is Login || pre is Settings || pre is Audit || pre is Queue || pre
            is ActivityNew ==> res is None && post == pre,
{
}

} // verus!
