//! The messages the reducers answer, the calls they ask for, and what one step
//! hands back.

use crate::command::TimerVerb;
use crate::dates::now_second;
use crate::keys::KeyEvent;
use crate::model::{
    Activity, ActivityCreate, AnchorData, AuditAcknowledged, AuditRead, Book, BookChapter,
    BookStatus, BookUpdate, CaptureSource, Dashboard, Domain, FieldError, FoldedActivity, Intent,
    Note, NoteInput, Pace, RateResult, ReplayReport, TargetScope, Task, Timer, TimerSettings,
    Today, Topic,
};
use crate::notify::Level;
use crate::screens::board::Board;
use crate::screens::review::Rating;
use crate::screens::ScreenKind;
use vstd::prelude::*;

verus! {

/// Reducer-style messages dispatched by the key layer and by finished calls.
#[derive(Debug)]
#[allow(inconsistent_fields)]
pub enum Action {
    Quit,
    Goto(ScreenKind),
    SetUser(String),
    FetchMe,
    Notify { level: Level, text: String },
    DismissNotification,

    // Signing in
    Login,
    LoginSucceeded,
    LoginFailed(String),
    /// The sign-in flow could not start at all.
    LoginServerError(String),
    /// A call was refused for want of a valid session.
    SessionExpired,

    // Home
    TodayLoaded(Box<Today>),
    HomeLoadFailed(String),
    RefreshHome,
    /// How many drafts are pending, and whether one is near its expiry.
    HomeInboxLoaded { pending: usize, expiring: bool },

    // Books
    BooksLoaded(Vec<Book>),
    BooksLoadFailed(String),
    BooksFilter(BooksFilter),
    BooksSearchInput(char),
    BooksSearchBackspace,
    BooksSearchSubmit,
    BooksSearchCancel,
    BooksMove(i32),
    /// Step to the next (or previous) loaded row that the live query matches.
    BooksMatchStep(i32),
    BooksJumpStart,
    BooksJumpEnd,
    BooksOpen,
    BooksPickerOpen,
    BooksPickerKey(KeyEvent),

    // Book detail
    BookDetailLoaded { book: Box<Book>, chapters: Vec<BookChapter> },
    BookDetailLoadFailed(String),
    ChapterMove(i32),
    ToggleChapterDone,
    BeginEditPage,
    EditPageInput(char),
    EditPageBackspace,
    SubmitPage,
    CancelEdit,
    BookStatusPicker,
    BookStatusMove(i32),
    BookStatusSelect(BookStatus),
    BookStatusConfirm,
    BookStatusCancel,
    BookUpdated(Box<Book>),

    // New activity
    ActivityFieldNext,
    ActivityFieldPrev,
    ActivityEnterInsert,
    ActivityLeaveInsert,
    ActivityKey(KeyEvent),
    ActivitySubmit,
    ActivityCreated,
    ActivityFailed { errors: Vec<FieldError>, detail: String },

    // Progress
    ProgressLoaded(Box<Pace>),
    ProgressLoadFailed(String),
    ProgressWeekStep(i32),
    ProgressWeekReset,
    RefreshProgress,
    ProgressFoldCycle,
    ProgressSelectMove(i32),
    ProgressAdjustBegin,
    ProgressAdjustInput(char),
    ProgressAdjustBackspace,
    ProgressAdjustSubmit,
    ProgressAdjustCancel,
    ProgressRetire,
    ProgressDeclareBegin,
    ProgressDeclareReady(Vec<Domain>),
    ProgressDeclareKey(KeyEvent),
    /// A target declared offline waits in the queue under this line.
    ProgressDeclareQueued(String),

    // Timer
    RefreshTimer,
    TimerLoaded(Box<Timer>),
    /// The poll fell back on the cache and the queue: for the header alone.
    TimerStale(Box<Timer>),
    /// An offline write landed in the queue, with the clock it implies.
    TimerProvisional(Box<Timer>),
    /// The drain acknowledged one queued write.
    ReplayProgress { word: String },
    ReplayFinished(ReplayReport),
    /// The first diverged write of the queue, where there is one.
    TimerDivergedLoaded(Option<Box<Intent>>),
    TimerReconcileBoth,
    TimerReconcileEdit,
    TimerReconcileDrop,
    TimerReconcileSkip,
    TimerReconcileEditApply { intent_id: u64, buffer: String },
    QueueIntentEdit { intent_id: u64, seed: String },
    TimerCleared,
    TimerReload,
    TimerSave,
    TimerPauseResume,
    TimerStop,
    TimerToggleRail,
    TimerModeSwitch,
    TimerSkipInterval,
    TimerBreak,
    /// The minutes logged today.
    TimerTodayLoaded(u32),
    /// The minutes of each day of the week, Monday first.
    TimerWeekLoaded(Vec<u32>),
    /// The timer was stopped; the board holds the record.
    TimerStopped,
    TimerDismissStopped,
    TimerDiscard,
    TimerBindBegin,
    TimerBindInput(char),
    TimerBindBackspace,
    TimerBindMove(i32),
    TimerBindSubmit,
    TimerBindCancel,
    TimerPickerToggleMode,
    /// What the timer can be bound to came in; the board holds the list.
    TimerCandidatesLoaded,
    TimerUndo,
    TimerUndone,

    // Timer settings
    SettingsLoaded(Box<TimerSettings>),
    SettingsLoadFailed(String),
    SettingsReload,

    // Week board
    /// The week came in; the board holds it.
    WeekLoaded,
    WeekLoadFailed(String),
    WeekStep(i32),
    WeekReset,
    RefreshWeek,
    WeekSelectMove(i32),
    WeekAddBegin,
    WeekAdjustBegin,
    WeekInputChar(char),
    WeekInputBackspace,
    WeekInputSubmit,
    WeekInputCancel,
    WeekDrop,
    WeekStartTimer,
    /// A plan declared offline waits in the queue under this title.
    WeekPlanQueued(String),
    WeekReflect,
    WeekReflectEdit { iso_week: String, seed: String },
    WeekReflectSave { iso_week: String, body: String },
    WeekReflectAbort,
    /// A reflection written offline waits in the queue.
    WeekReflectQueued(String),

    // Boards
    /// What the shell shows of a board now: the keys it takes and its footer.
    BoardShown { kind: ScreenKind, board: Box<Board> },
    /// A key that the board took.
    BoardKey(KeyEvent),

    // Segment audit
    AuditLoaded(Box<AuditRead>),
    AuditLoadFailed(String),
    AuditReload,
    AuditMove(i32),
    AuditAcknowledge,
    AuditAcknowledged(Box<AuditAcknowledged>),
    AuditTrim,
    AuditDelete,
    AuditFix,

    // Activities table
    ActivitiesLoaded { items: Vec<FoldedActivity>, page: u32, per_page: u32, total: u32 },
    ActivitiesLoadFailed(String),
    ActivitiesMove(i32),
    ActivitiesJumpStart,
    ActivitiesJumpEnd,
    ActivitiesPageNext,
    ActivitiesPagePrev,
    ActivitiesCycleFilter,
    ActivitiesSearchInput(char),
    ActivitiesSearchBackspace,
    ActivitiesSearchSubmit,
    ActivitiesSearchCancel,
    ActivitiesOpenDetail,
    ActivitiesDetailLoaded(Box<Activity>),
    ActivitiesCloseDetail,
    ActivitiesComplete,
    ActivitiesArchive,
    ActivitiesDuplicate,
    ActivitiesStartTimer,
    RefreshActivities,

    // Notes browser
    NotesLoaded(Vec<Note>),
    NotesMove(i32),
    NotesJumpStart,
    NotesJumpEnd,
    NotesSearchInput(char),
    NotesSearchBackspace,
    NotesSearchSubmit,
    NotesSearchCancel,
    NotesOpenDetail,
    NotesDetailLoaded(Box<Note>),
    NotesCloseDetail,
    NotesToggleArchived,
    NotesArchiveSelected,
    NotesEditSelected,
    NotesUnlinkSelected,
    NotesDeleteArm,
    NotesDeleteConfirm,
    NotesDeleteDisarm,
    RefreshNotes,

    // Review
    ReviewDashboardLoaded(Box<Dashboard>),
    ReviewLoadFailed(String),
    RefreshReview,
    ReviewOpenDashboard,
    ReviewOpenBrowse,
    ReviewStartSitting,
    ReviewExitSitting,
    ReviewRate(Rating),
    ReviewRated(Box<RateResult>),
    ReviewRateFailed,
    ReviewBrowseLoaded { items: Vec<Topic>, page: u32, per_page: u32, total: u32 },
    ReviewBrowseMove(i32),
    ReviewBrowseJumpStart,
    ReviewBrowseJumpEnd,
    ReviewBrowsePageNext,
    ReviewBrowsePagePrev,
    ReviewBrowseCycleSort,
    ReviewBrowseSearchInput(char),
    ReviewBrowseSearchBackspace,
    ReviewBrowseSearchSubmit,
    ReviewBrowseSearchCancel,
    ReviewBrowseOpenDetail,
    ReviewBrowseDetailLoaded(Box<Topic>),
    ReviewBrowseCloseDetail,

    // Inbox
    InboxLoaded(Vec<Task>),
    InboxLoadFailed(String),
    RefreshInbox,
    InboxMove(i32),
    InboxOpen,
    InboxCloseDetail,
    InboxDraftStep(i32),
    InboxAccept,
    InboxAck,
    InboxRejectBegin,
    InboxRejectInput(char),
    InboxRejectBackspace,
    InboxRejectSubmit,
    InboxRejectCancel,
    InboxActionFailed,

    // Connect
    ConnectLoaded(Vec<CaptureSource>),
    ConnectLoadFailed(String),
    RefreshConnect,
    ConnectMove(i32),
    ConnectBegin,
    ConnectDisconnectBegin,
    ConnectSync,
    ConnectPromptSubmit,
    ConnectPromptCancel,
    ConnectFeedInput(char),
    ConnectFeedBackspace,
    ConnectActionFailed,

    // Queue inspector
    QueueLoaded(Vec<Intent>),
    QueueLoadFailed(String),
    QueueRefresh,
    QueueSelectMove(i32),
    QueueRetry,
    QueueDropSelected,
    QueueOpenReconcile,

    // Quick capture
    CaptureOpen,
    CaptureOpenText(String),
    CaptureOpenEdit(Box<Note>),
    CaptureClose,
    CaptureSaved,
    CaptureKey(KeyEvent),
    CaptureEditExternal,
    CaptureSave,
    CaptureSaveFailed,
    CaptureCancel,
    CaptureFieldNext,
    CaptureFieldPrev,
    CaptureBookInput(char),
    CaptureBookBackspace,
    CaptureBookMove(i32),
    CaptureBookPickerSubmit,
    CaptureBookPickerClose,
    CaptureBookResults(Vec<Book>),
    CaptureAnchorPickerOpen,
    CaptureAnchorPickerClose,
    CaptureAnchorPickerSubmit,
    CaptureAnchorMove(i32),
    CaptureAnchorInput(char),
    CaptureAnchorBackspace,
    CaptureAnchorDataLoaded(Box<AnchorData>),
    CaptureAnchorDataFailed(String),

    // Command line
    CommandBegin,
    CommandInput,
    CommandBackspace,
    CommandSubmit,
    CommandCancel,
}

/// Which shelf the books screen lists.
#[derive(Debug, Clone, Copy, PartialEq, Eq, Structural)]
pub enum BooksFilter {
    All,
    Reading,
    Completed,
}

/// A triage verb, with what its call needs.
#[derive(Debug)]
pub enum TriageVerb {
    Accept,
    Acknowledge,
    Reject(Option<String>),
}

/// A source verb, with what its call needs.
#[derive(Debug)]
pub enum SourceVerb {
    Connect { key: String, feed: Option<String> },
    Disconnect { key: String },
    Sync { key: String },
}

/// A call that a step asks the shell to make. The answer comes back as actions.
#[derive(Debug)]
#[allow(inconsistent_fields)]
pub enum Request {
    // Shell
    FetchMe,
    LoadKnobs,
    PollTimer,
    SignIn,
    Heartbeat,
    PaletteTimer(TimerVerb),
    ShowLogDir,
    // Home
    LoadToday,
    CountDrafts,
    // Books
    ListBooks { status: Option<BookStatus>, query: Option<String> },
    ListChapters(Box<Book>),
    UpdateBook { current: Box<Book>, update: BookUpdate, done: Option<String>, queued: String },
    // Activities
    CreateActivity(ActivityCreate),
    ListActivities { status: Option<&'static str>, archived: bool, page: u32, per_page: u32 },
    GetActivity(i64),
    CompleteActivity { id: i64, title: String },
    ArchiveActivity { id: i64, archived: bool },
    DuplicateActivity { id: i64, title: String },
    StartTimer { id: i64, title: String },
    // Progress
    LoadProgress { offset: i32 },
    AdjustTarget { id: i64, hours: u64 },
    RetireTarget { id: i64 },
    ListDomains,
    DeclareTarget { scope: TargetScope, hours: u64, scope_name: String },
    // Notes
    ListNotes { query: Option<String>, with_archived: bool },
    GetNote(i64),
    ArchiveNote { id: i64, archived: bool },
    UnlinkNote(i64),
    DeleteNote(i64),
    // Review
    LoadDashboard,
    ListTopics { sort: &'static str, query: Option<String>, page: u32 },
    GetTopic(i64),
    RateTopic { id: i64, rating: Rating },
    // Inbox and sources
    ListDrafts,
    Triage { id: i64, verb: TriageVerb },
    ListSources,
    Source(SourceVerb),
    // Queue
    LoadQueue,
    RetryQueue,
    DropIntent(u64),
    // Settings and audit
    LoadSettings,
    LoadAudit,
    AcknowledgeSegment(i64),
    TrimSegment { activity_id: i64, segment_id: i64, minutes: u32 },
    DeleteSegment { activity_id: i64, segment_id: i64 },
    // Quick capture
    SaveNote { editing: Option<i64>, input: NoteInput },
    SearchBooks(Option<String>),
    LoadAnchors(i64),
}

/// What a step asks of the shell, in order: queue an action, make a call, or
/// hand an event to a screen that the shell itself keeps.
#[derive(Debug)]
pub enum Effect {
    Send(Action),
    Call(Request),
    Shell(Action),
    EnterShell(ScreenKind),
}

/// What the shell knows at the instant of a step: a monotonic clock in
/// milliseconds, the wall clock in seconds, and the hours typed so far as the
/// bits of the number they spell, where they spell one.
#[derive(Debug, Clone, Copy, PartialEq, Eq, Structural)]
pub struct Moment {
    pub millis: u64,
    pub second: i64,
    pub hours: Option<u64>,
}

impl Moment {
    /// The instant at this reading of the monotonic clock, with the hours typed.
    /// The wall clock is the system's.
    pub fn at(millis: u64, hours: Option<u64>) -> (res: Self)
        ensures
            res.millis == millis,
            res.hours == hours,
    {
        Moment { millis, second: now_second(), hours }
    }
}

/// What one step of a screen hands back besides its new state: a notice, and
/// the effects it asks for.
#[derive(Debug)]
pub struct Outcome {
    pub note: Option<(Level, String)>,
    pub effects: Vec<Effect>,
}

impl Outcome {
    /// Nothing to say and nothing to do.
    pub open spec fn quiet(self) -> bool {
        self.note is None && self.effects@ == Seq::<Effect>::empty()
    }

    /// Exactly this notice, and nothing to do.
    pub open spec fn says(self, level: Level, text: Seq<char>) -> bool {
        self.noted(level, text) && self.effects@ == Seq::<Effect>::empty()
    }

    /// Exactly this notice, whatever there is to do.
    pub open spec fn noted(self, level: Level, text: Seq<char>) -> bool {
        &&& self.note is Some
        &&& (self.note->0).0 == level
        &&& (self.note->0).1@ == text
    }

    /// Nothing to say, and exactly these effects.
    pub open spec fn asks(self, effects: Seq<Effect>) -> bool {
        self.note is None && self.effects@ == effects
    }

    /// Nothing to say and nothing to do.
    pub fn none() -> (res: Self)
        ensures
            res.quiet(),
    {
        Outcome { note: None, effects: Vec::new() }
    }

    /// A notice alone.
    pub fn say(level: Level, text: String) -> (res: Self)
        ensures
            res.says(level, text@),
            (res.note->0).1 == text,
    {
        Outcome { note: Some((level, text)), effects: Vec::new() }
    }

    /// One effect alone.
    pub fn ask(effect: Effect) -> (res: Self)
        ensures
            res.asks(seq![effect]),
    {
        let mut effects: Vec<Effect> = Vec::new();
        effects.push(effect);
        assert(effects@ =~= seq![effect]);
        Outcome { note: None, effects }
    }

    /// One call alone.
    pub fn call(request: Request) -> (res: Self)
        ensures
            res.asks(seq![Effect::Call(request)]),
    {
        Outcome::ask(Effect::Call(request))
    }

    /// One action alone.
    pub fn send(action: Action) -> (res: Self)
        ensures
            res.asks(seq![Effect::Send(action)]),
    {
        Outcome::ask(Effect::Send(action))
    }
}

/// Whether an action is exactly this notice.
pub open spec fn notifies(action: Action, level: Level, text: Seq<char>) -> bool {
    action matches Action::Notify { level: l, text: t } && l == level && t@ == text
}

/// The action that puts up a notice.
pub fn notice(level: Level, text: String) -> (res: Action)
    ensures
        res == (Action::Notify { level, text }),
        notifies(res, level, text@),
{
    Action::Notify { level, text }
}

/// A list of one.
pub fn one(a: Action) -> (res: Vec<Action>)
    ensures
        res@ == seq![a],
{
    let mut v: Vec<Action> = Vec::new();
    v.push(a);
    assert(v@ =~= seq![a]);
    v
}

/// A list of two.
pub fn two(a: Action, b: Action) -> (res: Vec<Action>)
    ensures
        res@ == seq![a, b],
{
    let mut v: Vec<Action> = Vec::new();
    v.push(a);
    v.push(b);
    assert(v@ =~= seq![a, b]);
    v
}

/// A list of three.
pub fn three(a: Action, b: Action, c: Action) -> (res: Vec<Action>)
    ensures
        res@ == seq![a, b, c],
{
    let mut v: Vec<Action> = Vec::new();
    v.push(a);
    v.push(b);
    v.push(c);
    assert(v@ =~= seq![a, b, c]);
    v
}

/// An outcome hands over what it was made from: a notice with its level and its words,
/// an effect, or nothing.
pub proof fn an_outcome_carries_what_it_was_made_from(
    level: Level,
    text: String,
    request: Request,
    action: Action,
    said: Outcome,
    called: Outcome,
    sent: Outcome,
    quiet: Outcome,
)
    requires
        call_ensures(Outcome::say, (level, text), said),
        call_ensures(Outcome::call, (request,), called),
        call_ensures(Outcome::send, (action,), sent),
        call_ensures(Outcome::none, (), quiet),
    ensures
        said.note == Some((level, text)),
        said.effects@.len() == 0,
        called.note is None,
        called.effects@.len() == 1,
        called.effects@[0] == Effect::Call(request),
        sent.note is None,
        sent.effects@.len() == 1,
        sent.effects@[0] == Effect::Send(action),
        quiet.note is None,
        quiet.effects@.len() == 0,
{
}

} // verus!
