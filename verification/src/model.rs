//! The records the screens read: plain values, with instants as whole seconds
//! since the Unix epoch.

use crate::line::Tone;
use jiff::civil::Date;
use vstd::prelude::*;

verus! {

// ---- copies ----

/// A copy of an optional text.
pub fn dup_text(s: &Option<String>) -> (res: Option<String>)
    ensures
        res == *s,
{
    match s {
        Some(x) => Some(x.clone()),
        None => None,
    }
}

/// A copy of a list of texts.
pub fn dup_texts(v: &Vec<String>) -> (res: Vec<String>)
    ensures
        res@ == v@,
{
    let mut out: Vec<String> = Vec::new();
    let mut i: usize = 0;
    while i < v.len()
        invariant
            i <= v.len(),
            out@ == v@.take(i as int),
        decreases v.len() - i,
    {
        out.push(v[i].clone());
        assert(out@ =~= v@.take(i as int + 1));
        i = i + 1;
    }
    assert(v@.take(v@.len() as int) =~= v@);
    out
}

// ---- activities ----

/// One logged or planned activity.
#[derive(Debug)]
pub struct Activity {
    pub id: i64,
    pub title: String,
    pub kind: Option<String>,
    pub intent: Option<String>,
    pub bloom_level: Option<String>,
    pub domain_name: Option<String>,
    pub status: Option<String>,
    pub duration_minutes: Option<u32>,
    pub segments_count: Option<u32>,
    pub started_at: Option<i64>,
    pub ended_at: Option<i64>,
    pub archived_at: Option<i64>,
    pub notes_generated: Option<String>,
}

impl Clone for Activity {
    fn clone(&self) -> (res: Self)
        ensures
            res == *self,
    {
        Activity {
            id: self.id,
            title: self.title.clone(),
            kind: dup_text(&self.kind),
            intent: dup_text(&self.intent),
            bloom_level: dup_text(&self.bloom_level),
            domain_name: dup_text(&self.domain_name),
            status: dup_text(&self.status),
            duration_minutes: self.duration_minutes,
            segments_count: self.segments_count,
            started_at: self.started_at,
            ended_at: self.ended_at,
            archived_at: self.archived_at,
            notes_generated: dup_text(&self.notes_generated),
        }
    }
}

impl Activity {
    /// Whether the activity was archived.
    pub fn is_archived(&self) -> (res: bool)
        ensures
            res == (self.archived_at is Some),
    {
        self.archived_at.is_some()
    }
}

/// A row of the activities table: a record with the minutes of the writes still
/// queued for it. A record that itself is still queued has a negative id.
#[derive(Debug)]
pub struct FoldedActivity {
    pub activity: Activity,
    pub queued_minutes: u32,
}

impl Clone for FoldedActivity {
    fn clone(&self) -> (res: Self)
        ensures
            res == *self,
    {
        FoldedActivity { activity: self.activity.clone(), queued_minutes: self.queued_minutes }
    }
}

impl FoldedActivity {
    /// Whether the server has no such record yet.
    pub open spec fn provisional(self) -> bool {
        self.activity.id < 0
    }

    /// Whether the server has no such record yet.
    pub fn is_provisional(&self) -> (res: bool)
        ensures
            res == self.provisional(),
    {
        self.activity.id < 0
    }
}

/// The body of a new activity.
#[derive(Debug)]
pub struct ActivityCreate {
    pub title: String,
    pub kind: Option<String>,
    pub duration_minutes: Option<u32>,
    pub started_at: i64,
    pub notes_generated: Option<String>,
}

/// What the server found wrong with one field of a form.
#[derive(Debug)]
pub struct FieldError {
    pub field: String,
    pub detail: String,
}

// ---- books ----

/// Where a reader stands with a book.
#[derive(Debug, Clone, Copy, PartialEq, Eq, Structural)]
pub enum BookStatus {
    Reading,
    Completed,
    Unread,
    OnHold,
    Abandoned,
}

impl BookStatus {
    /// The value the server knows the status by.
    pub open spec fn wire_text(self) -> Seq<char> {
        match self {
            BookStatus::Reading => "reading"@,
            BookStatus::Completed => "completed"@,
            BookStatus::Unread => "unread"@,
            BookStatus::OnHold => "on_hold"@,
            BookStatus::Abandoned => "abandoned"@,
        }
    }

    /// The value the server knows the status by.
    pub fn wire(self) -> (res: &'static str)
        ensures
            res@ == self.wire_text(),
    {
        match self {
            BookStatus::Reading => "reading",
            BookStatus::Completed => "completed",
            BookStatus::Unread => "unread",
            BookStatus::OnHold => "on_hold",
            BookStatus::Abandoned => "abandoned",
        }
    }

    /// The status in words.
    pub open spec fn label_text(self) -> Seq<char> {
        match self {
            BookStatus::Reading => "reading"@,
            BookStatus::Completed => "completed"@,
            BookStatus::Unread => "unread"@,
            BookStatus::OnHold => "on hold"@,
            BookStatus::Abandoned => "abandoned"@,
        }
    }

    /// The status in words.
    pub fn label(self) -> (res: &'static str)
        ensures
            res@ == self.label_text(),
    {
        match self {
            BookStatus::Reading => "reading",
            BookStatus::Completed => "completed",
            BookStatus::Unread => "unread",
            BookStatus::OnHold => "on hold",
            BookStatus::Abandoned => "abandoned",
        }
    }

    /// The status as the text of its pill.
    pub open spec fn pill_text(self) -> Seq<char> {
        match self {
            BookStatus::Reading => " reading "@,
            BookStatus::Completed => " done "@,
            BookStatus::Unread => " unread "@,
            BookStatus::OnHold => " hold "@,
            BookStatus::Abandoned => " stop "@,
        }
    }

    /// The status as the text of its pill.
    pub fn pill(self) -> (res: &'static str)
        ensures
            res@ == self.pill_text(),
    {
        match self {
            BookStatus::Reading => " reading ",
            BookStatus::Completed => " done ",
            BookStatus::Unread => " unread ",
            BookStatus::OnHold => " hold ",
            BookStatus::Abandoned => " stop ",
        }
    }

    /// The tone of the pill.
    pub open spec fn tone(self) -> Tone {
        match self {
            BookStatus::Reading => Tone::OnAccent,
            BookStatus::Completed => Tone::OnSuccess,
            BookStatus::Unread => Tone::Muted,
            BookStatus::OnHold => Tone::OnWarn,
            BookStatus::Abandoned => Tone::OnDanger,
        }
    }

    /// The tone of the pill.
    pub fn pill_tone(self) -> (res: Tone)
        ensures
            res == self.tone(),
    {
        match self {
            BookStatus::Reading => Tone::OnAccent,
            BookStatus::Completed => Tone::OnSuccess,
            BookStatus::Unread => Tone::Muted,
            BookStatus::OnHold => Tone::OnWarn,
            BookStatus::Abandoned => Tone::OnDanger,
        }
    }
}

/// One book. `progress` is the share read, as the bits of the fraction the
/// server sent; nothing here reads it.
#[derive(Debug)]
pub struct Book {
    pub id: i64,
    pub title: String,
    pub author: Option<String>,
    pub status: BookStatus,
    pub current_page: Option<u32>,
    pub page_count: Option<u32>,
    pub current_chapter_id: Option<i64>,
    pub progress: Option<u64>,
}

impl Clone for Book {
    fn clone(&self) -> (res: Self)
        ensures
            res == *self,
    {
        Book {
            id: self.id,
            title: self.title.clone(),
            author: dup_text(&self.author),
            status: self.status,
            current_page: self.current_page,
            page_count: self.page_count,
            current_chapter_id: self.current_chapter_id,
            progress: self.progress,
        }
    }
}

/// One chapter of a book.
#[derive(Debug)]
pub struct BookChapter {
    pub id: i64,
    pub number: u32,
    pub title: String,
    pub done: bool,
    pub skipped: bool,
}

/// The fields a book write changes; an absent one stays as it is.
#[derive(Debug, Clone, Copy, PartialEq, Eq, Structural)]
pub struct BookUpdate {
    pub status: Option<BookStatus>,
    pub current_page: Option<u32>,
    pub current_chapter_id: Option<i64>,
}

// ---- notes ----

/// A place in a book that a note points at.
#[derive(Debug)]
pub struct Citation {
    pub address_label: Option<String>,
    pub page: Option<u32>,
    pub book_chapter_id: Option<i64>,
    pub book_section_id: Option<i64>,
}

impl Clone for Citation {
    fn clone(&self) -> (res: Self)
        ensures
            res == *self,
    {
        Citation {
            address_label: dup_text(&self.address_label),
            page: self.page,
            book_chapter_id: self.book_chapter_id,
            book_section_id: self.book_section_id,
        }
    }
}

/// One note.
#[derive(Debug)]
pub struct Note {
    pub id: i64,
    pub title: String,
    pub content: Option<String>,
    pub book_id: Option<i64>,
    pub book_title: Option<String>,
    pub archived_at: Option<i64>,
    pub citations: Vec<Citation>,
}

impl Note {
    /// The same note, whichever list holds the citations.
    pub open spec fn alike(self, other: Note) -> bool {
        &&& self.citations@ == other.citations@
        &&& self == Note { citations: self.citations, ..other }
    }
}

impl Clone for Note {
    fn clone(&self) -> (res: Self)
        ensures
            res.alike(*self),
    {
        let mut citations: Vec<Citation> = Vec::new();
        let mut i: usize = 0;
        while i < self.citations.len()
            invariant
                i <= self.citations.len(),
                citations@ == self.citations@.take(i as int),
            decreases self.citations.len() - i,
        {
            citations.push(self.citations[i].clone());
            assert(citations@ =~= self.citations@.take(i as int + 1));
            i = i + 1;
        }
        assert(self.citations@.take(self.citations@.len() as int) =~= self.citations@);
        Note {
            id: self.id,
            title: self.title.clone(),
            content: dup_text(&self.content),
            book_id: self.book_id,
            book_title: dup_text(&self.book_title),
            archived_at: self.archived_at,
            citations,
        }
    }
}

/// The place a written note is pinned to.
#[derive(Debug, Clone, Copy, PartialEq, Eq, Structural)]
pub struct Anchor {
    pub chapter_id: Option<i64>,
    pub section_id: Option<i64>,
    pub page: Option<u32>,
}

/// The body of a note write. Without `anchors` an existing note keeps its
/// citations; with it they are replaced.
#[derive(Debug)]
pub struct NoteInput {
    pub title: String,
    pub content: Option<String>,
    pub book_id: Option<i64>,
    pub anchors: Option<Vec<Anchor>>,
}

/// A section that a note can be pinned to.
#[derive(Debug)]
pub struct AnchorSection {
    pub id: i64,
    pub number: Option<String>,
    pub title: Option<String>,
}

/// A chapter that a note can be pinned to, with its sections.
#[derive(Debug)]
pub struct AnchorChapter {
    pub id: i64,
    pub number: Option<u32>,
    pub title: Option<String>,
    pub sections: Vec<AnchorSection>,
}

/// The chapters of a book that a note can be pinned to.
#[derive(Debug)]
pub struct AnchorData {
    pub chapters: Vec<AnchorChapter>,
}

// ---- review ----

/// The interval in days that each rating would set, where the server says.
#[derive(Debug, Clone, Copy, PartialEq, Eq, Structural)]
pub struct Forecasts {
    pub forgot: Option<i64>,
    pub fuzzy: Option<i64>,
    pub solid: Option<i64>,
    pub instant: Option<i64>,
}

/// A topic under spaced repetition. `notes` are the titles of its notes.
#[derive(Debug)]
pub struct Topic {
    pub subdomain_id: i64,
    pub subdomain_name: Option<String>,
    pub domain_name: Option<String>,
    pub state: String,
    pub review_count: u32,
    pub interval_days: Option<i64>,
    pub last_reviewed_at: Option<i64>,
    pub notes: Vec<String>,
    pub forecasts: Forecasts,
}

impl Topic {
    /// The same topic, whichever list holds the notes.
    pub open spec fn alike(self, other: Topic) -> bool {
        &&& self.notes@ == other.notes@
        &&& self == Topic { notes: self.notes, ..other }
    }
}

impl Clone for Topic {
    fn clone(&self) -> (res: Self)
        ensures
            res.alike(*self),
    {
        Topic {
            subdomain_id: self.subdomain_id,
            subdomain_name: dup_text(&self.subdomain_name),
            domain_name: dup_text(&self.domain_name),
            state: self.state.clone(),
            review_count: self.review_count,
            interval_days: self.interval_days,
            last_reviewed_at: self.last_reviewed_at,
            notes: dup_texts(&self.notes),
            forecasts: self.forecasts,
        }
    }
}

/// The cadence of the reviews so far.
#[derive(Debug, Clone, Copy, PartialEq, Eq, Structural)]
pub struct ReviewStats {
    pub current_streak: u32,
    pub longest_streak: u32,
    pub this_month: u32,
    pub avg_interval: Option<i64>,
}

/// The review dashboard: the cadence and the queue of due topics.
#[derive(Debug)]
pub struct Dashboard {
    pub stats: ReviewStats,
    pub est_minutes: i64,
    pub queue: Vec<Topic>,
}

/// What the server answers a rating: the next due topic, while there is one.
#[derive(Debug)]
pub struct RateResult {
    pub next_topic: Option<Topic>,
}

// ---- drafts ----

/// What a draft is about.
#[derive(Debug)]
pub struct Entity {
    pub name: Option<String>,
    pub kind: Option<String>,
}

/// A draft that an automation proposes. `context` is its JSON value as the wire
/// carried it.
#[derive(Debug)]
pub struct Task {
    pub id: i64,
    pub automation: Option<String>,
    pub prompt: Option<String>,
    pub context: serde_json::Value,
    pub entity: Option<Entity>,
    pub expires_at: Option<i64>,
}

// ---- capture sources ----

/// What stands in the way of connecting a source.
#[derive(Debug)]
pub struct Requirement {
    pub detail: String,
    pub url: Option<String>,
}

/// What a source reads, what it never reads, and the promise made of it.
#[derive(Debug)]
pub struct Trust {
    pub reads: String,
    pub never_reads: String,
    pub promise: String,
}

/// A source that drafts are captured from.
#[derive(Debug)]
pub struct CaptureSource {
    pub key: String,
    pub name: String,
    pub connected: bool,
    pub connectable: bool,
    pub requirement: Option<Requirement>,
    pub trust: Trust,
    pub params: Vec<String>,
}

impl CaptureSource {
    /// The same source, whichever list holds the parameters.
    pub open spec fn alike(self, other: CaptureSource) -> bool {
        &&& self.params@ == other.params@
        &&& self == CaptureSource { params: self.params, ..other }
    }

    /// Whether connecting asks for a feed URL.
    pub open spec fn takes_feed(self) -> bool {
        exists|i: int| 0 <= i < self.params@.len() && #[trigger] self.params@[i]@ == "feed_url"@
    }

    /// Whether connecting asks for a feed URL.
    pub fn wants_feed_url(&self) -> (res: bool)
        ensures
            res == self.takes_feed(),
    {
        let mut i: usize = 0;
        while i < self.params.len()
            invariant
                i <= self.params.len(),
                forall|j: int| 0 <= j < i ==> (#[trigger] self.params@[j])@ != "feed_url"@,
            decreases self.params.len() - i,
        {
            if crate::text::same(self.params[i].as_str(), "feed_url") {
                assert(self.params@[i as int]@ == "feed_url"@);
                return true;
            }
            i = i + 1;
        }
        false
    }
}

impl Clone for CaptureSource {
    fn clone(&self) -> (res: Self)
        ensures
            res.alike(*self),
    {
        let requirement = match &self.requirement {
            Some(r) => Some(Requirement { detail: r.detail.clone(), url: dup_text(&r.url) }),
            None => None,
        };
        CaptureSource {
            key: self.key.clone(),
            name: self.name.clone(),
            connected: self.connected,
            connectable: self.connectable,
            requirement,
            trust: Trust {
                reads: self.trust.reads.clone(),
                never_reads: self.trust.never_reads.clone(),
                promise: self.trust.promise.clone(),
            },
            params: dup_texts(&self.params),
        }
    }
}

// ---- the write queue ----

/// Where a queued write stands.
#[derive(Debug)]
pub enum IntentState {
    Pending,
    Diverged,
    Parked { reason: String },
}

/// A queued write: its verb, the stream it belongs to, and when it was queued.
#[derive(Debug)]
pub struct Intent {
    pub id: u64,
    pub word: String,
    pub stream: String,
    pub queued_at: i64,
    pub state: IntentState,
}

impl Intent {
    /// Whether the server refused the write.
    pub fn is_diverged(&self) -> (res: bool)
        ensures
            res == (self.state is Diverged),
    {
        matches!(self.state, IntentState::Diverged)
    }

    /// Whether the write was set aside.
    pub fn is_parked(&self) -> (res: bool)
        ensures
            res == (self.state is Parked),
    {
        matches!(self.state, IntentState::Parked { .. })
    }
}

/// How a drain of the queue went.
#[derive(Debug, Clone, Copy, PartialEq, Eq, Structural)]
pub struct ReplayReport {
    pub replayed: usize,
    pub diverged: bool,
}

/// The depth of the queue: the writes still in play, and those refused.
#[derive(Debug, Clone, Copy, PartialEq, Eq, Structural)]
pub struct QueueSummary {
    pub in_play: usize,
    pub diverged: usize,
}

// ---- the timer ----

/// The running (or absent) timer.
#[derive(Debug)]
pub struct Timer {
    pub id: Option<i64>,
    pub running: bool,
    pub bound: bool,
    pub paused: bool,
    pub idle: Option<bool>,
    pub over: bool,
    pub label: Option<String>,
    pub elapsed_seconds: i64,
    pub planned_minutes: Option<u32>,
}

impl Clone for Timer {
    fn clone(&self) -> (res: Self)
        ensures
            res == *self,
    {
        Timer {
            id: self.id,
            running: self.running,
            bound: self.bound,
            paused: self.paused,
            idle: self.idle,
            over: self.over,
            label: dup_text(&self.label),
            elapsed_seconds: self.elapsed_seconds,
            planned_minutes: self.planned_minutes,
        }
    }
}

/// The user's timer knobs.
#[derive(Debug)]
pub struct TimerSettings {
    pub timer_mode: String,
    pub focus_work_minutes: u32,
    pub focus_short_break_minutes: u32,
    pub focus_long_break_minutes: u32,
    pub focus_long_break_every: u32,
    pub idle_guard_enabled: bool,
    pub idle_threshold_minutes: u32,
    pub idle_default_reclaim: String,
    pub audit_long_hours: u32,
    pub audit_short_seconds: u32,
    pub audit_badge_enabled: bool,
    pub overrun_ping_enabled: bool,
}

impl Clone for TimerSettings {
    fn clone(&self) -> (res: Self)
        ensures
            res == *self,
    {
        TimerSettings {
            timer_mode: self.timer_mode.clone(),
            focus_work_minutes: self.focus_work_minutes,
            focus_short_break_minutes: self.focus_short_break_minutes,
            focus_long_break_minutes: self.focus_long_break_minutes,
            focus_long_break_every: self.focus_long_break_every,
            idle_guard_enabled: self.idle_guard_enabled,
            idle_threshold_minutes: self.idle_threshold_minutes,
            idle_default_reclaim: self.idle_default_reclaim.clone(),
            audit_long_hours: self.audit_long_hours,
            audit_short_seconds: self.audit_short_seconds,
            audit_badge_enabled: self.audit_badge_enabled,
            overrun_ping_enabled: self.overrun_ping_enabled,
        }
    }
}

// ---- the segment audit ----

/// A segment that the audit flagged.
#[derive(Debug)]
pub struct AuditSegment {
    pub id: i64,
    pub activity_id: i64,
    pub activity_title: Option<String>,
    pub formatted_duration: Option<String>,
    pub flags: Vec<String>,
}

/// The flagged segments, with their count.
#[derive(Debug)]
pub struct AuditRead {
    pub audit_count: u32,
    pub segments: Vec<AuditSegment>,
}

/// What is left of a segment's flags after it was acknowledged.
#[derive(Debug)]
pub struct AuditAcknowledged {
    pub segment_id: i64,
    pub flags: Vec<String>,
    pub audit_count: u32,
}

// ---- weekly targets ----

/// What a weekly target counts.
#[derive(Debug)]
pub enum TargetScope {
    Domain(i64),
    Kind(String),
    Intent(String),
}

impl Clone for TargetScope {
    fn clone(&self) -> (res: Self)
        ensures
            res == *self,
    {
        match self {
            TargetScope::Domain(id) => TargetScope::Domain(*id),
            TargetScope::Kind(k) => TargetScope::Kind(k.clone()),
            TargetScope::Intent(i) => TargetScope::Intent(i.clone()),
        }
    }
}

/// A domain of study.
#[derive(Debug)]
pub struct Domain {
    pub id: i64,
    pub name: String,
}

/// How a target stands against the week so far.
#[derive(Debug, Clone, Copy, PartialEq, Eq, Structural)]
pub enum PaceState {
    Behind,
    OnPace,
    Met,
}

impl PaceState {
    /// The state in a word.
    pub open spec fn word_text(self) -> Seq<char> {
        match self {
            PaceState::Behind => "behind"@,
            PaceState::OnPace => "on pace"@,
            PaceState::Met => "met"@,
        }
    }

    /// The state in a word.
    pub fn word(self) -> (res: &'static str)
        ensures
            res@ == self.word_text(),
    {
        match self {
            PaceState::Behind => "behind",
            PaceState::OnPace => "on pace",
            PaceState::Met => "met",
        }
    }

    /// The tone of the state.
    pub open spec fn tone(self) -> Tone {
        match self {
            PaceState::Behind => Tone::Warn,
            PaceState::OnPace => Tone::Success,
            PaceState::Met => Tone::Accent,
        }
    }

    /// The tone of the state.
    pub fn state_tone(self) -> (res: Tone)
        ensures
            res == self.tone(),
    {
        match self {
            PaceState::Behind => Tone::Warn,
            PaceState::OnPace => Tone::Success,
            PaceState::Met => Tone::Accent,
        }
    }
}

/// One target of the week. `scope` names what it counts; `hours`, `actual` and
/// `delta` are its weekly hours, the hours logged and the gap between the hours
/// logged and the hours expected by now, as shown. `filled` and `expected` are
/// the shares of the bar that are filled and expected by now, as the bits of the
/// fractions; nothing here reads them.
#[derive(Debug)]
pub struct Reading {
    pub id: i64,
    pub scope: String,
    pub hours: String,
    pub state: PaceState,
    pub actual: String,
    pub delta: String,
    pub filled: u64,
    pub expected: u64,
}

/// The hours one kind of work took, as shown.
#[derive(Debug)]
pub struct KindHours {
    pub kind: String,
    pub hours: String,
}

/// The pace of one week. `now_percent` is the share of the week gone by, and
/// `behind_total` the sum of the gaps of the targets that are behind, as shown.
#[derive(Debug)]
pub struct Pace {
    pub week: String,
    pub monday: Date,
    pub elapsed_days: u32,
    pub now_percent: i64,
    pub targets: Vec<Reading>,
    pub behind_total: String,
    pub kind_mix: Vec<KindHours>,
    pub thin: bool,
}

/// A target as the server has it after a write: its scope and its weekly hours,
/// as shown.
#[derive(Debug)]
pub struct DeclaredTarget {
    pub scope: String,
    pub hours: String,
}

// ---- today ----

/// One item of the day's plan.
#[derive(Debug)]
pub struct PlanItem {
    pub title: String,
    pub state: String,
    pub kind: Option<String>,
    pub size_minutes: u32,
    pub logged_minutes: u32,
    pub moved_from: Option<String>,
}

/// The target furthest behind, with how many are. `hours` is its gap in hours,
/// as shown.
#[derive(Debug)]
pub struct Behind {
    pub behind_count: u32,
    pub scope_name: String,
    pub hours: String,
}

/// The chapter a reader meets next.
#[derive(Debug)]
pub struct NextChapter {
    pub number: u32,
    pub title: String,
}

/// A book in progress.
#[derive(Debug)]
pub struct ReadingBook {
    pub title: String,
    pub author: Option<String>,
    pub progress: Option<u64>,
    pub chapters_total: Option<u32>,
    pub next_chapter: Option<NextChapter>,
}

/// The day at a glance.
#[derive(Debug)]
pub struct Today {
    pub day: Date,
    pub weekday: String,
    pub week: String,
    pub timer: Timer,
    pub pace: Option<Behind>,
    pub plan: Vec<PlanItem>,
    pub left_count: u32,
    pub logged_minutes: u32,
    pub due_count: u32,
    pub stale_count: u32,
    pub est_minutes: u32,
    pub reading: Vec<ReadingBook>,
}

// ---- faults ----

/// How a call failed.
#[derive(Debug)]
pub enum FaultKind {
    Unauthorized,
    Transport,
    Problem { status: u16, title: String, detail: String, code: Option<String> },
    Other,
}

/// A failed call, with the failure in words.
#[derive(Debug)]
pub struct Fault {
    pub kind: FaultKind,
    pub shown: String,
}

/// What became of a write: the server has it, it waits in the queue, or it
/// failed.
#[derive(Debug)]
pub enum WriteReply<T> {
    Confirmed(T),
    Provisional(T),
    Failed(Fault),
}

/// A panel that could not be filled: what was not loaded, why, and the key that
/// tries again.
#[derive(Debug)]
pub struct PanelFailure {
    pub headline: String,
    pub reason: String,
    pub retry_key: char,
    pub cached: bool,
}

impl PanelFailure {
    /// The failure to load `what`, for `reason`.
    pub open spec fn of(self, what: Seq<char>, reason: String) -> bool {
        &&& self.headline@ == "couldn't load "@ + what
        &&& self.reason == reason
        &&& self.retry_key == 'r'
        &&& !self.cached
    }

    /// The failure to load `what`, for `reason`.
    pub fn new(what: &str, reason: String) -> (res: Self)
        ensures
            res.of(what@, reason),
    {
        PanelFailure {
            headline: crate::text::cat2("couldn't load ", what),
            reason,
            retry_key: 'r',
            cached: false,
        }
    }
}

/// The words of the statuses on the wire and on screen, no two alike.
pub proof fn the_words_of_the_statuses(a: BookStatus, b: BookStatus)
    ensures
        BookStatus::Reading.wire_text() == "reading"@,
        BookStatus::Completed.wire_text() == "completed"@,
        BookStatus::Unread.wire_text() == "unread"@,
        BookStatus::OnHold.wire_text() == "on_hold"@,
        BookStatus::Abandoned.wire_text() == "abandoned"@,
        a.wire_text() == b.wire_text() ==> a == b,
        a.label_text() == b.label_text() ==> a == b,
{
    reveal_strlit("reading");
    reveal_strlit("completed");
    reveal_strlit("unread");
    reveal_strlit("on_hold");
    reveal_strlit("on hold");
    reveal_strlit("abandoned");
    assert("reading"@[0] == 'r' && "completed"@[0] == 'c' && "unread"@[0] == 'u' && "on_hold"@[0]
        == 'o' && "on hold"@[0] == 'o' && "abandoned"@[0] == 'a');
}

/// A copy holds what it was copied from, field by field.
pub proof fn a_copy_holds_the_same(
    note: Note,
    note_copy: Note,
    topic: Topic,
    topic_copy: Topic,
    source: CaptureSource,
    source_copy: CaptureSource,
)
    requires
        call_ensures(Note::clone, (&note,), note_copy),
        call_ensures(Topic::clone, (&topic,), topic_copy),
        call_ensures(CaptureSource::clone, (&source,), source_copy),
    ensures
        note_copy.id == note.id,
        note_copy.title == note.title,
        note_copy.content == note.content,
        note_copy.book_id == note.book_id,
        note_copy.book_title == note.book_title,
        note_copy.archived_at == note.archived_at,
        note_copy.citations@ == note.citations@,
        topic_copy.subdomain_id == topic.subdomain_id,
        topic_copy.subdomain_name == topic.subdomain_name,
        topic_copy.domain_name == topic.domain_name,
        topic_copy.state == topic.state,
        topic_copy.review_count == topic.review_count,
        topic_copy.interval_days == topic.interval_days,
        topic_copy.last_reviewed_at == topic.last_reviewed_at,
        topic_copy.notes@ == topic.notes@,
        topic_copy.forecasts == topic.forecasts,
        source_copy.key == source.key,
        source_copy.name == source.name,
        source_copy.connected == source.connected,
        source_copy.connectable == source.connectable,
        source_copy.requirement == source.requirement,
        source_copy.trust == source.trust,
        source_copy.params@ == source.params@,
{
}

/// A source asks for a feed exactly where one of its parameters is the feed's, and a copy
/// of it asks for the same.
pub proof fn a_feed_is_asked_for_by_name(source: CaptureSource, other: CaptureSource, i: int)
    requires
        other.alike(source),
    ensures
        0 <= i < source.params@.len() && source.params@[i]@ == "feed_url"@ ==> source.takes_feed(),
        source.takes_feed() ==> source.params@.len() > 0,
        other.takes_feed() == source.takes_feed(),
{
}

/// A panel that failed says what was not loaded and why, and is tried again with `r`.
pub proof fn a_failure_says_what_and_why(what: &str, reason: String, failure: PanelFailure)
    requires
        call_ensures(PanelFailure::new, (what, reason), failure),
    ensures
        failure.headline@ == "couldn't load "@ + what@,
        failure.reason == reason,
        failure.retry_key == 'r',
        !failure.cached,
{
}

} // verus!
