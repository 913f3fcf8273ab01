//! The shell's state, and how it answers an action: notices, signing in, the
//! header's timer, the overlay, the command line, and the screen behind them.

use crate::action::{notice, notifies, Action, Effect, Moment, Outcome, Request};
use crate::capture::QuickCapture;
use crate::clock::{clock_face, face_text, live_elapsed, live_seconds};
use crate::command::{
    help_summary, help_text, parse, parsed, Command, CommandModel, Parse, ParseModel, TimerVerb,
};
use crate::dates::{format_minutes, minutes_text};
use crate::edit::{at_end, draft_text};
use crate::event::{translate, translated};
use crate::keys::{Event, KeyCode, KeyEvent};
use crate::line::{Footer, Line, Tone};
use crate::model::{Fault, FaultKind, QueueSummary, ReplayReport, Timer, TimerSettings};
use crate::notify::{Level, Notification};
use crate::screens::login::{Login, State};
use crate::screens::{Screen, ScreenKind};
use crate::text::{
    blank, cat2, cat3, cat4, cat5, decimal, holds, join, join_words, joined, own, show, stands_at,
    texts, trim,
};
use vstd::prelude::*;

verus! {

/// How long the header's timer stands between two polls, in milliseconds.
pub const TIMER_POLL_INTERVAL: u64 = 15_000;

/// Below this width the header's clock drops its label.
pub const NARROW: u16 = 70;

/// How long two presence beats are apart at least, in milliseconds.
pub const HEARTBEAT_INTERVAL: u64 = 60_000;

/// What the external editor is opened for.
#[derive(Debug)]
pub enum EditorTarget {
    Capture,
    WeekNote { iso_week: String },
    QueueIntent { intent_id: u64 },
}

/// A text that waits for the external editor.
#[derive(Debug)]
pub struct PendingEditor {
    pub seed: String,
    pub target: EditorTarget,
}

/// What came back from the external editor.
#[derive(Debug)]
pub enum EditorOutcome {
    Saved(String),
    Aborted,
}

/// The state of the shell. Instants are readings of a monotonic clock in
/// milliseconds.
pub struct App {
    pub user: Option<String>,
    pub current: Screen,
    pub notification: Option<Notification>,
    pub leader_pending: bool,
    pub goto_pending: bool,
    pub command_buffer: Option<String>,
    pub capture: Option<QuickCapture>,
    pub should_quit: bool,
    pub timer: Option<Timer>,
    /// When the header's timer was read.
    pub timer_base: Option<u64>,
    /// The header's timer was put together from the cache and the queue.
    pub timer_stale: bool,
    pub timer_last_poll: u64,
    pub queued_writes: usize,
    pub queue_diverged: bool,
    pub settings: Option<TimerSettings>,
    /// The timer that was last called out for running past its plan.
    pub overrun_pinged: Option<i64>,
    pub heartbeat_last: u64,
    pub pending_editor: Option<PendingEditor>,
    /// The queued writes replayed so far by the drain under way.
    pub reconnect_words: Vec<String>,
}

/// Whether a notice went up.
pub open spec fn noticed(n: Option<Notification>, level: Level, text: Seq<char>, at: u64) -> bool {
    n matches Some(x) && x.level == level && x.text@ == text && x.since == at
}

/// The actions that the capture overlay answers.
pub open spec fn for_capture(action: Action) -> bool {
    ||| action is CaptureKey
    ||| action is CaptureSave
    ||| action is CaptureSaveFailed
    ||| action is CaptureCancel
    ||| action is CaptureFieldNext
    ||| action is CaptureFieldPrev
    ||| action is CaptureBookInput
    ||| action is CaptureBookBackspace
    ||| action is CaptureBookMove
    ||| action is CaptureBookPickerSubmit
    ||| action is CaptureBookPickerClose
    ||| action is CaptureBookResults
    ||| action is CaptureAnchorPickerOpen
    ||| action is CaptureAnchorPickerClose
    ||| action is CaptureAnchorPickerSubmit
    ||| action is CaptureAnchorMove
    ||| action is CaptureAnchorInput
    ||| action is CaptureAnchorBackspace
    ||| action is CaptureAnchorDataLoaded
    ||| action is CaptureAnchorDataFailed
}

fn is_for_capture(action: &Action) -> (res: bool)
    ensures
        res == for_capture(*action),
{
    matches!(
        action,
        Action::CaptureKey(_) | Action::CaptureSave | Action::CaptureSaveFailed
            | Action::CaptureCancel | Action::CaptureFieldNext | Action::CaptureFieldPrev
            | Action::CaptureBookInput(_) | Action::CaptureBookBackspace
            | Action::CaptureBookMove(_) | Action::CaptureBookPickerSubmit
            | Action::CaptureBookPickerClose | Action::CaptureBookResults(_)
            | Action::CaptureAnchorPickerOpen | Action::CaptureAnchorPickerClose
            | Action::CaptureAnchorPickerSubmit | Action::CaptureAnchorMove(_)
            | Action::CaptureAnchorInput(_) | Action::CaptureAnchorBackspace
            | Action::CaptureAnchorDataLoaded(_) | Action::CaptureAnchorDataFailed(_)
    )
}

/// How many queued writes were reconciled, in words.
pub open spec fn reconciled_text(n: nat) -> Seq<char> {
    if n == 1 {
        "1 queued write reconciled"@
    } else {
        decimal(n) + " queued writes reconciled"@
    }
}

/// How many queued writes were reconciled, in words.
pub fn writes_reconciled(n: usize) -> (res: String)
    ensures
        res@ == reconciled_text(n as nat),
{
    if n == 1 {
        own("1 queued write reconciled")
    } else {
        cat2(show(n as u64).as_str(), " queued writes reconciled")
    }
}

/// What a timer past its plan is called out with.
pub open spec fn overrun_text(t: Timer) -> Seq<char> {
    "past the plan — planned "@ + minutes_text(
        match t.planned_minutes {
            Some(m) => m as nat,
            None => 0,
        },
    ) + ", all-in over it now · s wraps up & saves"@
}

fn overrun_notice(t: &Timer) -> (res: String)
    ensures
        res@ == overrun_text(*t),
{
    let planned: u32 = match t.planned_minutes {
        Some(m) => m,
        None => 0,
    };
    cat3(
        "past the plan — planned ",
        format_minutes(planned).as_str(),
        ", all-in over it now · s wraps up & saves",
    )
}

impl App {
    /// The screen and the overlay keep their invariants.
    pub open spec fn wf(self) -> bool {
        &&& self.current.wf()
        &&& self.capture matches Some(cap) ==> cap.wf()
    }

    /// Whether the screen can answer an action.
    pub open spec fn admits(self, action: Action) -> bool {
        self.current.admits(action)
    }

    /// Whether the screen can answer an action.
    pub fn can_take(&self, action: &Action) -> (res: bool)
        ensures
            res == self.admits(*action),
    {
        self.current.can_take(action)
    }

    /// The text whose number an action turns on, for the shell to read.
    pub open spec fn hours_read(self, action: Action) -> Option<Seq<char>> {
        match self.current {
            Screen::Progress(s) => s.hours_read(action),
            _ => None,
        }
    }

    /// The text whose number an action turns on, for the shell to read.
    pub fn hours_typed(&self, action: &Action) -> (res: Option<String>)
        ensures
            match self.hours_read(*action) {
                Some(t) => res is Some && res->0@ == t,
                None => res is None,
            },
    {
        match &self.current {
            Screen::Progress(s) => s.hours_typed(action),
            _ => None,
        }
    }

    /// The state with another command line.
    pub open spec fn retyped(self, pre: App, text: Seq<char>) -> bool {
        &&& self == App { command_buffer: self.command_buffer, ..pre }
        &&& self.command_buffer is Some
        &&& self.command_buffer->0@ == text
    }

    /// The state with another notice.
    pub open spec fn says(self, pre: App, level: Level, text: Seq<char>, at: u64) -> bool {
        &&& self == App { notification: self.notification, ..pre }
        &&& noticed(self.notification, level, text, at)
    }

    /// The state after a step handed back a notice, or none.
    pub open spec fn told(self, pre: App, out: Outcome, at: u64) -> bool {
        match out.note {
            Some((level, text)) => self.says(pre, level, text@, at),
            None => self == pre,
        }
    }

    /// A shell on a fresh screen of this kind: nobody signed in, nothing open,
    /// nothing pending.
    pub open spec fn idle_on(self, kind: ScreenKind, at: u64) -> bool {
        &&& self.user is None
        &&& self.current.sort() == kind
        &&& self.notification is None
        &&& !self.leader_pending
        &&& !self.goto_pending
        &&& self.command_buffer is None
        &&& self.capture is None
        &&& !self.should_quit
        &&& self.timer is None
        &&& self.timer_base is None
        &&& !self.timer_stale
        &&& self.timer_last_poll == at
        &&& self.queued_writes == 0
        &&& !self.queue_diverged
        &&& self.settings is None
        &&& self.overrun_pinged is None
        &&& self.heartbeat_last == at
        &&& self.pending_editor is None
        &&& self.reconnect_words@ == Seq::<String>::empty()
    }

    /// The shell as it starts, at home or at the sign-in.
    pub open spec fn started(self, logged_in: bool, at: u64) -> bool {
        self.idle_on(
            if logged_in {
                ScreenKind::Home
            } else {
                ScreenKind::Login
            },
            at,
        )
    }

    /// A shell on a fresh screen.
    pub fn on(kind: ScreenKind, at: u64) -> (res: Self)
        ensures
            res.wf(),
            res.idle_on(kind, at),
            res.current.fresh(),
    {
        App {
            user: None,
            current: Screen::new(kind),
            notification: None,
            leader_pending: false,
            goto_pending: false,
            command_buffer: None,
            capture: None,
            should_quit: false,
            timer: None,
            timer_base: None,
            timer_stale: false,
            timer_last_poll: at,
            queued_writes: 0,
            queue_diverged: false,
            settings: None,
            overrun_pinged: None,
            heartbeat_last: at,
            pending_editor: None,
            reconnect_words: Vec::new(),
        }
    }

    /// The shell as it starts, with what it asks for: who is signed in and the
    /// timer, where someone is, and what fills the first screen.
    pub fn start(logged_in: bool, at: u64) -> (res: (Self, Vec<Effect>))
        ensures
            res.0.wf(),
            res.0.started(logged_in, at),
            exists|fresh: Screen, rest: Seq<Effect>|
                {
                    &&& fresh.fresh()
                    &&& fresh.sort() == res.0.current.sort()
                    &&& #[trigger] Screen::entered(fresh, res.0.current, rest)
                    &&& res.1@ == (if logged_in {
                        seq![Effect::Send(Action::FetchMe), Effect::Send(Action::RefreshTimer)]
                            + rest
                    } else {
                        rest
                    })
                },
    {
        let kind = if logged_in {
            ScreenKind::Home
        } else {
            ScreenKind::Login
        };
        let mut app = App::on(kind, at);
        let ghost fresh = app.current;
        let mut out: Vec<Effect> = Vec::new();
        if logged_in {
            out.push(Effect::Send(Action::FetchMe));
            out.push(Effect::Send(Action::RefreshTimer));
        }
        let ghost head = out@;
        let mut rest = app.current.on_enter();
        let ghost tail = rest@;
        out.append(&mut rest);
        proof {
            assert(Screen::entered(fresh, app.current, tail));
            if logged_in {
                assert(head =~= seq![
                    Effect::Send(Action::FetchMe),
                    Effect::Send(Action::RefreshTimer),
                ]);
            } else {
                assert(out@ =~= tail);
            }
        }
        (app, out)
    }

    /// Put up a notice.
    pub fn notify(&mut self, level: Level, text: String, at: u64)
        ensures
            final(self).says(*old(self), level, text@, at),
    {
        self.notification = Some(Notification::new(level, text, at));
    }

    // ---- the command line ----

    /// Whether a timer runs that is bound to nothing.
    pub open spec fn runs_unbound(self) -> bool {
        self.timer matches Some(t) && t.running && !t.bound
    }

    /// What running a command does.
    pub open spec fn executed(
        pre: App,
        command: CommandModel,
        at: u64,
        post: App,
        effects: Seq<Effect>,
    ) -> bool {
        match command {
            CommandModel::Nav(kind) => {
                post == pre && effects == seq![Effect::Send(Action::Goto(kind))]
            },
            CommandModel::Timer(verb) => if verb == TimerVerb::Stop && pre.runs_unbound() {
                &&& post.says(
                    pre,
                    Level::Warning,
                    "an unbound timer can't be stopped — bind or discard it first"@,
                    at,
                )
                &&& effects == Seq::<Effect>::empty()
            } else {
                post == pre && effects == seq![Effect::Call(Request::PaletteTimer(verb))]
            },
            CommandModel::Note(None) => {
                post == pre && effects == seq![Effect::Send(Action::CaptureOpen)]
            },
            CommandModel::Note(Some(text)) => {
                &&& post == pre
                &&& effects.len() == 1
                &&& effects[0] matches Effect::Send(Action::CaptureOpenText(t)) && t@ == text
            },
            CommandModel::Log => {
                &&& post == pre
                &&& effects == seq![Effect::Send(Action::Goto(ScreenKind::ActivityNew))]
            },
            CommandModel::Target => {
                &&& post == pre
                &&& effects == seq![
                    Effect::Send(Action::Goto(ScreenKind::Progress)),
                    Effect::Send(Action::ProgressDeclareBegin),
                ]
            },
            CommandModel::Quit => {
                post == App { should_quit: true, ..pre } && effects == Seq::<Effect>::empty()
            },
            CommandModel::Write => {
                post == pre && effects == seq![Effect::Send(Action::ActivitySubmit)]
            },
            CommandModel::Logs => {
                post == pre && effects == seq![Effect::Call(Request::ShowLogDir)]
            },
            CommandModel::Logout => {
                &&& post.says(pre, Level::Info, "run `engineer logout` from the shell"@, at)
                &&& effects == Seq::<Effect>::empty()
            },
            CommandModel::Help => {
                &&& post.says(pre, Level::Info, help_text(), at)
                &&& effects == Seq::<Effect>::empty()
            },
        }
    }

    /// What a submitted command line does: it runs, or says why it does not.
    pub open spec fn commanded(
        pre: App,
        line: Seq<char>,
        at: u64,
        post: App,
        effects: Seq<Effect>,
    ) -> bool {
        match parsed(line) {
            ParseModel::Empty => post == pre && effects == Seq::<Effect>::empty(),
            ParseModel::Run(command) => Self::executed(pre, command, at, post, effects),
            ParseModel::Unknown(verb) => {
                &&& post.says(pre, Level::Warning, "unknown :"@ + verb + " — try :help"@, at)
                &&& effects == Seq::<Effect>::empty()
            },
            ParseModel::Ambiguous(matches) => {
                &&& post.says(
                    pre,
                    Level::Warning,
                    "ambiguous — "@ + joined(matches, " · "@),
                    at,
                )
                &&& effects == Seq::<Effect>::empty()
            },
            ParseModel::BadArg { verb, expected, got } => {
                &&& post.says(
                    pre,
                    Level::Warning,
                    ":"@ + verb + " "@ + got + "? — try "@ + joined(expected, "|"@),
                    at,
                )
                &&& effects == Seq::<Effect>::empty()
            },
            ParseModel::AmbiguousArg { verb, matches } => {
                &&& post.says(
                    pre,
                    Level::Warning,
                    ":"@ + verb + " "@ + joined(matches, " or "@) + "?"@,
                    at,
                )
                &&& effects == Seq::<Effect>::empty()
            },
        }
    }

    fn execute_command(&mut self, command: Command, at: u64) -> (out: Vec<Effect>)
        ensures
            Self::executed(*old(self), command@, at, *final(self), out@),
    {
        match command {
            Command::Nav(kind) => Outcome::send(Action::Goto(kind)).effects,
            Command::Timer(verb) => {
                let unbound = match &self.timer {
                    Some(t) => t.running && !t.bound,
                    None => false,
                };
                if verb == TimerVerb::Stop && unbound {
                    self.notify(
                        Level::Warning,
                        own("an unbound timer can't be stopped — bind or discard it first"),
                        at,
                    );
                    return Vec::new();
                }
                Outcome::call(Request::PaletteTimer(verb)).effects
            },
            Command::Note(None) => Outcome::send(Action::CaptureOpen).effects,
            Command::Note(Some(text)) => Outcome::send(Action::CaptureOpenText(text)).effects,
            Command::Log => Outcome::send(Action::Goto(ScreenKind::ActivityNew)).effects,
            Command::Target => {
                let mut out = Outcome::send(Action::Goto(ScreenKind::Progress)).effects;
                out.push(Effect::Send(Action::ProgressDeclareBegin));
                assert(out@ =~= seq![
                    Effect::Send(Action::Goto(ScreenKind::Progress)),
                    Effect::Send(Action::ProgressDeclareBegin),
                ]);
                out
            },
            Command::Quit => {
                self.should_quit = true;
                Vec::new()
            },
            Command::Write => Outcome::send(Action::ActivitySubmit).effects,
            Command::Logs => Outcome::call(Request::ShowLogDir).effects,
            Command::Logout => {
                self.notify(Level::Info, own("run `engineer logout` from the shell"), at);
                Vec::new()
            },
            Command::Help => {
                self.notify(Level::Info, help_summary(), at);
                Vec::new()
            },
        }
    }

    /// Run a submitted command line.
    pub fn run_command(&mut self, line: &str, at: u64) -> (out: Vec<Effect>)
        ensures
            Self::commanded(*old(self), line@, at, *final(self), out@),
            final(self).current == old(self).current,
            final(self).capture == old(self).capture,
    {
        match parse(line) {
            Parse::Empty => Vec::new(),
            Parse::Run(command) => self.execute_command(command, at),
            Parse::Unknown(verb) => {
                let text = cat3("unknown :", verb.as_str(), " — try :help");
                self.notify(Level::Warning, text, at);
                Vec::new()
            },
            Parse::Ambiguous(matches) => {
                let list = join_words(&matches, " · ");
                self.notify(Level::Warning, cat2("ambiguous — ", list.as_str()), at);
                Vec::new()
            },
            Parse::BadArg { verb, expected, got } => {
                let list = join_words(&expected, "|");
                let head = cat4(":", verb, " ", got.as_str());
                self.notify(
                    Level::Warning,
                    cat3(head.as_str(), "? — try ", list.as_str()),
                    at,
                );
                Vec::new()
            },
            Parse::AmbiguousArg { verb, matches } => {
                let list = join_words(&matches, " or ");
                self.notify(Level::Warning, cat5(":", verb, " ", list.as_str(), "?"), at);
                Vec::new()
            },
        }
    }

    // ---- actions ----

    /// The screen took an action, its notice dropped.
    pub open spec fn passed(
        pre: App,
        action: Action,
        now: Moment,
        post: App,
        effects: Seq<Effect>,
    ) -> bool {
        &&& post == App { current: post.current, ..pre }
        &&& exists|out: Outcome|
            #[trigger] Screen::handled(pre.current, action, now, post.current, out) && effects
                == out.effects@
    }

    /// The screen took an action, and its notice is put up.
    pub open spec fn routed(
        pre: App,
        action: Action,
        now: Moment,
        post: App,
        effects: Seq<Effect>,
    ) -> bool {
        exists|out: Outcome|
            {
                &&& #[trigger] Screen::handled(pre.current, action, now, post.current, out)
                &&& effects == out.effects@
                &&& post.told(App { current: post.current, ..pre }, out, now.millis)
            }
    }

    /// The overlay took an action, and its notice is put up.
    pub open spec fn captured(
        pre: App,
        action: Action,
        now: Moment,
        post: App,
        effects: Seq<Effect>,
    ) -> bool {
        match pre.capture {
            None => post == pre && effects == Seq::<Effect>::empty(),
            Some(cap) => post.capture is Some && exists|out: Outcome|
                {
                    &&& #[trigger] QuickCapture::handled(cap, action, post.capture->0, out)
                    &&& effects == out.effects@
                    &&& post.told(App { capture: post.capture, ..pre }, out, now.millis)
                },
        }
    }

    /// Whether a timer is to be called out for running past its plan: once for
    /// each timer.
    pub open spec fn overruns(self, t: Timer) -> bool {
        t.over && t.id is Some && self.overrun_pinged != t.id
    }

    /// The state with a live timer in the header, called out where it overruns.
    pub open spec fn timed(pre: App, t: Timer, at: u64, post: App) -> bool {
        let read = App { timer: Some(t), timer_base: Some(at), timer_stale: false, ..pre };
        if pre.overruns(t) {
            post.says(App { overrun_pinged: t.id, ..read }, Level::Warning, overrun_text(t), at)
        } else {
            post == read
        }
    }

    /// How the shell answers an action at a moment. What it has no use for goes
    /// to the screen.
    pub open spec fn handled(
        pre: App,
        action: Action,
        now: Moment,
        post: App,
        effects: Seq<Effect>,
    ) -> bool {
        let at = now.millis;
        let silent = effects == Seq::<Effect>::empty();
        match action {
            Action::Quit => post == App { should_quit: true, ..pre } && silent,
            Action::Notify { level, text } => post.says(pre, level, text@, at) && silent,
            Action::DismissNotification => post == App { notification: None, ..pre } && silent,
            Action::FetchMe => post == pre && effects == seq![Effect::Call(Request::FetchMe)],
            Action::SetUser(email) => {
                &&& post == App { user: Some(email), ..pre }
                &&& effects == (if pre.settings is None {
                    seq![Effect::Call(Request::LoadKnobs)]
                } else {
                    Seq::empty()
                })
            },
            Action::RefreshTimer => post == pre && effects == seq![Effect::Call(Request::PollTimer)],
            Action::TimerLoaded(t) => exists|mid: App|
                {
                    &&& #[trigger] App::timed(pre, *t, at, mid)
                    &&& App::passed(mid, action, now, post, effects)
                },
            Action::TimerStale(t) => {
                &&& post == App {
                    timer: Some(*t),
                    timer_base: Some(at),
                    timer_stale: true,
                    ..pre
                }
                &&& silent
            },
            Action::TimerProvisional(t) => App::passed(
                App { timer: Some(*t), timer_base: Some(at), timer_stale: false, ..pre },
                action,
                now,
                post,
                effects,
            ),
            Action::ReplayProgress { word } => {
                let words = pre.reconnect_words@.push(word);
                &&& post.says(
                    App { reconnect_words: post.reconnect_words, ..pre },
                    Level::Info,
                    "back online · replaying the queue… "@ + joined(texts(words), " · "@),
                    at,
                )
                &&& post.reconnect_words@ == words
                &&& silent
            },
            Action::ReplayFinished(report) => {
                let calm = App { reconnect_words: post.reconnect_words, ..pre };
                &&& post.reconnect_words@ == Seq::<String>::empty()
                &&& if report.replayed >= 1 && !report.diverged {
                    post.says(
                        calm,
                        Level::Success,
                        "synced — "@ + reconciled_text(report.replayed as nat),
                        at,
                    )
                } else if pre.reconnect_words@.len() > 0 {
                    post == App { notification: None, ..calm }
                } else {
                    post == calm
                }
                &&& silent
            },
            Action::SettingsLoaded(s) => App::passed(
                App { settings: Some(*s), ..pre },
                action,
                now,
                post,
                effects,
            ),
            Action::TimerCleared => {
                &&& post == App { timer: None, timer_base: None, timer_stale: false, ..pre }
                &&& silent
            },
            Action::Login => {
                &&& post == App {
                    current: match pre.current {
                        Screen::Login(_) => Screen::Login(Login { state: State::Pending }),
                        _ => pre.current,
                    },
                    ..pre
                }
                &&& effects == seq![Effect::Call(Request::SignIn)]
            },
            Action::LoginSucceeded => {
                &&& post.says(pre, Level::Success, "signed in"@, at)
                &&& effects == seq![
                    Effect::Send(Action::Goto(ScreenKind::Home)),
                    Effect::Send(Action::FetchMe),
                ]
            },
            Action::LoginFailed(e) => {
                &&& post.says(
                    App {
                        current: match pre.current {
                            Screen::Login(_) => Screen::Login(Login { state: State::Idle }),
                            _ => pre.current,
                        },
                        ..pre
                    },
                    Level::Error,
                    "login failed: "@ + e@,
                    at,
                )
                &&& silent
            },
            Action::LoginServerError(e) => {
                &&& post == App {
                    current: Screen::Login(Login { state: State::ServerError(e) }),
                    ..pre
                }
                &&& silent
            },
            Action::SessionExpired => {
                &&& post == App {
                    capture: None,
                    current: Screen::Login(Login { state: State::Expired }),
                    ..pre
                }
                &&& silent
            },
            Action::Goto(kind) => {
                &&& post == App { current: post.current, ..pre }
                &&& exists|fresh: Screen|
                    {
                        &&& #[trigger] Screen::entered(fresh, post.current, effects)
                        &&& fresh.sort() == kind
                        &&& fresh.fresh()
                    }
            },
            Action::CaptureOpen => {
                &&& post == App { capture: post.capture, ..pre }
                &&& post.capture matches Some(cap) && cap.blank_draft()
                    && draft_text(cap.content) == Seq::<char>::empty() && at_end(cap.content)
                &&& silent
            },
            Action::CaptureOpenText(text) => {
                &&& post == App { capture: post.capture, ..pre }
                &&& post.capture matches Some(cap) && cap.blank_draft()
                    && draft_text(cap.content) == text@ && at_end(cap.content)
                &&& silent
            },
            Action::CaptureOpenEdit(note) => {
                &&& post == App { capture: post.capture, ..pre }
                &&& post.capture matches Some(cap) && cap.opened_on(*note)
                &&& silent
            },
            Action::CaptureClose => post == App { capture: None, ..pre } && silent,
            Action::CaptureSaved => {
                &&& post.says(App { capture: None, ..pre }, Level::Success, "note saved"@, at)
                &&& effects == (if pre.current is Notes {
                    seq![Effect::Send(Action::RefreshNotes)]
                } else {
                    Seq::empty()
                })
            },
            Action::CaptureEditExternal => {
                &&& match pre.capture {
                    Some(cap) => {
                        &&& post == App {
                            capture: Some(QuickCapture { confirm_discard: false, ..cap }),
                            pending_editor: post.pending_editor,
                            ..pre
                        }
                        &&& post.pending_editor matches Some(p) && p.target is Capture && p.seed@
                            == draft_text(cap.content)
                    },
                    None => post == pre,
                }
                &&& silent
            },
            Action::WeekReflectEdit { iso_week, seed } => {
                &&& post == App {
                    pending_editor: Some(
                        PendingEditor { seed, target: EditorTarget::WeekNote { iso_week } },
                    ),
                    ..pre
                }
                &&& silent
            },
            Action::QueueIntentEdit { intent_id, seed } => {
                &&& post == App {
                    pending_editor: Some(
                        PendingEditor { seed, target: EditorTarget::QueueIntent { intent_id } },
                    ),
                    ..pre
                }
                &&& silent
            },
            Action::CommandBegin => post == pre && silent,
            Action::CommandInput => post == pre && silent,
            Action::CommandBackspace => post == pre && silent,
            Action::CommandCancel => post == App { command_buffer: None, ..pre } && silent,
            Action::CommandSubmit => App::commanded(
                App { command_buffer: None, ..pre },
                match pre.command_buffer {
                    Some(buf) => buf@,
                    None => Seq::empty(),
                },
                at,
                post,
                effects,
            ),
            _ => if for_capture(action) {
                App::captured(pre, action, now, post, effects)
            } else {
                App::routed(pre, action, now, post, effects)
            },
        }
    }

    fn pass_on(&mut self, action: Action, now: Moment) -> (out: Vec<Effect>)
        requires
            old(self).wf(),
            old(self).admits(action),
        ensures
            final(self).wf(),
            App::passed(*old(self), action, now, *final(self), out@),
    {
        let ghost pre = *self;
        let step = self.current.handle(action, now);
        assert(Screen::handled(pre.current, action, now, self.current, step));
        step.effects
    }

    fn route(&mut self, action: Action, now: Moment) -> (out: Vec<Effect>)
        requires
            old(self).wf(),
            old(self).admits(action),
        ensures
            final(self).wf(),
            App::routed(*old(self), action, now, *final(self), out@),
    {
        let ghost pre = *self;
        let step = self.current.handle(action, now);
        let ghost whole = step;
        assert(Screen::handled(pre.current, action, now, self.current, whole));
        if let Some((level, text)) = step.note {
            self.notify(level, text, now.millis);
        }
        step.effects
    }

    fn overlay(&mut self, action: Action, now: Moment) -> (out: Vec<Effect>)
        requires
            old(self).wf(),
        ensures
            final(self).wf(),
            App::captured(*old(self), action, now, *final(self), out@),
    {
        let ghost pre = *self;
        let step = match &mut self.capture {
            Some(cap) => cap.handle(action),
            None => {
                return Vec::new();
            },
        };
        let ghost whole = step;
        assert(QuickCapture::handled(pre.capture->0, action, self.capture->0, whole));
        if let Some((level, text)) = step.note {
            self.notify(level, text, now.millis);
        }
        step.effects
    }

    fn timer_loaded(&mut self, t: Box<Timer>, now: Moment) -> (out: Vec<Effect>)
        requires
            old(self).wf(),
        ensures
            final(self).wf(),
            App::handled(*old(self), Action::TimerLoaded(t), now, *final(self), out@),
    {
        let ghost pre = *self;
        let fresh_id = match (t.id, self.overrun_pinged) {
            (Some(id), Some(last)) => id != last,
            (Some(_), None) => true,
            _ => false,
        };
        if t.over && fresh_id {
            self.overrun_pinged = t.id;
            self.notify(Level::Warning, overrun_notice(&t), now.millis);
        }
        self.timer = Some((*t).clone());
        self.timer_base = Some(now.millis);
        self.timer_stale = false;
        assert(App::timed(pre, *t, now.millis, *self));
        self.pass_on(Action::TimerLoaded(t), now)
    }

    fn replay_progress(&mut self, word: String, at: u64)
        ensures
            final(self).says(
                App { reconnect_words: final(self).reconnect_words, ..*old(self) },
                Level::Info,
                "back online · replaying the queue… "@ + joined(
                    texts(old(self).reconnect_words@.push(word)),
                    " · "@,
                ),
                at,
            ),
            final(self).reconnect_words@ == old(self).reconnect_words@.push(word),
    {
        self.reconnect_words.push(word);
        let list = join(&self.reconnect_words, " · ");
        let text = cat2("back online · replaying the queue… ", list.as_str());
        self.notify(Level::Info, text, at);
    }

    fn replay_finished(&mut self, report: ReplayReport, now: Moment)
        ensures
            App::handled(
                *old(self),
                Action::ReplayFinished(report),
                now,
                *final(self),
                Seq::empty(),
            ),
    {
        let showed = self.reconnect_words.len() > 0;
        self.reconnect_words = Vec::new();
        if report.replayed >= 1 && !report.diverged {
            let text = cat2("synced — ", writes_reconciled(report.replayed).as_str());
            self.notify(Level::Success, text, now.millis);
        } else if showed {
            self.notification = None;
        }
    }

    fn goto(&mut self, kind: ScreenKind, now: Moment) -> (out: Vec<Effect>)
        requires
            old(self).wf(),
        ensures
            final(self).wf(),
            App::handled(*old(self), Action::Goto(kind), now, *final(self), out@),
    {
        self.current = Screen::new(kind);
        let ghost fresh = self.current;
        let out = self.current.on_enter();
        assert(Screen::entered(fresh, self.current, out@));
        out
    }

    fn capture_saved(&mut self, now: Moment) -> (out: Vec<Effect>)
        requires
            old(self).wf(),
        ensures
            final(self).wf(),
            App::handled(*old(self), Action::CaptureSaved, now, *final(self), out@),
    {
        self.capture = None;
        self.notify(Level::Success, own("note saved"), now.millis);
        match &self.current {
            Screen::Notes(_) => Outcome::send(Action::RefreshNotes).effects,
            _ => Vec::new(),
        }
    }

    fn signing_in(&mut self, action: Action, now: Moment) -> (out: Vec<Effect>)
        requires
            old(self).wf(),
            action is Login || action is LoginSucceeded || action is LoginFailed
                || action is LoginServerError || action is SessionExpired,
        ensures
            final(self).wf(),
            App::handled(*old(self), action, now, *final(self), out@),
    {
        match action {
            Action::Login => {
                if let Screen::Login(s) = &mut self.current {
                    s.set_pending();
                }
                Outcome::call(Request::SignIn).effects
            },
            Action::LoginSucceeded => {
                self.notify(Level::Success, own("signed in"), now.millis);
                let mut out = Outcome::send(Action::Goto(ScreenKind::Home)).effects;
                out.push(Effect::Send(Action::FetchMe));
                assert(out@ =~= seq![
                    Effect::Send(Action::Goto(ScreenKind::Home)),
                    Effect::Send(Action::FetchMe),
                ]);
                out
            },
            Action::LoginFailed(e) => {
                if let Screen::Login(s) = &mut self.current {
                    s.set_idle();
                }
                self.notify(Level::Error, cat2("login failed: ", e.as_str()), now.millis);
                Vec::new()
            },
            Action::LoginServerError(e) => {
                let mut login = Login::default();
                login.set_server_error(e);
                self.current = Screen::Login(login);
                Vec::new()
            },
            _ => {
                self.capture = None;
                let mut login = Login::default();
                login.set_expired();
                self.current = Screen::Login(login);
                Vec::new()
            },
        }
    }

    fn stash_for_editor(&mut self, action: Action, now: Moment)
        requires
            old(self).wf(),
            action is CaptureEditExternal || action is WeekReflectEdit || action is QueueIntentEdit,
        ensures
            final(self).wf(),
            App::handled(*old(self), action, now, *final(self), Seq::empty()),
    {
        match action {
            Action::CaptureEditExternal => {
                if let Some(cap) = &mut self.capture {
                    let seed = cap.body();
                    cap.confirm_discard = false;
                    self.pending_editor = Some(
                        PendingEditor { seed, target: EditorTarget::Capture },
                    );
                }
            },
            Action::WeekReflectEdit { iso_week, seed } => {
                self.pending_editor = Some(
                    PendingEditor { seed, target: EditorTarget::WeekNote { iso_week } },
                );
            },
            Action::QueueIntentEdit { intent_id, seed } => {
                self.pending_editor = Some(
                    PendingEditor { seed, target: EditorTarget::QueueIntent { intent_id } },
                );
            },
            _ => {},
        }
    }

    /// How the shell answers an action at a moment.
    #[verifier::rlimit(60)]
    #[verifier::spinoff_prover]
    pub fn handle(&mut self, action: Action, now: Moment) -> (out: Vec<Effect>)
        requires
            old(self).wf(),
            old(self).admits(action),
        ensures
            final(self).wf(),
            App::handled(*old(self), action, now, *final(self), out@),
    {
        let at: u64 = now.millis;
        match action {
            Action::Quit => self.should_quit = true,
            Action::Notify { level, text } => self.notify(level, text, at),
            Action::DismissNotification => self.notification = None,
            Action::FetchMe => {
                return Outcome::call(Request::FetchMe).effects;
            },
            Action::SetUser(email) => {
                self.user = Some(email);
                if self.settings.is_none() {
                    return Outcome::call(Request::LoadKnobs).effects;
                }
            },
            Action::RefreshTimer => {
                return Outcome::call(Request::PollTimer).effects;
            },
            Action::TimerLoaded(t) => {
                return self.timer_loaded(t, now);
            },
            Action::TimerStale(t) => {
                self.timer = Some(*t);
                self.timer_base = Some(at);
                self.timer_stale = true;
            },
            Action::TimerProvisional(t) => {
                self.timer = Some((*t).clone());
                self.timer_base = Some(at);
                self.timer_stale = false;
                return self.pass_on(Action::TimerProvisional(t), now);
            },
            Action::ReplayProgress { word } => self.replay_progress(word, at),
            Action::ReplayFinished(report) => self.replay_finished(report, now),
            Action::SettingsLoaded(s) => {
                self.settings = Some((*s).clone());
                return self.pass_on(Action::SettingsLoaded(s), now);
            },
            Action::TimerCleared => {
                self.timer = None;
                self.timer_base = None;
                self.timer_stale = false;
            },
            Action::Login | Action::LoginSucceeded | Action::LoginFailed(_)
            | Action::LoginServerError(_) | Action::SessionExpired => {
                return self.signing_in(action, now);
            },
            Action::Goto(kind) => {
                return self.goto(kind, now);
            },
            Action::CaptureOpen => self.capture = Some(QuickCapture::new()),
            Action::CaptureOpenText(text) => {
                self.capture = Some(QuickCapture::with_text(text.as_str()));
            },
            Action::CaptureOpenEdit(note) => self.capture = Some(QuickCapture::for_edit(*note)),
            Action::CaptureClose => self.capture = None,
            Action::CaptureSaved => {
                return self.capture_saved(now);
            },
            Action::CaptureEditExternal | Action::WeekReflectEdit { .. }
            | Action::QueueIntentEdit { .. } => self.stash_for_editor(action, now),
            Action::CommandBegin | Action::CommandInput | Action::CommandBackspace => {},
            Action::CommandCancel => self.command_buffer = None,
            Action::CommandSubmit => {
                let line = match self.command_buffer.take() {
                    Some(buf) => buf,
                    None => String::new(),
                };
                return self.run_command(line.as_str(), at);
            },
            other => {
                if is_for_capture(&other) {
                    return self.overlay(other, now);
                }
                return self.route(other, now);
            },
        }
        Vec::new()
    }
}

impl App {
    // ---- the external editor ----

    /// What a text that came back from the editor does.
    pub open spec fn edited(
        pre: App,
        target: EditorTarget,
        outcome: EditorOutcome,
        at: u64,
        post: App,
        effects: Seq<Effect>,
    ) -> bool {
        match (target, outcome) {
            (EditorTarget::Capture, EditorOutcome::Saved(text)) => {
                &&& effects == Seq::<Effect>::empty()
                &&& match pre.capture {
                    Some(cap) => if blank(text@) {
                        post == pre
                    } else {
                        &&& post == App { capture: post.capture, ..pre }
                        &&& post.capture matches Some(c) && c == QuickCapture {
                            content: c.content,
                            ..cap
                        } && draft_text(c.content) == text@ && at_end(c.content)
                    },
                    None => post == pre,
                }
            },
            (EditorTarget::Capture, EditorOutcome::Aborted) => {
                post == pre && effects == Seq::<Effect>::empty()
            },
            (EditorTarget::WeekNote { iso_week }, EditorOutcome::Saved(body)) => {
                &&& post == pre
                &&& effects == seq![Effect::Send(Action::WeekReflectSave { iso_week, body })]
            },
            (EditorTarget::WeekNote { iso_week: _ }, EditorOutcome::Aborted) => {
                post == pre && effects == seq![Effect::Send(Action::WeekReflectAbort)]
            },
            (EditorTarget::QueueIntent { intent_id }, EditorOutcome::Saved(buffer)) => {
                &&& post == pre
                &&& effects == seq![
                    Effect::Send(Action::TimerReconcileEditApply { intent_id, buffer }),
                ]
            },
            (EditorTarget::QueueIntent { intent_id: _ }, EditorOutcome::Aborted) => {
                &&& post.says(
                    pre,
                    Level::Info,
                    "edit aborted — nothing changed, the queued write stays diverged"@,
                    at,
                )
                &&& effects == Seq::<Effect>::empty()
            },
        }
    }

    /// Hand a text that came back from the editor to what asked for it.
    pub fn route_editor_outcome(
        &mut self,
        target: EditorTarget,
        outcome: EditorOutcome,
        at: u64,
    ) -> (out: Vec<Effect>)
        requires
            old(self).wf(),
        ensures
            final(self).wf(),
            App::edited(*old(self), target, outcome, at, *final(self), out@),
    {
        match target {
            EditorTarget::Capture => {
                if let EditorOutcome::Saved(text) = outcome {
                    if !trim(text.as_str()).as_str().is_empty() {
                        if let Some(cap) = &mut self.capture {
                            cap.set_content(text.as_str());
                        }
                    }
                }
                Vec::new()
            },
            EditorTarget::WeekNote { iso_week } => match outcome {
                EditorOutcome::Saved(body) => Outcome::send(
                    Action::WeekReflectSave { iso_week, body },
                ).effects,
                EditorOutcome::Aborted => Outcome::send(Action::WeekReflectAbort).effects,
            },
            EditorTarget::QueueIntent { intent_id } => match outcome {
                EditorOutcome::Saved(buffer) => Outcome::send(
                    Action::TimerReconcileEditApply { intent_id, buffer },
                ).effects,
                EditorOutcome::Aborted => {
                    self.notify(
                        Level::Info,
                        own("edit aborted — nothing changed, the queued write stays diverged"),
                        at,
                    );
                    Vec::new()
                },
            },
        }
    }

    // ---- the clock ----

    /// Whether a span has gone by between two readings of the clock.
    pub open spec fn elapsed(since: u64, now: u64, span: u64) -> bool {
        now - since >= span
    }

    /// Whether the presence of the user is worth telling: someone is signed in
    /// and a timer runs that nobody paused or left.
    pub open spec fn active(self) -> bool {
        &&& self.user is Some
        &&& self.timer matches Some(t) && t.running && !t.paused && t.idle != Some(true)
    }

    /// A beat is sent while the user is active, and no sooner than the interval
    /// after the last one.
    pub open spec fn beaten(pre: App, at: u64, post: App, effects: Seq<Effect>) -> bool {
        if pre.active() && Self::elapsed(pre.heartbeat_last, at, HEARTBEAT_INTERVAL) {
            &&& post == App { heartbeat_last: at, ..pre }
            &&& effects == seq![Effect::Call(Request::Heartbeat)]
        } else {
            post == pre && effects == Seq::<Effect>::empty()
        }
    }

    /// Tell the server that the user is there, where that is worth telling.
    pub fn beat_presence_if_active(&mut self, at: u64) -> (out: Vec<Effect>)
        ensures
            App::beaten(*old(self), at, *final(self), out@),
    {
        let active = match (&self.user, &self.timer) {
            (Some(_), Some(t)) => {
                let idle = match t.idle {
                    Some(i) => i,
                    None => false,
                };
                t.running && !t.paused && !idle
            },
            _ => false,
        };
        if !active || at < self.heartbeat_last || at - self.heartbeat_last < HEARTBEAT_INTERVAL {
            return Vec::new();
        }
        self.heartbeat_last = at;
        Outcome::call(Request::Heartbeat).effects
    }

    /// What an event of the terminal does: any key is a sign of presence, and a
    /// key press may mean an action.
    pub open spec fn received(
        pre: App,
        ev: Event,
        at: u64,
        post: App,
        action: Option<Action>,
        effects: Seq<Effect>,
    ) -> bool {
        if ev is Key {
            exists|mid: App|
                #[trigger] App::beaten(pre, at, mid, effects) && translated(mid, ev, post, action)
        } else {
            translated(pre, ev, post, action) && effects == Seq::<Effect>::empty()
        }
    }

    /// Take an event of the terminal.
    pub fn on_terminal_event(&mut self, ev: Event, at: u64) -> (res: (Option<Action>, Vec<Effect>))
        requires
            old(self).wf(),
        ensures
            final(self).wf(),
            App::received(*old(self), ev, at, *final(self), res.0, res.1@),
    {
        let ghost pre = *self;
        let effects = match ev {
            Event::Key { key: _, press: _ } => self.beat_presence_if_active(at),
            Event::Other => Vec::new(),
        };
        proof {
            if ev is Key {
                assert(App::beaten(pre, at, *self, effects@));
            }
        }
        let action = translate(self, ev);
        (action, effects)
    }

    /// What a tick of the clock does: an expired notice goes, the timer is polled
    /// where it is due, and the depth of the queue is taken over.
    pub open spec fn ticked(
        pre: App,
        at: u64,
        summary: Option<QueueSummary>,
        post: App,
        effects: Seq<Effect>,
    ) -> bool {
        let due = pre.user is Some && Self::elapsed(pre.timer_last_poll, at, TIMER_POLL_INTERVAL);
        &&& post == App {
            notification: match pre.notification {
                Some(n) => if n.expired(at) {
                    None
                } else {
                    pre.notification
                },
                None => None,
            },
            timer_last_poll: if due {
                at
            } else {
                pre.timer_last_poll
            },
            queued_writes: match summary {
                Some(s) => s.in_play,
                None => 0,
            },
            queue_diverged: match summary {
                Some(s) => s.diverged > 0,
                None => false,
            },
            ..pre
        }
        &&& effects == (if due {
            seq![Effect::Send(Action::RefreshTimer)]
        } else {
            Seq::empty()
        })
    }

    /// Take a notice down once it has stood long enough.
    pub fn expire_stale_notification(&mut self, at: u64)
        ensures
            *final(self) == (App {
                notification: match old(self).notification {
                    Some(n) => if n.expired(at) {
                        None
                    } else {
                        old(self).notification
                    },
                    None => None,
                },
                ..*old(self)
            }),
    {
        let gone = match &self.notification {
            Some(n) => n.is_expired(at),
            None => false,
        };
        if gone {
            self.notification = None;
        }
    }

    /// Take a tick of the clock. `summary` says how deep the queue is, where it
    /// can be read.
    pub fn on_tick(&mut self, at: u64, summary: Option<QueueSummary>) -> (out: Vec<Effect>)
        requires
            old(self).wf(),
        ensures
            final(self).wf(),
            App::ticked(*old(self), at, summary, *final(self), out@),
    {
        self.expire_stale_notification(at);
        match summary {
            Some(s) => {
                self.queued_writes = s.in_play;
                self.queue_diverged = s.diverged > 0;
            },
            None => {
                self.queued_writes = 0;
                self.queue_diverged = false;
            },
        }
        if self.user.is_some() && at >= self.timer_last_poll && at - self.timer_last_poll
            >= TIMER_POLL_INTERVAL {
            self.timer_last_poll = at;
            return Outcome::send(Action::RefreshTimer).effects;
        }
        Vec::new()
    }

    // ---- the chrome ----

    /// The model of a clock face, where there is one.
    pub open spec fn clock_text(clock: Option<Line>) -> Option<Seq<(Tone, Seq<char>)>> {
        match clock {
            Some(c) => Some(c@),
            None => None,
        }
    }

    /// The header's timer cell round the clock that the shell draws: a mark where
    /// the timer is stale, the depth of the queue, and the diverged badge.
    pub open spec fn cell_text(self, clock: Option<Seq<(Tone, Seq<char>)>>) -> Option<
        Seq<(Tone, Seq<char>)>,
    > {
        let face = if self.timer is Some && clock is Some {
            clock->0 + (if self.timer_stale {
                seq![(Tone::Muted, " ~"@)]
            } else {
                Seq::empty()
            }) + (if self.queued_writes > 0 {
                seq![(Tone::Accent, " ↑"@ + decimal(self.queued_writes as nat))]
            } else {
                Seq::empty()
            })
        } else {
            Seq::empty()
        };
        let whole = face + (if self.queue_diverged {
            (if face.len() > 0 {
                seq![(Tone::Plain, " "@)]
            } else {
                Seq::empty()
            }).push((Tone::OnDangerBold, " diverged "@))
        } else {
            Seq::empty()
        });
        if whole.len() == 0 {
            None
        } else {
            Some(whole)
        }
    }

    /// The header's timer cell round the clock that the shell draws.
    pub fn timer_cell(&self, clock: Option<Line>) -> (res: Option<Line>)
        ensures
            match self.cell_text(Self::clock_text(clock)) {
                Some(t) => res is Some && res->0@ == t,
                None => res is None,
            },
    {
        let ghost shown = Self::clock_text(clock);
        let mut line = Line::empty();
        if self.timer.is_some() {
            if let Some(c) = clock {
                line = c;
                if self.timer_stale {
                    line = line.with(Tone::Muted, own(" ~"));
                }
                if self.queued_writes > 0 {
                    let n = show(self.queued_writes as u64);
                    line = line.with(Tone::Accent, cat2(" ↑", n.as_str()));
                }
            }
        }
        let ghost face = line@;
        assert(line.spans@.len() == line@.len());
        if self.queue_diverged {
            if line.spans.len() > 0 {
                line = line.with(Tone::Plain, own(" "));
            }
            line = line.with(Tone::OnDangerBold, own(" diverged "));
        }
        assert(line.spans@.len() == line@.len());
        if line.spans.len() == 0 {
            None
        } else {
            assert(line@ =~= self.cell_text(shown)->0);
            Some(line)
        }
    }

    /// The clock of the header at `now`, in a header this wide. An offer stands only
    /// where the knobs are known that it is made by.
    pub open spec fn header_clock(self, now: u64, width: u16, offer: bool) -> Option<
        Seq<(Tone, Seq<char>)>,
    > {
        match self.timer {
            Some(t) => face_text(
                t,
                live_seconds(t, self.timer_base, now),
                width < NARROW,
                offer && self.settings is Some,
            ),
            None => None,
        }
    }

    /// The tone of a notice.
    pub open spec fn notice_tone(level: Level) -> Tone {
        match level {
            Level::Info => Tone::Muted,
            Level::Success => Tone::Success,
            Level::Warning => Tone::Warn,
            Level::Error => Tone::DangerBold,
        }
    }

    /// The header: the screen's title, the timer cell and the notice on display.
    pub open spec fn header_text(self, now: u64, width: u16, offer: bool) -> Seq<
        (Tone, Seq<char>),
    > {
        let cell = self.cell_text(self.header_clock(now, width, offer));
        seq![(Tone::Header, " "@ + Screen::title_text(self.current.sort()) + " "@)] + (match cell {
            Some(c) => seq![(Tone::Plain, "  "@)] + c,
            None => Seq::empty(),
        }) + (match self.notification {
            Some(n) => seq![(Tone::Plain, "  "@), (Self::notice_tone(n.level), n.text@)],
            None => Seq::empty(),
        })
    }

    /// The header: the screen's title, the timer cell and the notice on display.
    /// `offer` is whether the shell has one for the timer.
    pub fn header(&self, now: u64, width: u16, offer: bool) -> (res: Line)
        ensures
            res@ == self.header_text(now, width, offer),
    {
        let clock = match &self.timer {
            Some(t) => clock_face(
                t,
                live_elapsed(t, self.timer_base, now),
                width < NARROW,
                offer && self.settings.is_some(),
            ),
            None => None,
        };
        assert(Self::clock_text(clock) == self.header_clock(now, width, offer));
        let mut line = Line::of(Tone::Header, cat3(" ", self.current.title(), " "));
        if let Some(cell) = self.timer_cell(clock) {
            line = line.with(Tone::Plain, own("  ")).and(&cell);
        }
        if let Some(n) = &self.notification {
            let tone = match n.level {
                Level::Info => Tone::Muted,
                Level::Success => Tone::Success,
                Level::Warning => Tone::Warn,
                Level::Error => Tone::DangerBold,
            };
            line = line.with(Tone::Plain, own("  ")).with(tone, n.text.clone());
        }
        assert(line@ =~= self.header_text(now, width, offer));
        line
    }

    /// Who is signed in, and where.
    pub fn identity(&self, host: &str) -> (res: Line)
        ensures
            res@ == seq![
                (
                    Tone::Muted,
                    (match self.user {
                        Some(u) => u@,
                        None => "not signed in"@,
                    }) + " @ "@ + host@ + " "@,
                ),
            ],
    {
        let who = match &self.user {
            Some(u) => u.as_str(),
            None => "not signed in",
        };
        Line::of(Tone::Muted, cat4(who, " @ ", host, " "))
    }

    /// What the footer offers: the overlay's keys while it is open.
    pub open spec fn offered(self, f: Footer) -> bool {
        match self.capture {
            Some(cap) => cap.offered(f),
            None => self.current.offered(
                self.leader_pending,
                self.goto_pending,
                match self.command_buffer {
                    Some(b) => Some(b@),
                    None => None,
                },
                f,
            ),
        }
    }

    /// What the footer offers.
    pub fn hints(&self) -> (res: Footer)
        ensures
            self.offered(res),
    {
        match &self.capture {
            Some(cap) => cap.hints(),
            None => self.current.hints(
                self.leader_pending,
                self.goto_pending,
                self.command_buffer.as_ref(),
            ),
        }
    }
}

// ---- what the calls answer ----

/// What the look for the log directory sends back.
pub fn log_dir_found(reply: Result<String, String>) -> (res: Action)
    ensures
        match reply {
            Ok(dir) => notifies(res, Level::Info, "logs: "@ + dir@),
            Err(e) => notifies(res, Level::Error, "log dir error: "@ + e@),
        },
{
    match reply {
        Ok(dir) => notice(Level::Info, cat2("logs: ", dir.as_str())),
        Err(e) => notice(Level::Error, cat2("log dir error: ", e.as_str())),
    }
}

/// What the read of who is signed in sends back.
pub fn me_read(reply: Result<String, Fault>) -> (res: Action)
    ensures
        match reply {
            Ok(email) => res == Action::SetUser(email),
            Err(e) => notifies(res, Level::Error, "login required: "@ + e.shown@),
        },
{
    match reply {
        Ok(email) => Action::SetUser(email),
        Err(e) => notice(Level::Error, cat2("login required: ", e.shown.as_str())),
    }
}

/// How far a sign-in came.
#[derive(Debug)]
pub enum SignIn {
    /// The flow could not start.
    NotStarted(String),
    /// The flow started and failed.
    Failed(String),
    Done,
}

/// What a sign-in sends back: only a flow that could not start blocks.
pub fn signed_in(reply: SignIn) -> (res: Action)
    ensures
        res == (match reply {
            SignIn::NotStarted(e) => Action::LoginServerError(e),
            SignIn::Failed(e) => Action::LoginFailed(e),
            SignIn::Done => Action::LoginSucceeded,
        }),
{
    match reply {
        SignIn::NotStarted(e) => Action::LoginServerError(e),
        SignIn::Failed(e) => Action::LoginFailed(e),
        SignIn::Done => Action::LoginSucceeded,
    }
}

/// What a poll of the timer sends back: the live timer, or the one the cache and
/// the queue imply while the server cannot be reached, where they imply one.
pub fn timer_polled(reply: Result<Box<Timer>, Fault>, implied: Option<Box<Timer>>) -> (res: Option<
    Action,
>)
    ensures
        res == (match reply {
            Ok(t) => Some(Action::TimerLoaded(t)),
            Err(e) => if e.kind is Transport && implied is Some {
                Some(Action::TimerStale(implied->0))
            } else {
                None
            },
        }),
{
    match reply {
        Ok(t) => Some(Action::TimerLoaded(t)),
        Err(e) => match (e.kind, implied) {
            (FaultKind::Transport, Some(t)) => Some(Action::TimerStale(t)),
            _ => None,
        },
    }
}

// ---- laws ----

/// A refused session lands on the sign-in, whatever was showing, and drops the
/// overlay; a second refusal changes nothing more.
pub proof fn an_expired_session_lands_on_the_sign_in(
    a: App,
    b: App,
    c: App,
    now: Moment,
    later: Moment,
    x: Seq<Effect>,
    y: Seq<Effect>,
)
    requires
        App::handled(a, Action::SessionExpired, now, b, x),
        App::handled(b, Action::SessionExpired, later, c, y),
    ensures
        b.current.sort() == ScreenKind::Login,
        b.capture is None,
        c == b,
{
}

/// A timer that runs past its plan is called out once: the same timer read again
/// leaves the notice alone.
pub proof fn an_overrun_is_called_out_once(
    a: App,
    t: Box<Timer>,
    b: App,
    c: App,
    u: Box<Timer>,
    now: Moment,
    later: Moment,
    x: Seq<Effect>,
    y: Seq<Effect>,
)
    requires
        t.over,
        t.id is Some,
        u.id == t.id,
        App::handled(a, Action::TimerLoaded(t), now, b, x),
        App::handled(b, Action::TimerLoaded(u), later, c, y),
    ensures
        b.overrun_pinged == t.id,
        c.notification == b.notification,
        c.overrun_pinged == b.overrun_pinged,
        c.timer == Some(*u),
{
}

/// A stale timer is for the header alone: the screen keeps what it had.
pub proof fn a_stale_timer_reaches_no_screen(
    pre: App,
    t: Box<Timer>,
    now: Moment,
    post: App,
    effects: Seq<Effect>,
)
    requires
        App::handled(pre, Action::TimerStale(t), now, post, effects),
    ensures
        post.current == pre.current,
        effects.len() == 0,
        post.timer_stale,
{
}

/// Going to a screen opens it afresh, whatever it held before.
pub proof fn going_opens_afresh(
    pre: App,
    kind: ScreenKind,
    now: Moment,
    post: App,
    effects: Seq<Effect>,
)
    requires
        App::handled(pre, Action::Goto(kind), now, post, effects),
    ensures
        post.current.sort() == kind,
        post == (App { current: post.current, ..pre }),
{
}

/// Beats are throttled: after one, no other is sent within the interval.
pub proof fn beats_are_throttled(
    a: App,
    at: u64,
    b: App,
    x: Seq<Effect>,
    later: u64,
    c: App,
    y: Seq<Effect>,
)
    requires
        App::beaten(a, at, b, x),
        x.len() > 0,
        later - at < HEARTBEAT_INTERVAL,
        App::beaten(b, later, c, y),
    ensures
        y.len() == 0,
        c == b,
{
}

/// A drain that streamed its transcript and reconciled nothing takes the
/// transcript down again, and the next drain starts with a clean one.
pub proof fn a_finished_drain_clears_its_transcript(
    pre: App,
    report: ReplayReport,
    now: Moment,
    post: App,
    effects: Seq<Effect>,
)
    requires
        App::handled(pre, Action::ReplayFinished(report), now, post, effects),
    ensures
        post.reconnect_words@.len() == 0,
        pre.reconnect_words@.len() > 0 && (report.replayed == 0 || report.diverged)
            ==> post.notification is None,
{
}

/// A text that the editor gave back blank leaves the overlay as it was.
pub proof fn a_blank_edit_changes_nothing(
    pre: App,
    text: String,
    at: u64,
    post: App,
    effects: Seq<Effect>,
)
    requires
        blank(text@),
        App::edited(
            pre,
            EditorTarget::Capture,
            EditorOutcome::Saved(text),
            at,
            post,
            effects,
        ),
    ensures
        post == pre,
{
}

/// While the overlay is open, any key but `Esc` takes a discard warning back: the
/// key that hands the draft to the editor like every other.
pub proof fn any_key_but_esc_disarms_the_discard(
    pre: App,
    key: KeyEvent,
    now: Moment,
    post: App,
    effects: Seq<Effect>,
)
    requires
        pre.capture is Some,
        key.code != KeyCode::Esc,
        pre.capture->0.translated(key) is Some,
        App::handled(pre, pre.capture->0.translated(key)->0, now, post, effects),
    ensures
        post.capture is Some,
        !post.capture->0.confirm_discard,
{
    let action = pre.capture->0.translated(key)->0;
    if !(action is CaptureEditExternal) {
        assert(for_capture(action));
        let out = choose|out: Outcome|
            {
                &&& #[trigger] QuickCapture::handled(
                    pre.capture->0,
                    action,
                    post.capture->0,
                    out,
                )
                &&& effects == out.effects@
                &&& post.told(App { capture: post.capture, ..pre }, out, now.millis)
            };
        crate::capture::a_keystroke_resumes_editing(pre.capture->0, key, post.capture->0, out);
    }
}

/// Submitting closes the command line, whatever it held.
pub proof fn submitting_closes_the_line(
    pre: App,
    now: Moment,
    post: App,
    effects: Seq<Effect>,
)
    requires
        App::handled(pre, Action::CommandSubmit, now, post, effects),
    ensures
        post.command_buffer is None,
        post.current == pre.current,
{
}

/// `:timer stop` refuses on a running timer that is bound to nothing: it makes no
/// call, keeps the timer, and warns with what to do, which names binding.
pub proof fn a_stop_refuses_on_an_unbound_timer(
    pre: App,
    at: u64,
    post: App,
    effects: Seq<Effect>,
)
    requires
        pre.runs_unbound(),
        App::executed(pre, CommandModel::Timer(TimerVerb::Stop), at, post, effects),
    ensures
        effects == Seq::<Effect>::empty(),
        post.timer == pre.timer,
        post.notification matches Some(n) && n.level == Level::Warning && holds(n.text@, "bind"@),
{
    let text = "an unbound timer can't be stopped — bind or discard it first"@;
    reveal_strlit("an unbound timer can't be stopped — bind or discard it first");
    reveal_strlit("bind");
    assert(text.subrange(36, 40) =~= "bind"@);
    assert(stands_at(text, "bind"@, 36));
}

/// A notice goes up as it was said, and stands from that instant on; nothing else of
/// the shell changes.
pub proof fn a_notice_goes_up_as_it_was_said(
    pre: App,
    level: Level,
    text: String,
    now: Moment,
    post: App,
    effects: Seq<Effect>,
)
    requires
        App::handled(pre, Action::Notify { level, text }, now, post, effects),
    ensures
        post.notification is Some,
        post.notification->0.level == level,
        post.notification->0.text@ == text@,
        post.notification->0.since == now.millis,
        post == (App { notification: post.notification, ..pre }),
        effects.len() == 0,
{
}

/// A dismissed notice is gone, and only it.
pub proof fn a_dismissed_notice_is_gone(pre: App, now: Moment, post: App, effects: Seq<Effect>)
    requires
        App::handled(pre, Action::DismissNotification, now, post, effects),
    ensures
        post == (App { notification: None, ..pre }),
        effects.len() == 0,
{
}

/// A tick takes a notice down exactly once it has stood four seconds, polls the timer
/// exactly once fifteen seconds have gone by with someone signed in, and takes over the
/// depth of the queue.
pub proof fn what_a_tick_does(
    pre: App,
    at: u64,
    summary: Option<QueueSummary>,
    post: App,
    effects: Seq<Effect>,
)
    requires
        App::ticked(pre, at, summary, post, effects),
    ensures
        pre.notification matches Some(n) && at - n.since >= 4000 ==> post.notification is None,
        pre.notification matches Some(n) && at - n.since < 4000 ==> post.notification
            == pre.notification,
        pre.user is Some && at - pre.timer_last_poll >= 15000 ==> effects == seq![
            Effect::Send(Action::RefreshTimer),
        ] && post.timer_last_poll == at,
        pre.user is None || at - pre.timer_last_poll < 15000 ==> effects.len() == 0
            && post.timer_last_poll == pre.timer_last_poll,
        summary matches Some(s) ==> post.queued_writes == s.in_play && (post.queue_diverged
            <==> s.diverged > 0),
        summary is None ==> post.queued_writes == 0 && !post.queue_diverged,
        post.current == pre.current,
        post.timer == pre.timer,
        post.capture == pre.capture,
{
}

/// A beat is sent exactly where someone is signed in, a timer counts, and a minute has
/// gone by since the last one.
pub proof fn when_a_beat_is_sent(pre: App, at: u64, post: App, effects: Seq<Effect>)
    requires
        App::beaten(pre, at, post, effects),
    ensures
        effects.len() > 0 <==> pre.user is Some && (pre.timer matches Some(t) && t.running
            && !t.paused && t.idle != Some(true)) && at - pre.heartbeat_last >= 60000,
        effects.len() > 0 ==> effects == seq![Effect::Call(Request::Heartbeat)]
            && post.heartbeat_last == at,
        post == (App { heartbeat_last: post.heartbeat_last, ..pre }),
{
}

/// Any key is a sign of presence, and nothing but a key is.
pub proof fn only_a_key_is_presence(
    pre: App,
    ev: Event,
    at: u64,
    post: App,
    action: Option<Action>,
    effects: Seq<Effect>,
)
    requires
        App::received(pre, ev, at, post, action, effects),
    ensures
        !(ev is Key) ==> effects.len() == 0 && action is None && post == pre,
        effects.len() > 0 ==> effects == seq![Effect::Call(Request::Heartbeat)],
{
}

/// Who signed in is remembered, and the knobs are read where they are not known yet.
pub proof fn who_signed_in_is_remembered(
    pre: App,
    email: String,
    now: Moment,
    post: App,
    effects: Seq<Effect>,
)
    requires
        App::handled(pre, Action::SetUser(email), now, post, effects),
    ensures
        post.user == Some(email),
        pre.settings is None ==> effects == seq![Effect::Call(Request::LoadKnobs)],
        pre.settings is Some ==> effects.len() == 0,
        post.current == pre.current,
{
}

/// A timer that was read is the header's from that instant on, live; one put together
/// offline is marked as stale, and a cleared one is gone.
pub proof fn the_timer_that_was_read_is_the_headers(
    pre: App,
    action: Action,
    now: Moment,
    post: App,
    effects: Seq<Effect>,
)
    requires
        App::handled(pre, action, now, post, effects),
    ensures
        action matches Action::TimerLoaded(t) ==> post.timer == Some(*t) && post.timer_base
            == Some(now.millis) && !post.timer_stale,
        action matches Action::TimerProvisional(t) ==> post.timer == Some(*t) && post.timer_base
            == Some(now.millis) && !post.timer_stale,
        action matches Action::TimerStale(t) ==> post.timer == Some(*t) && post.timer_base == Some(
            now.millis,
        ) && post.timer_stale,
        action is TimerCleared ==> post.timer is None && post.timer_base is None,
        action is RefreshTimer ==> effects == seq![Effect::Call(Request::PollTimer)] && post == pre,
{
}

/// A timer that runs past its plan is called out with a warning that names the plan,
/// once for each timer; a timer within its plan is not.
pub proof fn an_overrun_is_a_warning(
    pre: App,
    t: Box<Timer>,
    now: Moment,
    post: App,
    effects: Seq<Effect>,
)
    requires
        App::handled(pre, Action::TimerLoaded(t), now, post, effects),
    ensures
        t.over && t.id is Some && pre.overrun_pinged != t.id ==> post.notification is Some
            && post.notification->0.level == Level::Warning && post.overrun_pinged == t.id,
        !t.over || t.id is None || pre.overrun_pinged == t.id ==> post.notification
            == pre.notification && post.overrun_pinged == pre.overrun_pinged,
{
}

/// Every word of a drain is kept in order, and shown so far.
pub proof fn a_drain_streams_its_words(
    pre: App,
    word: String,
    now: Moment,
    post: App,
    effects: Seq<Effect>,
)
    requires
        App::handled(pre, Action::ReplayProgress { word }, now, post, effects),
    ensures
        post.reconnect_words@ == pre.reconnect_words@.push(word),
        post.notification is Some,
        post.notification->0.level == Level::Info,
        effects.len() == 0,
{
}

/// A drain that reconciled something and met nothing diverged lands a success that says
/// how much.
pub proof fn a_clean_drain_says_how_much(
    pre: App,
    report: ReplayReport,
    now: Moment,
    post: App,
    effects: Seq<Effect>,
)
    requires
        report.replayed >= 2,
        !report.diverged,
        App::handled(pre, Action::ReplayFinished(report), now, post, effects),
    ensures
        post.notification is Some,
        post.notification->0.level == Level::Success,
        holds(post.notification->0.text@, decimal(report.replayed as nat)),
        post.reconnect_words@.len() == 0,
        effects.len() == 0,
{
    let text = post.notification->0.text@;
    let n = decimal(report.replayed as nat);
    let head = "synced — "@;
    assert(text.subrange(head.len() as int, (head.len() + n.len()) as int) =~= n);
    assert(stands_at(text, n, head.len() as int));
}

/// Signing in goes home and asks who it is; a failed one goes back to the prompt, and one
/// that could not start blocks with its reason.
pub proof fn where_a_sign_in_ends(
    pre: App,
    action: Action,
    now: Moment,
    post: App,
    effects: Seq<Effect>,
)
    requires
        App::handled(pre, action, now, post, effects),
    ensures
        action is Login ==> effects == seq![Effect::Call(Request::SignIn)],
        action is LoginSucceeded ==> effects == seq![
            Effect::Send(Action::Goto(ScreenKind::Home)),
            Effect::Send(Action::FetchMe),
        ],
        action matches Action::LoginFailed(e) ==> effects.len() == 0 && post.notification is Some
            && post.notification->0.level == Level::Error && (pre.current is Login ==> (
        post.current matches Screen::Login(l) && l.state is Idle)),
        action matches Action::LoginServerError(e) ==> effects.len() == 0 && (
        post.current matches Screen::Login(l) && l.state == State::ServerError(e)),
        action is SessionExpired ==> effects.len() == 0 && post.capture is None && (
        post.current matches Screen::Login(l) && l.state is Expired),
        action is FetchMe ==> effects == seq![Effect::Call(Request::FetchMe)] && post == pre,
        action is Quit ==> post.should_quit && effects.len() == 0,
{
}

/// Going somewhere shows that screen, opened afresh, and reads what it shows.
pub proof fn going_shows_the_screen_and_reads_it(
    pre: App,
    kind: ScreenKind,
    now: Moment,
    post: App,
    effects: Seq<Effect>,
)
    requires
        App::handled(pre, Action::Goto(kind), now, post, effects),
    ensures
        post.current.sort() == kind,
        kind == ScreenKind::Inbox ==> effects == seq![Effect::Call(Request::ListDrafts)],
        kind == ScreenKind::Queue ==> effects == seq![Effect::Call(Request::LoadQueue)],
        kind == ScreenKind::Connect ==> effects == seq![Effect::Call(Request::ListSources)],
        kind == ScreenKind::Review ==> effects == seq![Effect::Call(Request::LoadDashboard)],
        kind == ScreenKind::Settings ==> effects == seq![Effect::Call(Request::LoadSettings)],
        kind == ScreenKind::Progress ==> effects == seq![
            Effect::Call(Request::LoadProgress { offset: 0 }),
        ],
        kind == ScreenKind::Timer || kind == ScreenKind::Week ==> effects == seq![
            Effect::EnterShell(kind),
        ],
        post.user == pre.user,
        post.timer == pre.timer,
        post.capture == pre.capture,
        post.notification == pre.notification,
{
    let fresh = choose|fresh: Screen|
        {
            &&& #[trigger] Screen::entered(fresh, post.current, effects)
            &&& fresh.sort() == kind
            &&& fresh.fresh()
        };
    crate::screens::a_fresh_screen_reads_its_own(fresh, post.current, effects);
}

/// The overlay opens empty, on a text, or on a note, and over whatever is showing.
pub proof fn how_the_overlay_opens(
    pre: App,
    action: Action,
    now: Moment,
    post: App,
    effects: Seq<Effect>,
)
    requires
        App::handled(pre, action, now, post, effects),
    ensures
        action is CaptureOpen ==> post.capture is Some && draft_text(post.capture->0.content).len()
            == 0 && post.capture->0.editing is None && post.current == pre.current
            && effects.len() == 0,
        action matches Action::CaptureOpenText(text) ==> post.capture is Some && draft_text(
            post.capture->0.content,
        ) == text@ && post.capture->0.editing is None && post.current == pre.current,
        action matches Action::CaptureOpenEdit(note) ==> post.capture is Some
            && post.capture->0.editing == Some(note.id) && post.capture->0.book_id == note.book_id
            && draft_text(post.capture->0.content) == (if note.content is Some {
            note.content->0@
        } else {
            note.title@
        }) && post.current == pre.current,
        action is CaptureClose ==> post == (App { capture: None, ..pre }) && effects.len() == 0,
{
}

/// A saved note closes the overlay and says so, and the notes are read again exactly
/// where they are showing.
pub proof fn a_saved_note_closes_the_overlay(
    pre: App,
    now: Moment,
    post: App,
    effects: Seq<Effect>,
)
    requires
        App::handled(pre, Action::CaptureSaved, now, post, effects),
    ensures
        post.capture is None,
        post.notification is Some,
        post.notification->0.level == Level::Success,
        pre.current.sort() == ScreenKind::Notes ==> effects == seq![
            Effect::Send(Action::RefreshNotes),
        ],
        pre.current.sort() != ScreenKind::Notes ==> effects.len() == 0,
        post.current == pre.current,
{
}

/// Nothing but opening the overlay anew, or closing it, changes which note it writes to.
pub proof fn the_overlays_note_stays(
    pre: App,
    action: Action,
    now: Moment,
    post: App,
    effects: Seq<Effect>,
)
    requires
        pre.capture is Some,
        post.capture is Some,
        !(action is CaptureOpen) && !(action is CaptureOpenText) && !(action is CaptureOpenEdit),
        App::handled(pre, action, now, post, effects),
    ensures
        post.capture->0.editing == pre.capture->0.editing,
{
    if for_capture(action) {
        let out = choose|out: Outcome|
            {
                &&& #[trigger] QuickCapture::handled(
                    pre.capture->0,
                    action,
                    post.capture->0,
                    out,
                )
                &&& effects == out.effects@
                &&& post.told(App { capture: post.capture, ..pre }, out, now.millis)
            };
        crate::capture::the_note_being_edited_stays(pre.capture->0, action, post.capture->0, out);
    }
}

/// A text that comes back from the editor takes the place of the draft it was opened
/// with, and changes nothing else of it; an aborted edit changes nothing.
pub proof fn an_edited_draft_keeps_its_note(
    pre: App,
    outcome: EditorOutcome,
    at: u64,
    post: App,
    effects: Seq<Effect>,
)
    requires
        pre.capture is Some,
        App::edited(pre, EditorTarget::Capture, outcome, at, post, effects),
    ensures
        post.capture is Some,
        post.capture->0.editing == pre.capture->0.editing,
        post.capture->0.book_id == pre.capture->0.book_id,
        post.capture->0.chapter_id == pre.capture->0.chapter_id,
        post.capture->0.section_id == pre.capture->0.section_id,
        outcome matches EditorOutcome::Saved(text) && !blank(text@) ==> draft_text(
            post.capture->0.content,
        ) == outcome->Saved_0@,
        outcome is Aborted ==> post == pre,
        effects.len() == 0,
{
}

/// What the editor gives back goes where it was opened for: the week's note, or the
/// queued write, by its own name.
pub proof fn an_edit_goes_back_where_it_came_from(
    pre: App,
    target: EditorTarget,
    text: String,
    at: u64,
    post: App,
    effects: Seq<Effect>,
)
    requires
        !(target is Capture),
        App::edited(pre, target, EditorOutcome::Saved(text), at, post, effects),
    ensures
        post == pre,
        target matches EditorTarget::WeekNote { iso_week } ==> effects == seq![
            Effect::Send(Action::WeekReflectSave { iso_week, body: text }),
        ],
        target matches EditorTarget::QueueIntent { intent_id } ==> effects == seq![
            Effect::Send(Action::TimerReconcileEditApply { intent_id, buffer: text }),
        ],
{
}

/// What is handed to the editor is what is there to edit, for what it is edited for.
pub proof fn the_editor_gets_what_is_there(
    pre: App,
    action: Action,
    now: Moment,
    post: App,
    effects: Seq<Effect>,
)
    requires
        App::handled(pre, action, now, post, effects),
    ensures
        action is CaptureEditExternal && pre.capture is Some ==> (
        post.pending_editor matches Some(p) && p.target is Capture && p.seed@ == draft_text(
            pre.capture->0.content,
        )),
        action matches Action::WeekReflectEdit { iso_week, seed } ==> (
        post.pending_editor matches Some(p) && p.seed == seed && p.target == (
        EditorTarget::WeekNote { iso_week })),
        action matches Action::QueueIntentEdit { intent_id, seed } ==> (
        post.pending_editor matches Some(p) && p.seed == seed && p.target == (
        EditorTarget::QueueIntent { intent_id })),
{
}

/// A submitted line runs the command it means, and only that.
pub proof fn a_submitted_line_runs_its_command(
    pre: App,
    line: String,
    command: CommandModel,
    now: Moment,
    post: App,
    effects: Seq<Effect>,
)
    requires
        pre.command_buffer == Some(line),
        parsed(line@) == ParseModel::Run(command),
        App::handled(pre, Action::CommandSubmit, now, post, effects),
    ensures
        post.command_buffer is None,
        command matches CommandModel::Nav(kind) ==> effects == seq![
            Effect::Send(Action::Goto(kind)),
        ],
        command matches CommandModel::Timer(verb) && !(verb is Stop && pre.timer is Some
            && pre.timer->0.running && !pre.timer->0.bound) ==> effects == seq![
            Effect::Call(Request::PaletteTimer(command->Timer_0)),
        ],
        command == CommandModel::Note(None) ==> effects == seq![Effect::Send(Action::CaptureOpen)],
        command matches CommandModel::Note(Some(text)) ==> effects.len() == 1 && (
        effects[0] matches Effect::Send(Action::CaptureOpenText(t)) && t@ == text),
        command is Log ==> effects == seq![Effect::Send(Action::Goto(ScreenKind::ActivityNew))],
        command is Target ==> effects.len() == 2 && effects[0] == Effect::Send(
            Action::Goto(ScreenKind::Progress),
        ) && effects[1] == Effect::Send(Action::ProgressDeclareBegin),
        command is Quit ==> post.should_quit && effects.len() == 0,
        command is Write ==> effects == seq![Effect::Send(Action::ActivitySubmit)],
        command is Logs ==> effects == seq![Effect::Call(Request::ShowLogDir)],
        command is Logout || command is Help ==> effects.len() == 0 && post.notification is Some
            && post.notification->0.level == Level::Info,
        !(command is Quit) ==> post.should_quit == pre.should_quit,
{
}

/// A line that means nothing runs nothing: the user is warned.
pub proof fn a_line_that_means_nothing_runs_nothing(
    pre: App,
    line: String,
    now: Moment,
    post: App,
    effects: Seq<Effect>,
)
    requires
        pre.command_buffer == Some(line),
        !(parsed(line@) is Run),
        !(parsed(line@) is Empty),
        App::handled(pre, Action::CommandSubmit, now, post, effects),
    ensures
        effects.len() == 0,
        post.notification is Some,
        post.notification->0.level == Level::Warning,
        post.should_quit == pre.should_quit,
        post.current == pre.current,
{
}

/// What a screen asks for in answer to an action of its own, the shell asks for, in the
/// same order, and what the screen says is put up.
pub proof fn a_screens_wish_is_passed_on(
    pre: App,
    action: Action,
    now: Moment,
    post: App,
    effects: Seq<Effect>,
) -> (out: Outcome)
    requires
        App::routed(pre, action, now, post, effects),
    ensures
        Screen::handled(pre.current, action, now, post.current, out),
        effects == out.effects@,
        out.note matches Some((level, text)) ==> post.notification is Some
            && post.notification->0.level == level && post.notification->0.text@ == text@,
        out.note is None ==> post.notification == pre.notification,
{
    choose|out: Outcome|
        {
            &&& #[trigger] Screen::handled(pre.current, action, now, post.current, out)
            &&& effects == out.effects@
            &&& post.told(App { current: post.current, ..pre }, out, now.millis)
        }
}

/// A key struck on a quiet shell, and the action it means answered.
pub open spec fn struck(
    pre: App,
    key: KeyEvent,
    now: Moment,
    mid: App,
    action: Action,
    post: App,
    effects: Seq<Effect>,
) -> bool {
    &&& pre.command_buffer is None
    &&& pre.capture is None
    &&& !pre.leader_pending
    &&& !pre.goto_pending
    &&& pre.notification is None
    &&& crate::event::pressed(pre, key, mid, Some(action))
    &&& App::handled(mid, action, now, post, effects)
}

/// `Enter` on an opened draft accepts the draft on display, whichever it is: one call,
/// for that draft.
pub proof fn enter_accepts_the_draft_on_display(
    pre: App,
    s: crate::screens::inbox::Inbox,
    key: KeyEvent,
    now: Moment,
    mid: App,
    action: Action,
    post: App,
    effects: Seq<Effect>,
)
    requires
        pre.current == Screen::Inbox(s),
        s.stage == crate::screens::inbox::Stage::Draft,
        s.rejecting is None,
        !s.in_flight,
        s.selected < s.tasks@.len(),
        key.code == KeyCode::Enter,
        struck(pre, key, now, mid, action, post, effects),
    ensures
        effects.len() == 1,
        effects[0] matches Effect::Call(Request::Triage { id, verb }) && id
            == s.tasks@[s.selected as int].id && verb is Accept,
{
    assert(action is InboxAccept);
    let out = a_screens_wish_is_passed_on(mid, action, now, post, effects);
    assert(mid.current == Screen::Inbox(s));
}

/// `a` on the activities table archives the row under the cursor, or brings it back.
pub proof fn a_archives_the_row_under_the_cursor(
    pre: App,
    s: crate::screens::activities::Activities,
    row: usize,
    key: KeyEvent,
    now: Moment,
    mid: App,
    action: Action,
    post: App,
    effects: Seq<Effect>,
)
    requires
        pre.current == Screen::Activities(s),
        s.detail is None,
        !s.searching,
        s.query@.len() == 0,
        s.cursor == Some(row),
        row < s.items@.len(),
        s.items@[row as int].activity.id >= 0,
        key.code == KeyCode::Char('a'),
        struck(pre, key, now, mid, action, post, effects),
    ensures
        effects == seq![
            Effect::Call(
                Request::ArchiveActivity {
                    id: s.items@[row as int].activity.id,
                    archived: s.items@[row as int].activity.archived_at is Some,
                },
            ),
        ],
{
    assert(action is ActivitiesArchive);
    let out = a_screens_wish_is_passed_on(mid, action, now, post, effects);
    assert(mid.current == Screen::Activities(s));
}

/// `X` on an open note whose deletion is armed deletes that note.
pub proof fn x_deletes_the_open_note(
    pre: App,
    s: crate::screens::notes::Notes,
    note: crate::model::Note,
    key: KeyEvent,
    now: Moment,
    mid: App,
    action: Action,
    post: App,
    effects: Seq<Effect>,
)
    requires
        pre.current == Screen::Notes(s),
        s.detail == Some(note),
        s.delete_armed,
        key.code == KeyCode::Char('X'),
        struck(pre, key, now, mid, action, post, effects),
    ensures
        effects == seq![Effect::Call(Request::DeleteNote(note.id))],
{
    assert(action is NotesDeleteConfirm);
    let out = a_screens_wish_is_passed_on(mid, action, now, post, effects);
    assert(mid.current == Screen::Notes(s));
}

/// `Enter` on the status picker of an opened book writes the status it stands on to that
/// book.
pub proof fn enter_writes_the_status_picked(
    pre: App,
    s: crate::screens::book_detail::BookDetail,
    status: crate::model::BookStatus,
    key: KeyEvent,
    now: Moment,
    mid: App,
    action: Action,
    post: App,
    effects: Seq<Effect>,
)
    requires
        pre.current == Screen::BookDetail(s),
        s.book is Some,
        s.status_picker is Some,
        s.status_picker->0 == crate::screens::book_detail::row_of(status),
        key.code == KeyCode::Enter,
        struck(pre, key, now, mid, action, post, effects),
    ensures
        effects.len() == 1,
        effects[0] matches Effect::Call(Request::UpdateBook { current, update, .. }) && *current
            == s.book->0 && update.status == Some(status) && update.current_page is None
            && update.current_chapter_id is None,
{
    assert(action is BookStatusConfirm);
    let out = a_screens_wish_is_passed_on(mid, action, now, post, effects);
    assert(mid.current == Screen::BookDetail(s));
}

/// `d` on the audit, on a row whose deletion is armed, deletes that row.
pub proof fn d_deletes_the_armed_row(
    pre: App,
    s: crate::screens::audit::Audit,
    key: KeyEvent,
    now: Moment,
    mid: App,
    action: Action,
    post: App,
    effects: Seq<Effect>,
)
    requires
        pre.current == Screen::Audit(s),
        s.selected < s.rows@.len(),
        s.delete_armed == Some(s.rows@[s.selected as int].id),
        key.code == KeyCode::Char('d'),
        struck(pre, key, now, mid, action, post, effects),
    ensures
        effects == seq![
            Effect::Call(
                Request::DeleteSegment {
                    activity_id: s.rows@[s.selected as int].activity_id,
                    segment_id: s.rows@[s.selected as int].id,
                },
            ),
        ],
{
    assert(action is AuditDelete);
    let out = a_screens_wish_is_passed_on(mid, action, now, post, effects);
    assert(mid.current == Screen::Audit(s));
}

/// `x` on progress, on a target whose retirement is armed, retires that target.
pub proof fn x_retires_the_armed_target(
    pre: App,
    s: crate::screens::progress::Progress,
    key: KeyEvent,
    now: Moment,
    mid: App,
    action: Action,
    post: App,
    effects: Seq<Effect>,
)
    requires
        pre.current == Screen::Progress(s),
        s.declare is None,
        s.edit is None,
        s.data is Some,
        s.selected < s.data->0.targets@.len(),
        s.retire_armed == Some(s.data->0.targets@[s.selected as int].id),
        key.code == KeyCode::Char('x'),
        struck(pre, key, now, mid, action, post, effects),
    ensures
        effects == seq![
            Effect::Call(
                Request::RetireTarget { id: s.data->0.targets@[s.selected as int].id },
            ),
        ],
{
    assert(action is ProgressRetire);
    let out = a_screens_wish_is_passed_on(mid, action, now, post, effects);
    assert(mid.current == Screen::Progress(s));
}

/// `Ctrl-S` in the overlay saves the draft to the note it was opened on.
pub proof fn ctrl_s_saves_the_draft(
    pre: App,
    key: KeyEvent,
    now: Moment,
    mid: App,
    action: Action,
    post: App,
    effects: Seq<Effect>,
)
    requires
        pre.command_buffer is None,
        pre.capture is Some,
        !pre.capture->0.picking,
        pre.capture->0.anchor_picker is None,
        !pre.capture->0.pending,
        !blank(draft_text(pre.capture->0.content)),
        key.code == KeyCode::Char('s'),
        key.modifiers.bits == 2,
        crate::event::pressed(pre, key, mid, Some(action)),
        App::handled(mid, action, now, post, effects),
    ensures
        effects.len() == 1,
        effects[0] matches Effect::Call(Request::SaveNote { editing, input }) && editing
            == pre.capture->0.editing && input.content is Some && input.content->0@ == draft_text(
            pre.capture->0.content,
        ) && input.book_id == pre.capture->0.book_id,
{
    assert(action is CaptureSave);
    assert(mid == pre);
    let out = choose|out: Outcome|
        {
            &&& #[trigger] QuickCapture::handled(pre.capture->0, action, post.capture->0, out)
            &&& effects == out.effects@
            &&& post.told(App { capture: post.capture, ..pre }, out, now.millis)
        };
    assert(QuickCapture::handled(pre.capture->0, action, post.capture->0, out));
}

/// A poll that the server answered is live; one that could not reach it falls back on
/// what the cache implies, and any other failure changes nothing.
pub proof fn a_poll_falls_back_offline_alone(
    reply: Result<Box<Timer>, Fault>,
    implied: Option<Box<Timer>>,
    res: Option<Action>,
)
    requires
        call_ensures(timer_polled, (reply, implied), res),
    ensures
        reply matches Ok(t) ==> res == Some(Action::TimerLoaded(t)),
        reply is Err && reply->Err_0.kind is Transport && implied is Some ==> res == Some(
            Action::TimerStale(implied->0),
        ),
        reply is Err && (!(reply->Err_0.kind is Transport) || implied is None) ==> res is None,
{
}

/// Only a sign-in that could not start blocks; one that failed can be tried at once.
pub proof fn how_a_sign_in_is_answered(reply: SignIn, res: Action)
    requires
        call_ensures(signed_in, (reply,), res),
    ensures
        reply is Done <==> res is LoginSucceeded,
        reply is NotStarted <==> res is LoginServerError,
        reply is Failed <==> res is LoginFailed,
        reply matches SignIn::NotStarted(e) ==> res == Action::LoginServerError(e),
        reply matches SignIn::Failed(e) ==> res == Action::LoginFailed(e),
{
}

/// The knobs that were read are the shell's, and reach the screen too.
pub proof fn the_knobs_that_were_read_are_kept(
    pre: App,
    knobs: Box<TimerSettings>,
    now: Moment,
    post: App,
    effects: Seq<Effect>,
)
    requires
        App::handled(pre, Action::SettingsLoaded(knobs), now, post, effects),
    ensures
        post.settings == Some(*knobs),
        pre.current is Settings ==> (post.current matches Screen::Settings(s) && s.settings == Some(
            *knobs,
        )),
        post.timer == pre.timer,
        post.notification == pre.notification,
{
}

/// The shell starts at home and asks who is there and for the timer where someone is
/// signed in, and at the sign-in otherwise.
pub proof fn where_the_shell_starts(logged_in: bool, at: u64, res: (App, Vec<Effect>))
    requires
        call_ensures(App::start, (logged_in, at), res),
    ensures
        logged_in ==> res.0.current.sort() == ScreenKind::Home && res.1@.len() == 4 && res.1@[0]
            == Effect::Send(Action::FetchMe) && res.1@[1] == Effect::Send(Action::RefreshTimer),
        !logged_in ==> res.0.current.sort() == ScreenKind::Login && res.1@.len() == 0,
        res.0.user is None,
        !res.0.should_quit,
{
    let (fresh, rest) = choose|fresh: Screen, rest: Seq<Effect>|
        {
            &&& fresh.fresh()
            &&& fresh.sort() == res.0.current.sort()
            &&& #[trigger] Screen::entered(fresh, res.0.current, rest)
            &&& res.1@ == (if logged_in {
                seq![Effect::Send(Action::FetchMe), Effect::Send(Action::RefreshTimer)] + rest
            } else {
                rest
            })
        };
    crate::screens::a_fresh_screen_reads_its_own(fresh, res.0.current, rest);
}

/// The header's timer cell is marked where the timer is stale, counts what waits in the
/// queue, and wears the diverged badge, clock or none.
pub proof fn the_cell_wears_its_marks(s: App, clock: Seq<(Tone, Seq<char>)>)
    requires
        s.timer is Some,
        clock.len() > 0,
    ensures
        s.cell_text(Some(clock)) is Some,
        s.cell_text(Some(clock))->0.take(clock.len() as int) == clock,
        s.timer_stale ==> s.cell_text(Some(clock))->0[clock.len() as int].1 == " ~"@,
        s.queued_writes > 0 && !s.timer_stale ==> s.cell_text(Some(clock))->0[clock.len() as int].1
            == " ↑"@ + decimal(s.queued_writes as nat),
        s.queue_diverged ==> s.cell_text(Some(clock))->0.last().1 == " diverged "@,
        !s.timer_stale && s.queued_writes == 0 && !s.queue_diverged ==> s.cell_text(Some(clock))->0
            == clock,
{
    let cell = s.cell_text(Some(clock))->0;
    assert(cell.take(clock.len() as int) =~= clock);
    if !s.timer_stale && s.queued_writes == 0 && !s.queue_diverged {
        assert(cell =~= clock);
    }
}

/// The header names the screen first, and says the notice on display last.
#[verifier::rlimit(60)]
pub proof fn the_header_names_the_screen(s: App, now: u64, width: u16, offer: bool)
    ensures
        s.header_text(now, width, offer).len() > 0,
        s.header_text(now, width, offer)[0].1 == " "@ + Screen::title_text(s.current.sort()) + " "@,
        s.notification matches Some(n) ==> s.header_text(now, width, offer).last().1 == n.text@,
        s.notification matches Some(n) && n.level == Level::Error ==> s.header_text(
            now,
            width,
            offer,
        ).last().0 == Tone::DangerBold,
        s.notification matches Some(n) && n.level == Level::Success ==> s.header_text(
            now,
            width,
            offer,
        ).last().0 == Tone::Success,
{
    let cell = s.cell_text(s.header_clock(now, width, offer));
    let head = seq![(Tone::Header, " "@ + Screen::title_text(s.current.sort()) + " "@)];
    let mid = match cell {
        Some(c) => seq![(Tone::Plain, "  "@)] + c,
        None => Seq::empty(),
    };
    let tail = match s.notification {
        Some(n) => seq![(Tone::Plain, "  "@), (App::notice_tone(n.level), n.text@)],
        None => Seq::empty(),
    };
    let all = head + mid + tail;
    assert(s.header_text(now, width, offer) == all);
    lemma_three_runs(head, mid, tail);
}

proof fn lemma_three_runs(
    head: Seq<(Tone, Seq<char>)>,
    mid: Seq<(Tone, Seq<char>)>,
    tail: Seq<(Tone, Seq<char>)>,
)
    requires
        head.len() == 1,
    ensures
        (head + mid + tail).len() > 0,
        (head + mid + tail)[0] == head[0],
        tail.len() > 0 ==> (head + mid + tail).last() == tail.last(),
{
}

/// Who signed in is told to the shell; a read that failed asks for a sign-in.
pub proof fn who_is_there_reaches_the_shell(reply: Result<String, Fault>, sent: Action)
    requires
        call_ensures(me_read, (reply,), sent),
    ensures
        reply matches Ok(email) ==> sent == Action::SetUser(email),
        reply is Err ==> (sent matches Action::Notify { level, text } && level == Level::Error
            && text@ == "login required: "@ + reply->Err_0.shown@),
{
}

/// A failed sign-in is said in the words of its failure.
pub proof fn a_failed_sign_in_is_said(
    pre: App,
    e: String,
    now: Moment,
    post: App,
    effects: Seq<Effect>,
)
    requires
        App::handled(pre, Action::LoginFailed(e), now, post, effects),
    ensures
        post.notification is Some,
        post.notification->0.text@ == "login failed: "@ + e@,
        post.user == pre.user,
{
}

/// Every field of the shell keeps its value but through the actions that are about it.
pub proof fn what_an_action_leaves_alone(
    pre: App,
    action: Action,
    now: Moment,
    post: App,
    effects: Seq<Effect>,
)
    requires
        App::handled(pre, action, now, post, effects),
    ensures
        post.user == pre.user || action is SetUser,
        post.leader_pending == pre.leader_pending,
        post.goto_pending == pre.goto_pending,
        post.command_buffer == pre.command_buffer || action is CommandCancel
            || action is CommandSubmit,
        post.capture == pre.capture || for_capture(action) || action is SessionExpired
            || action is CaptureOpen || action is CaptureOpenText || action is CaptureOpenEdit
            || action is CaptureClose || action is CaptureSaved || action is CaptureEditExternal,
        post.should_quit == pre.should_quit || action is Quit || action is CommandSubmit,
        post.timer == pre.timer || action is TimerLoaded || action is TimerStale
            || action is TimerProvisional || action is TimerCleared,
        post.timer_base == pre.timer_base || action is TimerLoaded || action is TimerStale
            || action is TimerProvisional || action is TimerCleared,
        post.timer_stale == pre.timer_stale || action is TimerLoaded || action is TimerStale
            || action is TimerProvisional || action is TimerCleared,
        post.timer_last_poll == pre.timer_last_poll,
        post.queued_writes == pre.queued_writes,
        post.queue_diverged == pre.queue_diverged,
        post.settings == pre.settings || action is SettingsLoaded,
        post.overrun_pinged == pre.overrun_pinged || action is TimerLoaded,
        post.heartbeat_last == pre.heartbeat_last,
        post.pending_editor == pre.pending_editor || action is CaptureEditExternal
            || action is WeekReflectEdit || action is QueueIntentEdit,
        post.reconnect_words == pre.reconnect_words || action is ReplayProgress
            || action is ReplayFinished,
        for_capture(action) || action is CaptureOpen || action is CaptureOpenText
            || action is CaptureOpenEdit || action is CaptureClose || action is CaptureSaved
            || action is CaptureEditExternal || action is CommandSubmit || action is Notify
            ==> post.current == pre.current,
{
}

/// A line that runs nothing is told what is wrong with it: a verb nobody knows, one that
/// several verbs begin with, or an argument that the verb does not take.
pub proof fn what_a_refused_line_is_told(
    pre: App,
    line: String,
    at: u64,
    post: App,
    effects: Vec<Effect>,
)
    requires
        App::commanded(pre, line@, at, post, effects@),
    ensures
        parsed(line@) matches ParseModel::Unknown(verb) ==> noticed(
            post.notification,
            Level::Warning,
            "unknown :"@ + verb + " — try :help"@,
            at,
        ),
        parsed(line@) matches ParseModel::Ambiguous(verbs) ==> noticed(
            post.notification,
            Level::Warning,
            "ambiguous — "@ + joined(verbs, " · "@),
            at,
        ),
        parsed(line@) matches ParseModel::BadArg { verb, expected, got } ==> noticed(
            post.notification,
            Level::Warning,
            ":"@ + verb + " "@ + got + "? — try "@ + joined(expected, "|"@),
            at,
        ),
        parsed(line@) matches ParseModel::AmbiguousArg { verb, matches: names } ==> noticed(
            post.notification,
            Level::Warning,
            ":"@ + verb + " "@ + joined(names, " or "@) + "?"@,
            at,
        ),
        parsed(line@) is Empty ==> post == pre && effects@.len() == 0,
{
}

/// A count of one is told apart from the others, and an overrun names the plan it ran
/// past.
pub proof fn what_the_shell_calls_out(n: nat, t: Timer)
    ensures
        reconciled_text(1) == "1 queued write reconciled"@,
        n != 1 ==> reconciled_text(n) == decimal(n) + " queued writes reconciled"@,
        t.planned_minutes matches Some(m) ==> overrun_text(t) == "past the plan — planned "@
            + minutes_text(m as nat) + ", all-in over it now · s wraps up & saves"@,
{
}

/// An editor that was left without saving changes nothing: the week's note is called
/// off, and a queued write stays as it was, which is said.
pub proof fn an_aborted_edit_changes_nothing(
    pre: App,
    target: EditorTarget,
    at: u64,
    post: App,
    effects: Seq<Effect>,
)
    requires
        App::edited(pre, target, EditorOutcome::Aborted, at, post, effects),
    ensures
        post.current == pre.current,
        post.capture == pre.capture,
        target is Capture ==> post == pre && effects.len() == 0,
        target is WeekNote ==> post == pre && effects == seq![
            Effect::Send(Action::WeekReflectAbort),
        ],
        target is QueueIntent ==> effects.len() == 0 && noticed(
            post.notification,
            Level::Info,
            "edit aborted — nothing changed, the queued write stays diverged"@,
            at,
        ),
{
}

} // verus!
