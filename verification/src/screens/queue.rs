//! The queue inspector: the writes that wait for the server, with the verbs that
//! retry them and drop one that was refused.

use crate::action::{notice, notifies, two, Action, Effect, Outcome, Request};
use crate::cursor::{clamp, clamped, step, stepped};
use crate::keys::KeyEvent;
use crate::line::{Footer, Line, Tone};
use crate::model::{Fault, Intent, IntentState, PanelFailure};
use crate::notify::Level;
use crate::panel::{PanelModel, PanelState};
use crate::screens::ScreenKind;
use crate::text::{cat2, cat3, cat5, decimal, own, show};
use vstd::prelude::*;

verus! {

/// The queue screen.
#[derive(Debug)]
pub struct Queue {
    pub intents: Vec<Intent>,
    pub selected: usize,
    pub loading: bool,
    pub failure: Option<PanelFailure>,
    /// A second press drops the selected write.
    pub confirm_drop: bool,
    /// A drain is on its way: no second one is sent before the list is read again.
    pub draining: bool,
}

impl Default for Queue {
    fn default() -> (res: Self)
        ensures
            res.fresh(),
    {
        Queue {
            intents: Vec::new(),
            selected: 0,
            loading: false,
            failure: None,
            confirm_drop: false,
            draining: false,
        }
    }
}

impl Queue {
    /// A screen that has read nothing.
    pub open spec fn fresh(self) -> bool {
        &&& self.intents@ == Seq::<Intent>::empty()
        &&& self.selected == 0
        &&& !self.loading
        &&& self.failure is None
        &&& !self.confirm_drop
        &&& !self.draining
    }

    /// The write under the cursor.
    pub open spec fn chosen(self) -> Option<Intent> {
        if self.selected < self.intents@.len() {
            Some(self.intents@[self.selected as int])
        } else {
            None
        }
    }

    /// How the screen answers an action.
    pub open spec fn handled(pre: Self, action: Action, post: Self, out: Outcome) -> bool {
        match action {
            Action::QueueLoaded(intents) => {
                &&& post == Queue {
                    intents,
                    loading: false,
                    failure: None,
                    draining: false,
                    confirm_drop: false,
                    selected: clamped(pre.selected as int, intents@.len() as int) as usize,
                }
                &&& out.quiet()
            },
            Action::QueueLoadFailed(reason) => {
                &&& post == Queue { loading: false, draining: false, failure: post.failure, ..pre }
                &&& post.failure is Some
                &&& post.failure->0.of("the queue"@, reason)
                &&& out.says(Level::Error, reason@)
            },
            Action::QueueRefresh => {
                &&& post == Queue { loading: true, confirm_drop: false, ..pre }
                &&& out.asks(seq![Effect::Call(Request::LoadQueue)])
            },
            Action::QueueSelectMove(d) => {
                &&& post == Queue {
                    confirm_drop: false,
                    selected: if pre.intents@.len() > 0 {
                        stepped(pre.selected as int, d as int, pre.intents@.len() as int) as usize
                    } else {
                        pre.selected
                    },
                    ..pre
                }
                &&& out.quiet()
            },
            Action::QueueRetry => if pre.draining {
                post == pre && out.quiet()
            } else {
                &&& post == Queue { draining: true, confirm_drop: false, ..pre }
                &&& out.asks(seq![Effect::Call(Request::RetryQueue)])
            },
            Action::QueueDropSelected => match pre.chosen() {
                None => post == pre && out.quiet(),
                Some(i) => if !(i.state is Diverged) {
                    &&& post == Queue { confirm_drop: false, ..pre }
                    &&& out.says(
                        Level::Warning,
                        "only a diverged write can be dropped — pending writes replay on their own"@,
                    )
                } else if !pre.confirm_drop {
                    &&& post == Queue { confirm_drop: true, ..pre }
                    &&& out.says(
                        Level::Warning,
                        "drop this queued write? `x` again to confirm — it will never be written"@,
                    )
                } else {
                    &&& post == Queue { confirm_drop: false, ..pre }
                    &&& out.asks(seq![Effect::Call(Request::DropIntent(i.id))])
                },
            },
            Action::QueueOpenReconcile => {
                &&& post == pre
                &&& match pre.chosen() {
                    None => out.quiet(),
                    Some(i) => if i.state is Diverged {
                        out.asks(seq![Effect::Send(Action::Goto(ScreenKind::Timer))])
                    } else {
                        out.says(
                            Level::Info,
                            "nothing to reconcile — this write isn't diverged"@,
                        )
                    },
                }
            },
            _ => post == pre && out.quiet(),
        }
    }

    /// Entering the screen reads the queue.
    pub fn on_enter(&mut self) -> (out: Vec<Effect>)
        ensures
            *final(self) == (Queue { loading: true, ..*old(self) }),
            out@ == seq![Effect::Call(Request::LoadQueue)],
    {
        self.loading = true;
        Outcome::call(Request::LoadQueue).effects
    }

    /// The screen owns no key of its own.
    pub fn intercept_key(&mut self, _key: KeyEvent) -> (res: Option<Action>)
        ensures
            *final(self) == *old(self),
            res is None,
    {
        None
    }

    fn drop_selected(&mut self) -> (out: Outcome)
        ensures
            Self::handled(*old(self), Action::QueueDropSelected, *final(self), out),
    {
        if self.selected >= self.intents.len() {
            return Outcome::none();
        }
        let id: u64 = self.intents[self.selected].id;
        if !self.intents[self.selected].is_diverged() {
            self.confirm_drop = false;
            return Outcome::say(
                Level::Warning,
                own(
                    "only a diverged write can be dropped — pending writes replay on their own",
                ),
            );
        }
        if !self.confirm_drop {
            self.confirm_drop = true;
            return Outcome::say(
                Level::Warning,
                own("drop this queued write? `x` again to confirm — it will never be written"),
            );
        }
        self.confirm_drop = false;
        Outcome::call(Request::DropIntent(id))
    }

    /// How the screen answers an action.
    #[verifier::rlimit(40)]
    pub fn handle(&mut self, action: Action) -> (out: Outcome)
        ensures
            Self::handled(*old(self), action, *final(self), out),
    {
        match action {
            Action::QueueLoaded(intents) => {
                self.intents = intents;
                self.loading = false;
                self.failure = None;
                self.draining = false;
                self.confirm_drop = false;
                let n: usize = self.intents.len();
                self.selected = clamp(self.selected, n);
            },
            Action::QueueLoadFailed(reason) => {
                let shown = reason.clone();
                self.loading = false;
                self.draining = false;
                self.failure = Some(PanelFailure::new("the queue", reason));
                return Outcome::say(Level::Error, shown);
            },
            Action::QueueRefresh => {
                self.loading = true;
                self.confirm_drop = false;
                return Outcome::call(Request::LoadQueue);
            },
            Action::QueueSelectMove(d) => {
                self.confirm_drop = false;
                let n: usize = self.intents.len();
                if n > 0 {
                    self.selected = step(self.selected, d, n);
                }
            },
            Action::QueueRetry => {
                if !self.draining {
                    self.draining = true;
                    self.confirm_drop = false;
                    return Outcome::call(Request::RetryQueue);
                }
            },
            Action::QueueDropSelected => {
                return self.drop_selected();
            },
            Action::QueueOpenReconcile => {
                if self.selected < self.intents.len() {
                    if self.intents[self.selected].is_diverged() {
                        return Outcome::send(Action::Goto(ScreenKind::Timer));
                    }
                    return Outcome::say(
                        Level::Info,
                        own("nothing to reconcile — this write isn't diverged"),
                    );
                }
            },
            _ => {},
        }
        Outcome::none()
    }

    // ---- what the panel says ----

    /// The panel's title: how many wait, and how long the first has.
    pub open spec fn title_text(self, now: int) -> Seq<char> {
        if self.intents@.len() == 0 {
            "Queue"@
        } else {
            "Queue · "@ + decimal(self.intents@.len()) + " · oldest "@ + age_text(
                self.intents@[0].queued_at as int,
                now,
            ) + " ago"@
        }
    }

    /// The panel's title.
    pub fn panel_title(&self, now: i64) -> (res: String)
        ensures
            res@ == self.title_text(now as int),
    {
        if self.intents.len() == 0 {
            return own("Queue");
        }
        let depth = show(self.intents.len() as u64);
        let age = fmt_age(self.intents[0].queued_at, now);
        cat5("Queue · ", depth.as_str(), " · oldest ", age.as_str(), " ago")
    }

    /// Why the queue shows no rows; none where it does.
    pub open spec fn panel_model(self) -> Option<PanelModel> {
        if self.intents@.len() > 0 {
            None
        } else if self.failure is Some {
            Some(PanelModel::Failed(self.failure->0))
        } else if self.loading {
            Some(PanelModel::Loading)
        } else {
            Some(PanelModel::Empty("queue empty · everything synced"@))
        }
    }

    /// Why the queue shows no rows; none where it does.
    pub fn panel_state(&self) -> (res: Option<PanelState>)
        ensures
            res is Some <==> self.panel_model() is Some,
            res matches Some(s) ==> s@ == self.panel_model()->0,
    {
        if self.intents.len() > 0 {
            return None;
        }
        if let Some(f) = &self.failure {
            return Some(PanelState::Failed(f));
        }
        if self.loading {
            Some(PanelState::Loading)
        } else {
            Some(PanelState::Empty { hint: own("queue empty · everything synced") })
        }
    }

    /// A row: the number, the verb, the stream, the age and the state. A parked
    /// write is muted and says why.
    pub open spec fn row_text(i: Intent, now: int) -> Seq<(Tone, Seq<char>)> {
        let calm = if i.state is Parked {
            Tone::Muted
        } else {
            Tone::Plain
        };
        seq![
            (calm, decimal(i.id as nat)),
            (calm, i.word@),
            (calm, i.stream@),
            (calm, age_text(i.queued_at as int, now)),
            match i.state {
                IntentState::Pending => (Tone::Accent, "pending"@),
                IntentState::Diverged => (Tone::DangerBold, "diverged"@),
                IntentState::Parked { reason } => (Tone::Muted, "parked · "@ + reason@),
            },
        ]
    }

    /// The list's column heads.
    pub fn columns() -> (res: Vec<&'static str>)
        ensures
            res@ == seq!["#", "INTENT", "TARGET", "AGE", "STATE"],
    {
        let v = vec!["#", "INTENT", "TARGET", "AGE", "STATE"];
        assert(v@ =~= seq!["#", "INTENT", "TARGET", "AGE", "STATE"]);
        v
    }

    /// A row of the list.
    pub fn intent_row(i: &Intent, now: i64) -> (res: Line)
        ensures
            res@ == Self::row_text(*i, now as int),
    {
        let calm = if i.is_parked() {
            Tone::Muted
        } else {
            Tone::Plain
        };
        let line = Line::of(calm, show(i.id)).with(calm, i.word.clone()).with(
            calm,
            i.stream.clone(),
        ).with(calm, fmt_age(i.queued_at, now));
        let line = match &i.state {
            IntentState::Pending => line.with(Tone::Accent, own("pending")),
            IntentState::Diverged => line.with(Tone::DangerBold, own("diverged")),
            IntentState::Parked { reason } => line.with(
                Tone::Muted,
                cat2("parked · ", reason.as_str()),
            ),
        };
        assert(line@ =~= Self::row_text(*i, now as int));
        line
    }

    /// What the footer offers.
    pub open spec fn offered(self, f: Footer) -> bool {
        f.offers(
            seq![
                ("j/k", "move"),
                ("r", "retry"),
                ("x", "drop"),
                ("⏎", "reconcile"),
                ("q", "close"),
            ],
        )
    }

    /// What the footer offers.
    pub fn hints(&self) -> (res: Footer)
        ensures
            self.offered(res),
    {
        Footer::Keys(
            vec![
                ("j/k", "move"),
                ("r", "retry"),
                ("x", "drop"),
                ("⏎", "reconcile"),
                ("q", "close"),
            ],
        )
    }
}

/// The age of what was queued at `second`, in the largest unit that fills.
pub open spec fn age_text(second: int, now: int) -> Seq<char> {
    let secs = if now > second {
        now - second
    } else {
        0
    };
    if secs < 60 {
        decimal(secs as nat) + "s"@
    } else if secs < 3600 {
        decimal((secs / 60) as nat) + "m"@
    } else if secs < 86400 {
        decimal((secs / 3600) as nat) + "h"@
    } else {
        decimal((secs / 86400) as nat) + "d"@
    }
}

/// The age of what was queued at `second`.
pub fn fmt_age(second: i64, now: i64) -> (res: String)
    ensures
        res@ == age_text(second as int, now as int),
{
    let secs: u64 = if now > second {
        (now as i128 - second as i128) as u64
    } else {
        0
    };
    if secs < 60 {
        cat2(show(secs).as_str(), "s")
    } else if secs < 3600 {
        cat2(show(secs / 60).as_str(), "m")
    } else if secs < 86400 {
        cat2(show(secs / 3600).as_str(), "h")
    } else {
        cat2(show(secs / 86400).as_str(), "d")
    }
}

// ---- what the calls answer ----

/// What the read of the queue sends back.
pub fn queue_read(reply: Result<Vec<Intent>, String>) -> (res: Action)
    ensures
        res == (match reply {
            Ok(intents) => Action::QueueLoaded(intents),
            Err(e) => Action::QueueLoadFailed(e),
        }),
{
    match reply {
        Ok(intents) => Action::QueueLoaded(intents),
        Err(e) => Action::QueueLoadFailed(e),
    }
}

/// What a drain that could not start sends back, before the fresh read.
pub fn retry_refused(fault: &Fault) -> (res: Vec<Action>)
    ensures
        res@.len() == 2,
        notifies(res@[0], Level::Error, "retry failed: "@ + fault.shown@),
        res@[1] == Action::QueueRefresh,
{
    two(
        notice(Level::Error, cat2("retry failed: ", fault.shown.as_str())),
        Action::QueueRefresh,
    )
}

/// What came of a drop: the verb of the write that left, why the store kept it,
/// or why the store could not be opened.
#[derive(Debug)]
pub enum DropReply {
    Gone(String),
    Kept(String),
    Unopened(String),
}

/// What follows a drop: the notice, whether the writes behind it are replayed, and
/// what is sent last.
#[derive(Debug)]
pub struct DropSteps {
    pub told: Action,
    pub drain: bool,
    pub last: Option<Action>,
}

/// What follows a drop. The writes behind one that left are replayed, and the list
/// is read again unless the store could not be opened.
pub fn dropped(reply: DropReply) -> (res: DropSteps)
    ensures
        match reply {
            DropReply::Gone(word) => notifies(
                res.told,
                Level::Success,
                "dropped — the queued "@ + word@ + " left the queue; nothing was written"@,
            ),
            DropReply::Kept(e) => notifies(
                res.told,
                Level::Error,
                "drop refused: "@ + e@ + " — the intent stays as it was"@,
            ),
            DropReply::Unopened(e) => notifies(res.told, Level::Error, "drop failed: "@ + e@),
        },
        res.drain <==> reply is Gone,
        res.last == (if reply is Unopened {
            None
        } else {
            Some(Action::QueueRefresh)
        }),
{
    match reply {
        DropReply::Gone(word) => DropSteps {
            told: notice(
                Level::Success,
                cat3(
                    "dropped — the queued ",
                    word.as_str(),
                    " left the queue; nothing was written",
                ),
            ),
            drain: true,
            last: Some(Action::QueueRefresh),
        },
        DropReply::Kept(e) => DropSteps {
            told: notice(
                Level::Error,
                cat3("drop refused: ", e.as_str(), " — the intent stays as it was"),
            ),
            drain: false,
            last: Some(Action::QueueRefresh),
        },
        DropReply::Unopened(e) => DropSteps {
            told: notice(Level::Error, cat2("drop failed: ", e.as_str())),
            drain: false,
            last: None,
        },
    }
}

/// Only a write that the server refused can be dropped, and only on the second
/// press.
pub proof fn a_drop_is_confirmed(pre: Queue, action: Action, post: Queue, out: Outcome, id: u64)
    requires
        Queue::handled(pre, action, post, out),
        out.effects@.len() == 1,
        out.effects@[0] == Effect::Call(Request::DropIntent(id)),
    ensures
        action is QueueDropSelected,
        pre.confirm_drop,
        pre.chosen() matches Some(i) && i.id == id && i.state is Diverged,
{
}

/// A move, a retry or a fresh list takes the first press back.
pub proof fn another_gesture_disarms(pre: Queue, action: Action, post: Queue, out: Outcome)
    requires
        action is QueueSelectMove || action is QueueRefresh || action is QueueLoaded || (
        action is QueueRetry && !pre.draining),
        Queue::handled(pre, action, post, out),
    ensures
        !post.confirm_drop,
{
}

/// A drain is sent once until the list is read again.
pub proof fn one_drain_at_a_time(a: Queue, b: Queue, c: Queue, x: Outcome, y: Outcome)
    requires
        Queue::handled(a, Action::QueueRetry, b, x),
        Queue::handled(b, Action::QueueRetry, c, y),
    ensures
        b.draining,
        y.quiet(),
        c == b,
{
}

/// A failed read is never shown as a queue in sync.
pub proof fn a_failure_is_never_synced(pre: Queue, reason: String, post: Queue, out: Outcome)
    requires
        pre.intents@.len() == 0,
        Queue::handled(pre, Action::QueueLoadFailed(reason), post, out),
    ensures
        post.panel_model() matches Some(PanelModel::Failed(f)) && f.of("the queue"@, reason),
{
}

/// A drop goes to the write under the cursor, whichever row that is: the first press
/// only arms it, the second one asks for exactly that write to leave.
pub proof fn a_drop_goes_to_the_selected_write(
    a: Queue,
    b: Queue,
    c: Queue,
    x: Outcome,
    y: Outcome,
)
    requires
        a.selected < a.intents@.len(),
        a.intents@[a.selected as int].state is Diverged,
        !a.confirm_drop,
        Queue::handled(a, Action::QueueDropSelected, b, x),
        Queue::handled(b, Action::QueueDropSelected, c, y),
    ensures
        x.effects@.len() == 0,
        x.note is Some,
        b.confirm_drop,
        y.effects@ == seq![
            Effect::Call(Request::DropIntent(a.intents@[a.selected as int].id)),
        ],
        !c.confirm_drop,
        c.intents == a.intents,
{
}

/// A write that the server has not refused is never dropped.
pub proof fn only_a_diverged_write_is_dropped(pre: Queue, post: Queue, out: Outcome)
    requires
        pre.selected < pre.intents@.len(),
        !(pre.intents@[pre.selected as int].state is Diverged),
        Queue::handled(pre, Action::QueueDropSelected, post, out),
    ensures
        out.effects@.len() == 0,
        out.note is Some,
        !post.confirm_drop,
{
}

/// `Enter` on a diverged write goes to the timer, where it is reconciled; on any other
/// one it goes nowhere.
pub proof fn a_diverged_write_is_reconciled_at_the_timer(pre: Queue, post: Queue, out: Outcome)
    requires
        pre.selected < pre.intents@.len(),
        Queue::handled(pre, Action::QueueOpenReconcile, post, out),
    ensures
        pre.intents@[pre.selected as int].state is Diverged ==> out.effects@ == seq![
            Effect::Send(Action::Goto(ScreenKind::Timer)),
        ],
        !(pre.intents@[pre.selected as int].state is Diverged) ==> out.effects@.len() == 0
            && out.note is Some,
        post == pre,
{
}

/// A retry asks for one drain, and a fresh list makes room for the next.
pub proof fn a_retry_drains_once(
    a: Queue,
    b: Queue,
    intents: Vec<Intent>,
    c: Queue,
    x: Outcome,
    y: Outcome,
)
    requires
        !a.draining,
        Queue::handled(a, Action::QueueRetry, b, x),
        Queue::handled(b, Action::QueueLoaded(intents), c, y),
    ensures
        x.effects@ == seq![Effect::Call(Request::RetryQueue)],
        b.draining,
        !c.draining,
        c.intents == intents,
        c.failure is None,
        y.effects@.len() == 0,
{
}

/// A step lands on the write that far away, or on an end, and disarms.
pub proof fn a_step_walks_the_writes(pre: Queue, d: i32, post: Queue, out: Outcome)
    requires
        pre.selected < pre.intents@.len() <= usize::MAX,
        Queue::handled(pre, Action::QueueSelectMove(d), post, out),
    ensures
        0 <= pre.selected + d < pre.intents@.len() ==> post.selected == pre.selected + d,
        pre.selected + d < 0 ==> post.selected == 0,
        pre.selected + d >= pre.intents@.len() ==> post.selected == pre.intents@.len() - 1,
        post.intents == pre.intents,
        !post.confirm_drop,
        out.effects@.len() == 0,
{
}

/// A refresh reads the queue, and a failed read keeps the writes that were shown.
pub proof fn a_failed_read_keeps_the_writes(pre: Queue, action: Action, post: Queue, out: Outcome)
    requires
        action is QueueRefresh || action is QueueLoadFailed,
        Queue::handled(pre, action, post, out),
    ensures
        post.intents == pre.intents,
        post.selected == pre.selected,
        action is QueueRefresh ==> out.effects@ == seq![Effect::Call(Request::LoadQueue)],
        action is QueueLoadFailed ==> out.effects@.len() == 0 && post.failure is Some,
{
}

/// A drop that went through is followed by a drain and a fresh list; one that the store
/// refused by a fresh list; one that found no store by neither.
pub proof fn what_follows_a_drop(reply: DropReply, steps: DropSteps)
    requires
        call_ensures(dropped, (reply,), steps),
    ensures
        steps.drain <==> reply is Gone,
        steps.last is Some <==> !(reply is Unopened),
        steps.last matches Some(a) ==> a is QueueRefresh,
        steps.told matches Action::Notify { level, .. } && (level == Level::Success <==> reply
            is Gone) && (level == Level::Error <==> !(reply is Gone)),
{
}

/// A row shows its own write: the number, the verb, the stream, the age and the state.
pub proof fn a_row_shows_its_write(i: Intent, now: int)
    ensures
        ({
            let row = Queue::row_text(i, now);
            &&& row.len() == 5
            &&& row[0].1 == decimal(i.id as nat)
            &&& row[1].1 == i.word@
            &&& row[2].1 == i.stream@
            &&& row[3].1 == age_text(i.queued_at as int, now)
            &&& i.state is Pending ==> row[4].1 == "pending"@
            &&& i.state is Diverged ==> row[4].1 == "diverged"@
            &&& i.state matches IntentState::Parked { reason } ==> row[4].1 == "parked · "@
                + reason@
        }),
{
}

/// An age is told in whole units: seconds within the minute, minutes within the hour,
/// hours within the day, days beyond.
pub proof fn an_age_is_told_in_whole_units(second: int, now: int, n: nat)
    ensures
        now <= second ==> age_text(second, now) == decimal(0) + "s"@,
        n < 60 && now - second == n ==> age_text(second, now) == decimal(n) + "s"@,
        1 <= n < 60 && n * 60 <= now - second < (n + 1) * 60 ==> age_text(second, now) == decimal(n)
            + "m"@,
        1 <= n < 24 && n * 3600 <= now - second < (n + 1) * 3600 ==> age_text(second, now)
            == decimal(n) + "h"@,
        1 <= n && n * 86400 <= now - second < (n + 1) * 86400 ==> age_text(second, now)
            == decimal(n) + "d"@,
{
}

/// What was read reaches the screen as it came, and a failure in its words; a drain that
/// could not start is said, and the queue read again.
pub proof fn a_read_reaches_the_queue(
    reply: Result<Vec<Intent>, String>,
    sent: Action,
    fault: &Fault,
    refused: Vec<Action>,
)
    requires
        call_ensures(queue_read, (reply,), sent),
        call_ensures(retry_refused, (fault,), refused),
    ensures
        reply matches Ok(intents) ==> sent == Action::QueueLoaded(intents),
        reply matches Err(e) ==> sent == Action::QueueLoadFailed(e),
        refused@.len() == 2,
        refused@[0] matches Action::Notify { level, text } && level == Level::Error && text@
            == "retry failed: "@ + fault.shown@,
        refused@[1] is QueueRefresh,
{
}

/// A fresh list keeps the cursor on its row where that row is there, and else puts it on the
/// last one.
pub proof fn a_load_keeps_the_row(pre: Queue, intents: Vec<Intent>, post: Queue, out: Outcome)
    requires
        intents@.len() <= usize::MAX,
        Queue::handled(pre, Action::QueueLoaded(intents), post, out),
    ensures
        pre.selected < intents@.len() ==> post.selected == pre.selected,
        pre.selected >= intents@.len() && intents@.len() > 0 ==> post.selected == intents@.len()
            - 1,
{
}

/// The title counts the writes and gives the age of the first, which has waited longest.
pub proof fn the_title_counts_the_writes(s: Queue, now: int)
    ensures
        s.intents@.len() == 0 ==> s.title_text(now) == "Queue"@,
        s.intents@.len() > 0 ==> s.title_text(now) == "Queue · "@ + decimal(s.intents@.len())
            + " · oldest "@ + age_text(s.intents@[0].queued_at as int, now) + " ago"@,
{
}

/// Every field keeps its value but through the actions that are about it.
pub proof fn what_an_action_leaves_alone(
    pre: Queue,
    action: Action,
    post: Queue,
    out: Outcome,
)
    requires
        Queue::handled(pre, action, post, out),
    ensures
        post.intents == pre.intents || action is QueueLoaded,
        post.selected == pre.selected || action is QueueLoaded || action is QueueSelectMove,
        post.loading == pre.loading || action is QueueLoaded || action is QueueLoadFailed
            || action is QueueRefresh,
        post.failure == pre.failure || action is QueueLoaded || action is QueueLoadFailed,
        post.confirm_drop == pre.confirm_drop || action is QueueLoaded || action is QueueRefresh
            || action is QueueSelectMove || action is QueueRetry || action is QueueDropSelected,
        post.draining == pre.draining || action is QueueLoaded || action is QueueLoadFailed
            || action is QueueRetry,
{
}

/// Only these actions say something, and only these send something; a read under way is
/// marked until it is answered.
pub proof fn which_actions_are_heard(
    pre: Queue,
    action: Action,
    post: Queue,
    out: Outcome,
)
    requires
        Queue::handled(pre, action, post, out),
    ensures
        out.note is None || action is QueueLoadFailed || action is QueueDropSelected
            || action is QueueOpenReconcile,
        out.effects@.len() == 0 || action is QueueRefresh || action is QueueRetry
            || action is QueueDropSelected || action is QueueOpenReconcile,
        out.effects@.len() <= 1,
        action is QueueRefresh ==> post.loading,
        (action is QueueLoaded || action is QueueLoadFailed) ==> !post.loading,
{
}

/// A write that cannot be dropped or reconciled is said to be so, and the first press of
/// a drop asks for the second.
pub proof fn what_a_gesture_on_a_write_is_told(
    pre: Queue,
    drop_post: Queue,
    drop_out: Outcome,
    fix_post: Queue,
    fix_out: Outcome,
)
    requires
        pre.selected < pre.intents@.len(),
        Queue::handled(pre, Action::QueueDropSelected, drop_post, drop_out),
        Queue::handled(pre, Action::QueueOpenReconcile, fix_post, fix_out),
    ensures
        !(pre.intents@[pre.selected as int].state is Diverged) ==> {
            &&& drop_out.note is Some
            &&& (drop_out.note->0).0 == Level::Warning
            &&& (drop_out.note->0).1@
                == "only a diverged write can be dropped — pending writes replay on their own"@
            &&& fix_out.note is Some
            &&& (fix_out.note->0).0 == Level::Info
            &&& (fix_out.note->0).1@ == "nothing to reconcile — this write isn't diverged"@
        },
        pre.intents@[pre.selected as int].state is Diverged && !pre.confirm_drop ==> {
            &&& drop_out.note is Some
            &&& (drop_out.note->0).0 == Level::Warning
            &&& (drop_out.note->0).1@
                == "drop this queued write? `x` again to confirm — it will never be written"@
        },
{
}

/// The screen starts empty, with nothing read, armed or drained.
pub proof fn how_the_screen_starts(s: Queue)
    requires
        call_ensures(Queue::default, (), s),
    ensures
        s.intents@.len() == 0,
        s.selected == 0,
        !s.loading,
        s.failure is None,
        !s.confirm_drop,
        !s.draining,
{
}

} // verus!
