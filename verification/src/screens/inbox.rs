//! Inbox: the drafts that wait for a decision, expiring first, and the verbs
//! that accept, acknowledge and reject one.

use crate::action::{notice, notifies, two, Action, Effect, Outcome, Request, TriageVerb};
use crate::cursor::{clamp, clamped, step, stepped};
use crate::dates::{left_text, left_text_of, now_second};
use crate::json::{fields_text, labelled_fields, pairs};
use crate::keys::{KeyCode, KeyEvent};
use crate::line::{no_lines, page, push_line, Footer, Line, Tone};
use crate::model::{Fault, FaultKind, Task};
use crate::notify::Level;
use crate::text::{
    cat2, cat3, cat4, decimal, own, pad, padded, show, signed_decimal, show_signed, trim, trimmed,
};
use vstd::prelude::*;

verus! {

/// A draft that expires within so many seconds earns the amber badge.
pub const EXPIRING_SOON_SECS: i128 = 172_800;

/// A draft that expires within so many seconds is urgent.
pub const EXPIRING_URGENT_SECS: i128 = 43_200;

/// The stages of the screen: the list, or one draft opened.
#[derive(Debug, Clone, Copy, PartialEq, Eq, Structural)]
pub enum Stage {
    List,
    Draft,
}

/// The rejection being worded. It is sent once, on commit.
#[derive(Debug)]
pub struct Rejecting {
    pub id: i64,
    pub prompt: String,
    pub reason: String,
}

/// The inbox screen.
#[derive(Debug)]
pub struct Inbox {
    /// The pending drafts, expiring first.
    pub tasks: Vec<Task>,
    pub selected: usize,
    pub loading: bool,
    pub error: Option<String>,
    pub stage: Stage,
    pub rejecting: Option<Rejecting>,
    /// A verb is on its way: no second one is sent before the list is read again.
    pub in_flight: bool,
}

impl Default for Inbox {
    fn default() -> (res: Self)
        ensures
            res.fresh(),
    {
        Inbox {
            tasks: Vec::new(),
            selected: 0,
            loading: false,
            error: None,
            stage: Stage::List,
            rejecting: None,
            in_flight: false,
        }
    }
}

// ---- the order of the queue ----

/// The instant a draft is ordered by: its expiry, or the end of time.
pub open spec fn due(t: Task) -> i64 {
    match t.expires_at {
        Some(e) => e,
        None => i64::MAX,
    }
}

fn due_of(t: &Task) -> (res: i64)
    ensures
        res == due(*t),
{
    match t.expires_at {
        Some(e) => e,
        None => i64::MAX,
    }
}

/// The drafts ordered by one instant, in order.
pub open spec fn due_at(tasks: Seq<Task>, k: i64) -> Seq<Task>
    decreases tasks.len(),
{
    if tasks.len() == 0 {
        Seq::empty()
    } else if due(tasks.last()) == k {
        due_at(tasks.drop_last(), k).push(tasks.last())
    } else {
        due_at(tasks.drop_last(), k)
    }
}

/// Whether the drafts stand by their instants.
pub open spec fn in_due_order(tasks: Seq<Task>) -> bool {
    forall|i: int, j: int|
        0 <= i < j < tasks.len() ==> due(#[trigger] tasks[i]) <= due(#[trigger] tasks[j])
}

/// Whether `queue` holds the drafts of `tasks`, expiring first, and drafts of one
/// instant in the order they came.
pub open spec fn expiring_first(tasks: Seq<Task>, queue: Seq<Task>) -> bool {
    &&& queue.len() == tasks.len()
    &&& in_due_order(queue)
    &&& forall|k: i64| #[trigger] due_at(queue, k) == due_at(tasks, k)
}

proof fn lemma_due_of_sum(a: Seq<Task>, b: Seq<Task>, k: i64)
    ensures
        due_at(a + b, k) == due_at(a, k) + due_at(b, k),
    decreases b.len(),
{
    if b.len() == 0 {
        assert(a + b =~= a);
        assert(due_at(a, k) + due_at(b, k) =~= due_at(a, k));
    } else {
        assert((a + b).drop_last() =~= a + b.drop_last());
        assert((a + b).last() == b.last());
        lemma_due_of_sum(a, b.drop_last(), k);
        assert(due_at(a + b, k) =~= due_at(a, k) + due_at(b, k));
    }
}

proof fn lemma_none_due(tasks: Seq<Task>, k: i64)
    requires
        forall|i: int| 0 <= i < tasks.len() ==> due(#[trigger] tasks[i]) != k,
    ensures
        due_at(tasks, k) == Seq::<Task>::empty(),
    decreases tasks.len(),
{
    if tasks.len() > 0 {
        assert(due(tasks[tasks.len() - 1]) != k);
        assert forall|i: int| 0 <= i < tasks.drop_last().len() implies due(
            #[trigger] tasks.drop_last()[i],
        ) != k by {
            assert(tasks.drop_last()[i] == tasks[i]);
        }
        lemma_none_due(tasks.drop_last(), k);
    }
}

/// A draft set behind the last one that is not due after it keeps the order.
proof fn lemma_insert(all: Seq<Task>, queue: Seq<Task>, t: Task, at: int)
    requires
        expiring_first(all, queue),
        0 <= at <= queue.len(),
        forall|i: int| 0 <= i < at ==> due(#[trigger] queue[i]) <= due(t),
        forall|i: int| at <= i < queue.len() ==> due(#[trigger] queue[i]) > due(t),
    ensures
        expiring_first(all.push(t), queue.insert(at, t)),
{
    let next = queue.insert(at, t);
    let head = queue.take(at);
    let tail = queue.skip(at);
    assert(queue =~= head + tail);
    assert(next =~= (head + seq![t]) + tail);
    assert forall|i: int, j: int| 0 <= i < j < next.len() implies due(#[trigger] next[i]) <= due(
        #[trigger] next[j],
    ) by {
        let a = if i < at {
            i
        } else {
            i - 1
        };
        let b = if j < at {
            j
        } else {
            j - 1
        };
        if i != at {
            assert(next[i] == queue[a]);
        }
        if j != at {
            assert(next[j] == queue[b]);
        }
    }
    assert forall|k: i64| #[trigger] due_at(next, k) == due_at(all.push(t), k) by {
        lemma_due_of_sum(head + seq![t], tail, k);
        lemma_due_of_sum(head, seq![t], k);
        lemma_due_of_sum(head, tail, k);
        assert(due_at(queue, k) == due_at(all, k));
        assert(all.push(t).drop_last() =~= all);
        assert(seq![t].drop_last() =~= Seq::<Task>::empty());
        assert(due_at(Seq::<Task>::empty(), k) =~= Seq::<Task>::empty());
        if k == due(t) {
            assert forall|i: int| 0 <= i < tail.len() implies due(#[trigger] tail[i]) != k by {
                assert(tail[i] == queue[at + i]);
            }
            lemma_none_due(tail, k);
            assert(due_at(next, k) =~= due_at(all, k).push(t));
        } else {
            assert(due_at(next, k) =~= due_at(all, k));
        }
    }
}

fn sorted(tasks: Vec<Task>) -> (res: Vec<Task>)
    ensures
        expiring_first(tasks@, res@),
{
    let mut queue: Vec<Task> = Vec::new();
    let ghost all = tasks@;
    for t in it: tasks
        invariant
            it.seq() == all,
            expiring_first(all.take(it.index() as int), queue@),
    {
        let k: i64 = due_of(&t);
        let mut at: usize = queue.len();
        while at > 0 && due_of(&queue[at - 1]) > k
            invariant
                at <= queue.len(),
                forall|i: int| at <= i < queue@.len() ==> due(#[trigger] queue@[i]) > k,
            decreases at,
        {
            at = at - 1;
        }
        proof {
            if at > 0 {
                assert forall|i: int| 0 <= i < at implies due(#[trigger] queue@[i]) <= k by {
                    if i < at - 1 {
                        assert(due(queue@[i]) <= due(queue@[at - 1]));
                    }
                }
            }
            lemma_insert(all.take(it.index() as int), queue@, t, at as int);
            assert(all.take(it.index() as int).push(t) =~= all.take(it.index() as int + 1));
        }
        queue.insert(at, t);
    }
    assert(all.take(all.len() as int) =~= all);
    queue
}

// ---- the screen ----

impl TriageVerb {
    /// What became of a draft, in a word.
    pub open spec fn word_text(self) -> Seq<char> {
        match self {
            TriageVerb::Accept => "accepted"@,
            TriageVerb::Acknowledge => "acknowledged"@,
            TriageVerb::Reject(_) => "rejected"@,
        }
    }

    /// What became of a draft, in a word.
    pub fn word(&self) -> (res: &'static str)
        ensures
            res@ == self.word_text(),
    {
        match self {
            TriageVerb::Accept => "accepted",
            TriageVerb::Acknowledge => "acknowledged",
            TriageVerb::Reject(_) => "rejected",
        }
    }
}

/// The draft in words: its prompt, or a placeholder.
pub open spec fn prompt_text(t: Task) -> Seq<char> {
    match t.prompt {
        Some(p) => p@,
        None => "(draft)"@,
    }
}

/// The draft in words.
pub fn draft_prompt(t: &Task) -> (res: String)
    ensures
        res@ == prompt_text(*t),
{
    match &t.prompt {
        Some(p) => p.clone(),
        None => own("(draft)"),
    }
}

/// Whether a draft expires within the amber window at `now`.
pub open spec fn soon(t: Task, now: int) -> bool {
    t.expires_at matches Some(e) && e - now < EXPIRING_SOON_SECS
}

/// Whether a draft expires within the amber window at `now`.
pub fn expires_soon(t: &Task, now: i64) -> (res: bool)
    ensures
        res == soon(*t, now as int),
{
    match t.expires_at {
        Some(e) => e as i128 - (now as i128) < EXPIRING_SOON_SECS,
        None => false,
    }
}

/// Whether a draft expires within the amber window. The clock is the system's;
/// what it says holds at some instant.
pub fn is_expiring_soon(t: &Task) -> (res: bool)
    ensures
        t.expires_at is None ==> !res,
        exists|now: i64| res == #[trigger] soon(*t, now as int),
{
    let now: i64 = now_second();
    expires_soon(t, now)
}

impl Inbox {
    /// A screen that has read nothing.
    pub open spec fn fresh(self) -> bool {
        &&& self.tasks@ == Seq::<Task>::empty()
        &&& self.selected == 0
        &&& !self.loading
        &&& self.error is None
        &&& self.stage == Stage::List
        &&& self.rejecting is None
        &&& !self.in_flight
    }

    /// The stage the screen is in.
    pub fn stage(&self) -> (res: Stage)
        ensures
            res == self.stage,
    {
        self.stage
    }

    /// The draft under the cursor.
    pub open spec fn chosen(self) -> Option<Task> {
        if self.selected < self.tasks@.len() {
            Some(self.tasks@[self.selected as int])
        } else {
            None
        }
    }

    /// The screen with its cursor moved.
    pub open spec fn moved(pre: Self, delta: int) -> Self {
        Inbox {
            selected: if pre.tasks@.len() > 0 {
                stepped(pre.selected as int, delta, pre.tasks@.len() as int) as usize
            } else {
                pre.selected
            },
            ..pre
        }
    }

    /// A verb is sent for the draft under the cursor, unless one is on its way.
    pub open spec fn fires(pre: Self, verb: TriageVerb, post: Self, out: Outcome) -> bool {
        match pre.chosen() {
            Some(t) => if pre.in_flight {
                post == pre && out.quiet()
            } else {
                &&& post == Inbox { in_flight: true, ..pre }
                &&& out.asks(seq![Effect::Call(Request::Triage { id: t.id, verb })])
            },
            None => post == pre && out.quiet(),
        }
    }

    /// How the screen answers an action.
    pub open spec fn handled(pre: Self, action: Action, post: Self, out: Outcome) -> bool {
        match action {
            Action::InboxLoaded(tasks) => {
                &&& post == Inbox {
                    tasks: post.tasks,
                    loading: false,
                    error: None,
                    in_flight: false,
                    selected: clamped(pre.selected as int, tasks@.len() as int) as usize,
                    stage: if tasks@.len() == 0 {
                        Stage::List
                    } else {
                        pre.stage
                    },
                    ..pre
                }
                &&& expiring_first(tasks@, post.tasks@)
                &&& out.quiet()
            },
            Action::InboxLoadFailed(e) => {
                &&& post == Inbox { loading: false, error: Some(e), ..pre }
                &&& out.says(Level::Error, e@)
            },
            Action::RefreshInbox => {
                &&& post == Inbox {
                    loading: true,
                    stage: Stage::List,
                    rejecting: None,
                    in_flight: false,
                    ..pre
                }
                &&& out.asks(seq![Effect::Call(Request::ListDrafts)])
            },
            Action::InboxMove(d) => {
                &&& post == (if pre.stage == Stage::List {
                    Self::moved(pre, d as int)
                } else {
                    pre
                })
                &&& out.quiet()
            },
            Action::InboxOpen => {
                &&& post == Inbox {
                    stage: if pre.tasks@.len() > 0 {
                        Stage::Draft
                    } else {
                        pre.stage
                    },
                    ..pre
                }
                &&& out.quiet()
            },
            Action::InboxCloseDetail => post == Inbox { stage: Stage::List, ..pre } && out.quiet(),
            Action::InboxDraftStep(d) => {
                &&& post == (if pre.stage == Stage::Draft {
                    Self::moved(pre, d as int)
                } else {
                    pre
                })
                &&& out.quiet()
            },
            Action::InboxAccept => Self::fires(pre, TriageVerb::Accept, post, out),
            Action::InboxAck => Self::fires(pre, TriageVerb::Acknowledge, post, out),
            Action::InboxRejectBegin => {
                &&& match pre.chosen() {
                    Some(t) => {
                        &&& post == Inbox { rejecting: post.rejecting, ..pre }
                        &&& post.rejecting matches Some(r) && r.id == t.id && r.prompt@
                            == prompt_text(t) && r.reason@ == Seq::<char>::empty()
                    },
                    None => post == pre,
                }
                &&& out.quiet()
            },
            Action::InboxRejectInput(c) => {
                &&& post == Inbox { rejecting: post.rejecting, ..pre }
                &&& post.rejecting is Some <==> pre.rejecting is Some
                &&& pre.rejecting matches Some(r) ==> post.rejecting->0 == Rejecting {
                    reason: post.rejecting->0.reason,
                    ..r
                } && post.rejecting->0.reason@ == r.reason@.push(c)
                &&& out.quiet()
            },
            Action::InboxRejectBackspace => {
                &&& post == Inbox { rejecting: post.rejecting, ..pre }
                &&& post.rejecting is Some <==> pre.rejecting is Some
                &&& pre.rejecting matches Some(r) ==> post.rejecting->0 == Rejecting {
                    reason: post.rejecting->0.reason,
                    ..r
                } && post.rejecting->0.reason@ == (if r.reason@.len() > 0 {
                    r.reason@.drop_last()
                } else {
                    r.reason@
                })
                &&& out.quiet()
            },
            Action::InboxRejectSubmit => match pre.rejecting {
                Some(r) => if pre.in_flight {
                    post == Inbox { rejecting: None, ..pre } && out.quiet()
                } else {
                    &&& post == Inbox { rejecting: None, in_flight: true, ..pre }
                    &&& out.note is None
                    &&& out.effects@.len() == 1
                    &&& out.effects@[0] matches Effect::Call(
                        Request::Triage { id, verb: TriageVerb::Reject(reason) },
                    ) && id == r.id && (if trimmed(r.reason@).len() > 0 {
                        reason is Some && reason->0@ == trimmed(r.reason@)
                    } else {
                        reason is None
                    })
                },
                None => post == pre && out.quiet(),
            },
            Action::InboxRejectCancel => post == Inbox { rejecting: None, ..pre } && out.quiet(),
            Action::InboxActionFailed => post == Inbox { in_flight: false, ..pre } && out.quiet(),
            _ => post == pre && out.quiet(),
        }
    }

    /// Entering the screen reads the drafts.
    pub fn on_enter(&mut self) -> (out: Vec<Effect>)
        ensures
            *final(self) == (Inbox { loading: true, ..*old(self) }),
            out@ == seq![Effect::Call(Request::ListDrafts)],
    {
        self.loading = true;
        Outcome::call(Request::ListDrafts).effects
    }

    fn move_selection(&mut self, delta: i32)
        ensures
            *final(self) == Self::moved(*old(self), delta as int),
    {
        let n: usize = self.tasks.len();
        if n > 0 {
            self.selected = step(self.selected, delta, n);
        }
    }

    fn fire(&mut self, verb: TriageVerb) -> (out: Outcome)
        ensures
            Self::fires(*old(self), verb, *final(self), out),
    {
        if self.in_flight || self.selected >= self.tasks.len() {
            return Outcome::none();
        }
        let id: i64 = self.tasks[self.selected].id;
        self.in_flight = true;
        Outcome::call(Request::Triage { id, verb })
    }

    fn submit_rejection(&mut self) -> (out: Outcome)
        ensures
            Self::handled(*old(self), Action::InboxRejectSubmit, *final(self), out),
    {
        match self.rejecting.take() {
            Some(r) => {
                let reason = trim(r.reason.as_str());
                let reason = if reason.as_str().is_empty() {
                    None
                } else {
                    Some(reason)
                };
                if self.in_flight {
                    return Outcome::none();
                }
                self.in_flight = true;
                Outcome::call(Request::Triage { id: r.id, verb: TriageVerb::Reject(reason) })
            },
            None => Outcome::none(),
        }
    }

    /// How the screen answers an action.
    #[verifier::rlimit(60)]
    #[verifier::spinoff_prover]
    pub fn handle(&mut self, action: Action) -> (out: Outcome)
        ensures
            Self::handled(*old(self), action, *final(self), out),
    {
        match action {
            Action::InboxLoaded(tasks) => {
                self.tasks = sorted(tasks);
                self.loading = false;
                self.error = None;
                self.in_flight = false;
                let n: usize = self.tasks.len();
                self.selected = clamp(self.selected, n);
                if n == 0 {
                    self.stage = Stage::List;
                }
            },
            Action::InboxLoadFailed(e) => {
                let shown = e.clone();
                self.loading = false;
                self.error = Some(e);
                return Outcome::say(Level::Error, shown);
            },
            Action::RefreshInbox => {
                self.loading = true;
                self.stage = Stage::List;
                self.rejecting = None;
                self.in_flight = false;
                return Outcome::call(Request::ListDrafts);
            },
            Action::InboxMove(d) => {
                if self.stage == Stage::List {
                    self.move_selection(d);
                }
            },
            Action::InboxOpen => {
                if self.tasks.len() > 0 {
                    self.stage = Stage::Draft;
                }
            },
            Action::InboxCloseDetail => self.stage = Stage::List,
            Action::InboxDraftStep(d) => {
                if self.stage == Stage::Draft {
                    self.move_selection(d);
                }
            },
            Action::InboxAccept => {
                return self.fire(TriageVerb::Accept);
            },
            Action::InboxAck => {
                return self.fire(TriageVerb::Acknowledge);
            },
            Action::InboxRejectBegin => {
                if self.selected < self.tasks.len() {
                    let t = &self.tasks[self.selected];
                    self.rejecting = Some(
                        Rejecting { id: t.id, prompt: draft_prompt(t), reason: String::new() },
                    );
                }
            },
            Action::InboxRejectInput(c) => {
                if let Some(r) = &mut self.rejecting {
                    r.reason.push(c);
                }
            },
            Action::InboxRejectBackspace => {
                if let Some(r) = &mut self.rejecting {
                    let _ = r.reason.pop();
                }
            },
            Action::InboxRejectSubmit => {
                return self.submit_rejection();
            },
            Action::InboxRejectCancel => self.rejecting = None,
            Action::InboxActionFailed => self.in_flight = false,
            _ => {},
        }
        Outcome::none()
    }

    /// What the rejection being worded makes of a key.
    pub open spec fn intercepted(self, key: KeyEvent) -> Option<Action> {
        if self.rejecting is Some {
            match key.code {
                KeyCode::Enter => Some(Action::InboxRejectSubmit),
                KeyCode::Esc => Some(Action::InboxRejectCancel),
                KeyCode::Backspace => Some(Action::InboxRejectBackspace),
                KeyCode::Char(c) => Some(Action::InboxRejectInput(c)),
                _ => None,
            }
        } else {
            None
        }
    }

    /// The rejection being worded owns keys before the global keymap.
    pub fn intercept_key(&mut self, key: KeyEvent) -> (res: Option<Action>)
        ensures
            *final(self) == *old(self),
            res == old(self).intercepted(key),
    {
        if self.rejecting.is_some() {
            return match key.code {
                KeyCode::Enter => Some(Action::InboxRejectSubmit),
                KeyCode::Esc => Some(Action::InboxRejectCancel),
                KeyCode::Backspace => Some(Action::InboxRejectBackspace),
                KeyCode::Char(c) => Some(Action::InboxRejectInput(c)),
                _ => None,
            };
        }
        None
    }

    // ---- what the panel says ----

    /// The panel's title.
    pub open spec fn title_text(self) -> Seq<char> {
        if self.rejecting is Some {
            "Inbox · reject"@
        } else if self.stage == Stage::Draft {
            "Inbox · draft"@
        } else {
            "Inbox · "@ + decimal(self.tasks@.len()) + " pending"@
        }
    }

    /// The panel's title.
    pub fn panel_title(&self) -> (res: String)
        ensures
            res@ == self.title_text(),
    {
        if self.rejecting.is_some() {
            return own("Inbox · reject");
        }
        match self.stage {
            Stage::Draft => own("Inbox · draft"),
            Stage::List => cat3("Inbox · ", show(self.tasks.len() as u64).as_str(), " pending"),
        }
    }

    /// The heading of the list.
    pub open spec fn count_text(pending: nat) -> Seq<(Tone, Seq<char>)> {
        seq![
            (Tone::Header, decimal(pending) + " pending"@),
            (Tone::Muted, "  ·  expiring first"@),
        ]
    }

    /// The heading of the list.
    pub fn count_header(pending: usize) -> (res: Line)
        ensures
            res@ == Self::count_text(pending as nat),
    {
        let line = Line::of(
            Tone::Header,
            cat2(show(pending as u64).as_str(), " pending"),
        ).with(Tone::Muted, own("  ·  expiring first"));
        assert(line@ =~= Self::count_text(pending as nat));
        line
    }

    /// What an empty list says: loading, or that there is nothing left to decide.
    pub open spec fn zero_page(self) -> Seq<Seq<(Tone, Seq<char>)>> {
        if self.loading && self.error is None {
            seq![seq![(Tone::Plain, "loading…"@)]]
        } else {
            seq![
                Seq::empty(),
                seq![(Tone::SuccessBold, "✓ Inbox clear."@)],
                Seq::empty(),
                seq![(Tone::Muted, "Nothing to triage. New commits surface here when the"@)],
                seq![(Tone::Muted, "automation clusters them — quietly, as a count."@)],
            ]
        }
    }

    /// What an empty list says.
    pub fn zero_lines(&self) -> (res: Vec<Line>)
        ensures
            page(res@) == self.zero_page(),
    {
        let mut lines = no_lines();
        if self.loading && self.error.is_none() {
            push_line(&mut lines, Line::of(Tone::Plain, own("loading…")));
        } else {
            push_line(&mut lines, Line::empty());
            push_line(&mut lines, Line::of(Tone::SuccessBold, own("✓ Inbox clear.")));
            push_line(&mut lines, Line::empty());
            push_line(
                &mut lines,
                Line::of(
                    Tone::Muted,
                    own("Nothing to triage. New commits surface here when the"),
                ),
            );
            push_line(
                &mut lines,
                Line::of(Tone::Muted, own("automation clusters them — quietly, as a count.")),
            );
        }
        assert(page(lines@) =~= self.zero_page());
        lines
    }

    /// The badge of a draft at `now`: how long is left, louder the closer it is.
    pub open spec fn badge_text(t: Task, now: int) -> (Tone, Seq<char>) {
        match t.expires_at {
            None => (Tone::Plain, Seq::empty()),
            Some(e) => {
                let secs = e - now;
                let label = left_text_of(secs) + " left"@;
                if secs <= 0 {
                    (Tone::OnDanger, " expired "@)
                } else if secs < EXPIRING_URGENT_SECS {
                    (Tone::OnDanger, " "@ + label + " "@)
                } else if secs < EXPIRING_SOON_SECS {
                    (Tone::OnWarn, " "@ + label + " "@)
                } else {
                    (Tone::Muted, label)
                }
            },
        }
    }

    /// The badge of a draft at `now`.
    pub fn due_badge(t: &Task, now: i64) -> (res: (Tone, String))
        ensures
            (res.0, res.1@) == Self::badge_text(*t, now as int),
    {
        let e: i64 = match t.expires_at {
            Some(e) => e,
            None => {
                return (Tone::Plain, String::new());
            },
        };
        let secs: i128 = e as i128 - now as i128;
        if secs <= 0 {
            return (Tone::OnDanger, own(" expired "));
        }
        let label = cat2(left_text(secs).as_str(), " left");
        if secs < EXPIRING_URGENT_SECS {
            (Tone::OnDanger, cat3(" ", label.as_str(), " "))
        } else if secs < EXPIRING_SOON_SECS {
            (Tone::OnWarn, cat3(" ", label.as_str(), " "))
        } else {
            (Tone::Muted, label)
        }
    }

    /// The name of what a draft is about.
    pub open spec fn entity_name(t: Task) -> Option<String> {
        match t.entity {
            Some(e) => e.name,
            None => None,
        }
    }

    /// A row of the list: the badge, the draft, the automation, and what it is
    /// about.
    pub open spec fn row_text(t: Task, now: int) -> Seq<(Tone, Seq<char>)> {
        seq![
            Self::badge_text(t, now),
            (Tone::Plain, prompt_text(t)),
            (
                Tone::Muted,
                match t.automation {
                    Some(a) => a@,
                    None => "—"@,
                },
            ),
            (
                Tone::Muted,
                match Self::entity_name(t) {
                    Some(n) => n@,
                    None => Seq::empty(),
                },
            ),
        ]
    }

    /// A row of the list.
    pub fn draft_row(t: &Task, now: i64) -> (res: Line)
        ensures
            res@ == Self::row_text(*t, now as int),
    {
        let (tone, badge) = Self::due_badge(t, now);
        let automation = match &t.automation {
            Some(a) => a.clone(),
            None => own("—"),
        };
        let entity = match &t.entity {
            Some(e) => match &e.name {
                Some(n) => n.clone(),
                None => String::new(),
            },
            None => String::new(),
        };
        let line = Line::of(tone, badge).with(Tone::Plain, draft_prompt(t)).with(
            Tone::Muted,
            automation,
        ).with(Tone::Muted, entity);
        assert(line@ =~= Self::row_text(*t, now as int));
        line
    }

    /// Where an opened draft stands in the queue, with its badge.
    pub open spec fn crumb_text(self, t: Task, now: int) -> Seq<(Tone, Seq<char>)> {
        let place = seq![
            (
                Tone::Muted,
                decimal(self.selected as nat + 1) + " of "@ + decimal(self.tasks@.len())
                    + " pending"@,
            ),
        ];
        let badge = Self::badge_text(t, now);
        if badge.1.len() > 0 {
            place.push((Tone::Muted, "   ·   "@)).push(badge)
        } else {
            place
        }
    }

    /// What an opened draft is about, where it says.
    pub open spec fn entity_page(t: Task) -> Seq<Seq<(Tone, Seq<char>)>> {
        match t.entity {
            Some(e) => match e.name {
                Some(n) => seq![
                    seq![
                        (Tone::Muted, "entity    "@),
                        (Tone::Bold, n@),
                        (
                            Tone::Muted,
                            match e.kind {
                                Some(k) => "  ·  "@ + k@,
                                None => Seq::empty(),
                            },
                        ),
                    ],
                ],
                None => Seq::empty(),
            },
            None => Seq::empty(),
        }
    }

    /// The proposed context, one line for each of its texts.
    pub open spec fn context_page(t: Task) -> Seq<Seq<(Tone, Seq<char>)>> {
        fields_text(t.context).map_values(
            |f: (Seq<char>, Seq<char>)| seq![(Tone::Muted, padded(f.0, 10)), (Tone::Plain, f.1)],
        )
    }

    /// An opened draft: its place, the question, what it is about, the context.
    pub open spec fn draft_page(self, t: Task, now: int) -> Seq<Seq<(Tone, Seq<char>)>> {
        seq![
            self.crumb_text(t, now),
            Seq::empty(),
            seq![
                (
                    Tone::Header,
                    (match t.automation {
                        Some(a) => a@,
                        None => "automation"@,
                    }) + " proposes"@,
                ),
            ],
            seq![(Tone::Bold, prompt_text(t))],
            Seq::empty(),
        ] + Self::entity_page(t) + Self::context_page(t)
    }

    fn crumb(&self, t: &Task, now: i64) -> (res: Line)
        requires
            self.selected < self.tasks@.len(),
        ensures
            res@ == self.crumb_text(*t, now as int),
    {
        let (tone, badge) = Self::due_badge(t, now);
        let n: usize = self.tasks.len();
        let at: usize = self.selected + 1;
        let place = show(at as u64);
        let total = show(n as u64);
        let line = Line::of(
            Tone::Muted,
            cat4(place.as_str(), " of ", total.as_str(), " pending"),
        );
        assert(line@ =~= seq![
            (
                Tone::Muted,
                decimal(self.selected as nat + 1) + " of "@ + decimal(self.tasks@.len())
                    + " pending"@,
            ),
        ]);
        if badge.as_str().is_empty() {
            line
        } else {
            line.with(Tone::Muted, own("   ·   ")).with(tone, badge)
        }
    }

    fn push_entity(lines: &mut Vec<Line>, t: &Task)
        ensures
            page(final(lines)@) == page(old(lines)@) + Self::entity_page(*t),
    {
        if let Some(e) = &t.entity {
            if let Some(n) = &e.name {
                let kind = match &e.kind {
                    Some(k) => cat2("  ·  ", k.as_str()),
                    None => String::new(),
                };
                push_line(
                    lines,
                    Line::of(Tone::Muted, own("entity    ")).with(Tone::Bold, n.clone()).with(
                        Tone::Muted,
                        kind,
                    ),
                );
            }
        }
        assert(page(lines@) =~~= page(old(lines)@) + Self::entity_page(*t));
    }

    fn push_context(lines: &mut Vec<Line>, t: &Task)
        ensures
            page(final(lines)@) == page(old(lines)@) + Self::context_page(*t),
    {
        let fields = labelled_fields(&t.context);
        let ghost start = page(lines@);
        let ghost all = Self::context_page(*t);
        let mut i: usize = 0;
        assert(start + all.take(0) =~= start);
        while i < fields.len()
            invariant
                i <= fields.len(),
                pairs(fields@) == fields_text(t.context),
                all == Self::context_page(*t),
                all.len() == fields@.len(),
                page(lines@) == start + all.take(i as int),
            decreases fields.len() - i,
        {
            let line = Line::of(Tone::Muted, pad(fields[i].0.as_str(), 10)).with(
                Tone::Plain,
                fields[i].1.clone(),
            );
            assert(pairs(fields@)[i as int] == (fields@[i as int].0@, fields@[i as int].1@));
            assert(line@ =~= all[i as int]);
            push_line(lines, line);
            i = i + 1;
            assert(page(lines@) =~= start + all.take(i as int));
        }
        assert(all.take(fields@.len() as int) =~= all);
    }

    /// An opened draft's lines; none, and back to the list, where the draft is
    /// gone.
    pub fn draft_lines(&mut self, now: i64) -> (res: Option<Vec<Line>>)
        ensures
            match old(self).chosen() {
                Some(t) => {
                    &&& *final(self) == *old(self)
                    &&& res is Some
                    &&& page(res->0@) == old(self).draft_page(t, now as int)
                },
                None => {
                    &&& *final(self) == (Inbox { stage: Stage::List, ..*old(self) })
                    &&& res is None
                },
            },
    {
        if self.selected >= self.tasks.len() {
            self.stage = Stage::List;
            return None;
        }
        let t = &self.tasks[self.selected];
        let mut lines = no_lines();
        push_line(&mut lines, self.crumb(t, now));
        push_line(&mut lines, Line::empty());
        let automation = match &t.automation {
            Some(a) => cat2(a.as_str(), " proposes"),
            None => cat2("automation", " proposes"),
        };
        push_line(&mut lines, Line::of(Tone::Header, automation));
        push_line(&mut lines, Line::of(Tone::Bold, draft_prompt(t)));
        push_line(&mut lines, Line::empty());
        let ghost head = page(lines@);
        Self::push_entity(&mut lines, t);
        Self::push_context(&mut lines, t);
        assert(page(lines@) =~= self.draft_page(*t, now as int));
        Some(lines)
    }

    /// The rejection being worded.
    pub open spec fn reject_page(r: Rejecting) -> Seq<Seq<(Tone, Seq<char>)>> {
        seq![
            seq![(Tone::Selection, "▌ "@ + r.prompt@)],
            Seq::empty(),
            seq![
                (Tone::DangerBold, "Reject this draft"@),
                (
                    Tone::Muted,
                    " — it leaves the inbox. Add a reason so the automation learns, or ⏎ to reject."@,
                ),
            ],
            Seq::empty(),
            seq![(Tone::Muted, "reason · optional"@)],
            seq![(Tone::Plain, r.reason@), (Tone::Muted, "█"@)],
        ]
    }

    /// The rejection being worded.
    pub fn reject_lines(r: &Rejecting) -> (res: Vec<Line>)
        ensures
            page(res@) == Self::reject_page(*r),
    {
        let mut lines = no_lines();
        push_line(&mut lines, Line::of(Tone::Selection, cat2("▌ ", r.prompt.as_str())));
        push_line(&mut lines, Line::empty());
        push_line(
            &mut lines,
            Line::of(Tone::DangerBold, own("Reject this draft")).with(
                Tone::Muted,
                own(
                    " — it leaves the inbox. Add a reason so the automation learns, or ⏎ to reject.",
                ),
            ),
        );
        push_line(&mut lines, Line::empty());
        push_line(&mut lines, Line::of(Tone::Muted, own("reason · optional")));
        push_line(
            &mut lines,
            Line::of(Tone::Plain, r.reason.clone()).with(Tone::Muted, own("█")),
        );
        assert(page(lines@) =~~= Self::reject_page(*r));
        lines
    }

    /// What the footer offers.
    pub open spec fn offered(self, f: Footer) -> bool {
        if self.rejecting is Some {
            f.offers(seq![("⏎", "reject"), ("Esc", "cancel")])
        } else if self.stage == Stage::List {
            f.offers(
                seq![("j/k", "move"), ("⏎", "open"), ("x", "reject"), ("a", "ack"), ("h", "home")],
            )
        } else {
            f.offers(
                seq![
                    ("⏎", "accept"),
                    ("x", "reject"),
                    ("a", "ack"),
                    ("J/K", "next"),
                    ("h", "back"),
                ],
            )
        }
    }

    /// What the footer offers.
    pub fn hints(&self) -> (res: Footer)
        ensures
            self.offered(res),
    {
        if self.rejecting.is_some() {
            return Footer::Keys(vec![("⏎", "reject"), ("Esc", "cancel")]);
        }
        match self.stage {
            Stage::List => Footer::Keys(
                vec![("j/k", "move"), ("⏎", "open"), ("x", "reject"), ("a", "ack"), ("h", "home")],
            ),
            Stage::Draft => Footer::Keys(
                vec![
                    ("⏎", "accept"),
                    ("x", "reject"),
                    ("a", "ack"),
                    ("J/K", "next"),
                    ("h", "back"),
                ],
            ),
        }
    }
}

// ---- what the calls answer ----

/// What the read of the drafts sends back.
pub fn drafts_read(reply: Result<Vec<Task>, Fault>) -> (res: Action)
    ensures
        match reply {
            Ok(tasks) => res == Action::InboxLoaded(tasks),
            Err(e) => res matches Action::InboxLoadFailed(t) && t@ == "inbox load failed: "@
                + e.shown@,
        },
{
    match reply {
        Ok(tasks) => Action::InboxLoaded(tasks),
        Err(e) => Action::InboxLoadFailed(cat2("inbox load failed: ", e.shown.as_str())),
    }
}

/// Whether the server refused a verb because the draft has moved on.
pub open spec fn stale(fault: Fault) -> bool {
    fault.kind matches FaultKind::Problem { status, .. } && status == 422
}

/// What a verb sends back: the word and a fresh read once it went through, a
/// soft re-read where the draft has moved on. The verbs need the server: without
/// it they are refused, not queued.
pub open spec fn triaged(
    verb: TriageVerb,
    id: i64,
    reply: Result<(), Fault>,
    res: Seq<Action>,
) -> bool {
    &&& res.len() == 2
    &&& match reply {
        Ok(_) => {
            &&& notifies(
                res[0],
                Level::Success,
                verb.word_text() + " · draft #"@ + signed_decimal(id as int),
            )
            &&& res[1] == Action::RefreshInbox
        },
        Err(e) => if stale(e) {
            &&& notifies(res[0], Level::Warning, "already moved on"@)
            &&& res[1] == Action::RefreshInbox
        } else {
            &&& notifies(
                res[0],
                Level::Error,
                if e.kind is Transport {
                    "offline — triage needs the server; retry online"@
                } else {
                    "triage failed: "@ + e.shown@
                },
            )
            &&& res[1] == Action::InboxActionFailed
        },
    }
}

/// What a verb sends back.
pub fn triage_answered(verb: &TriageVerb, id: i64, reply: Result<(), Fault>) -> (res: Vec<Action>)
    ensures
        triaged(*verb, id, reply, res@),
{
    match reply {
        Ok(_) => two(
            notice(
                Level::Success,
                cat3(verb.word(), " · draft #", show_signed(id).as_str()),
            ),
            Action::RefreshInbox,
        ),
        Err(e) => match &e.kind {
            FaultKind::Problem { status: 422, title: _, detail: _, code: _ } => two(
                notice(Level::Warning, own("already moved on")),
                Action::RefreshInbox,
            ),
            FaultKind::Transport => two(
                notice(Level::Error, own("offline — triage needs the server; retry online")),
                Action::InboxActionFailed,
            ),
            _ => two(
                notice(Level::Error, cat2("triage failed: ", e.shown.as_str())),
                Action::InboxActionFailed,
            ),
        },
    }
}

// ---- laws ----

/// A loaded queue leads with the draft that expires first; drafts that never
/// expire come last.
pub proof fn the_queue_leads_with_the_soonest(pre: Inbox, tasks: Vec<Task>, post: Inbox, out: Outcome)
    requires
        Inbox::handled(pre, Action::InboxLoaded(tasks), post, out),
    ensures
        forall|i: int|
            0 <= i < post.tasks@.len() ==> due(post.tasks@[0]) <= due(#[trigger] post.tasks@[i]),
        forall|i: int, j: int|
            0 <= i < j < post.tasks@.len() && (#[trigger] post.tasks@[i]).expires_at is None ==> due(
                #[trigger] post.tasks@[j],
            ) == i64::MAX,
{
}

/// While a verb is on its way no other one is sent.
pub proof fn one_verb_at_a_time(
    pre: Inbox,
    action: Action,
    post: Inbox,
    out: Outcome,
    id: i64,
    verb: TriageVerb,
)
    requires
        pre.in_flight,
        Inbox::handled(pre, action, post, out),
    ensures
        forall|i: int|
            0 <= i < out.effects@.len() ==> #[trigger] out.effects@[i] != Effect::Call(
                Request::Triage { id, verb },
            ),
{
}

/// Whatever a verb is answered, the screen is free for the next one.
pub proof fn every_answer_frees_the_screen(
    verb: TriageVerb,
    id: i64,
    reply: Result<(), Fault>,
    sent: Seq<Action>,
    pre: Inbox,
    post: Inbox,
    out: Outcome,
)
    requires
        triaged(verb, id, reply, sent),
        Inbox::handled(pre, sent[1], post, out),
    ensures
        !post.in_flight,
{
}

/// A rejection is sent when it is committed, and a cancelled one never is.
pub proof fn a_cancelled_rejection_sends_nothing(pre: Inbox, post: Inbox, out: Outcome)
    requires
        Inbox::handled(pre, Action::InboxRejectCancel, post, out),
    ensures
        post.rejecting is None,
        post.in_flight == pre.in_flight,
        out.quiet(),
{
}

/// An empty queue has no draft to open.
pub proof fn an_empty_queue_stays_on_the_list(a: Inbox, tasks: Vec<Task>, b: Inbox, c: Inbox, x: Outcome, y: Outcome)
    requires
        tasks@.len() == 0,
        Inbox::handled(a, Action::InboxLoaded(tasks), b, x),
        Inbox::handled(b, Action::InboxOpen, c, y),
    ensures
        c.stage == Stage::List,
{
}

/// A verb goes to the draft under the cursor, whichever row that is: exactly one
/// call, with the verb that was struck, and the list stays as it is.
pub proof fn a_verb_goes_to_the_selected_draft(
    pre: Inbox,
    action: Action,
    post: Inbox,
    out: Outcome,
)
    requires
        action is InboxAccept || action is InboxAck,
        !pre.in_flight,
        pre.selected < pre.tasks@.len(),
        Inbox::handled(pre, action, post, out),
    ensures
        out.note is None,
        out.effects@.len() == 1,
        out.effects@[0] matches Effect::Call(Request::Triage { id, verb }) && {
            &&& id == pre.tasks@[pre.selected as int].id
            &&& action is InboxAccept <==> verb is Accept
            &&& action is InboxAck <==> verb is Acknowledge
        },
        post.in_flight,
        post.tasks == pre.tasks,
        post.selected == pre.selected,
        post.stage == pre.stage,
{
}

/// Without a draft under the cursor no verb is sent.
pub proof fn no_draft_no_verb(pre: Inbox, action: Action, post: Inbox, out: Outcome)
    requires
        action is InboxAccept || action is InboxAck || action is InboxRejectBegin,
        pre.selected >= pre.tasks@.len(),
        Inbox::handled(pre, action, post, out),
    ensures
        post == pre,
        out.note is None,
        out.effects@.len() == 0,
{
}

/// A step lands on the row that far away, and on an end of the list where that
/// lies beyond it. It neither speaks nor sends.
pub proof fn a_step_walks_the_drafts(pre: Inbox, d: i32, action: Action, post: Inbox, out: Outcome)
    requires
        ({
            ||| action == Action::InboxMove(d) && pre.stage == Stage::List
            ||| action == Action::InboxDraftStep(d) && pre.stage == Stage::Draft
        }),
        pre.selected < pre.tasks@.len(),
        pre.tasks@.len() <= usize::MAX,
        Inbox::handled(pre, action, post, out),
    ensures
        0 <= pre.selected + d < pre.tasks@.len() ==> post.selected == pre.selected + d,
        pre.selected + d < 0 ==> post.selected == 0,
        pre.selected + d >= pre.tasks@.len() ==> post.selected == pre.tasks@.len() - 1,
        post == (Inbox { selected: post.selected, ..pre }),
        out.note is None,
        out.effects@.len() == 0,
{
}

/// The list keys leave an opened draft alone, and the draft keys the list.
pub proof fn each_stage_has_its_steps(pre: Inbox, d: i32, action: Action, post: Inbox, out: Outcome)
    requires
        ({
            ||| action == Action::InboxMove(d) && pre.stage == Stage::Draft
            ||| action == Action::InboxDraftStep(d) && pre.stage == Stage::List
        }),
        Inbox::handled(pre, action, post, out),
    ensures
        post == pre,
        out.effects@.len() == 0,
{
}

proof fn lemma_due_counts(tasks: Seq<Task>, t: Task)
    ensures
        tasks.to_multiset().count(t) == due_at(tasks, due(t)).to_multiset().count(t),
    decreases tasks.len(),
{
    broadcast use vstd::seq_lib::group_to_multiset_ensures;

    if tasks.len() > 0 {
        let init = tasks.drop_last();
        lemma_due_counts(init, t);
        assert(init.push(tasks.last()) =~= tasks);
        let k = due(t);
        if due(tasks.last()) == k {
            assert(due_at(tasks, k) =~= due_at(init, k).push(tasks.last()));
        }
    } else {
        assert(due_at(tasks, due(t)) =~= tasks);
    }
}

/// A load keeps every draft that was read and no other one, and orders them by
/// their expiry: the sooner first, those without one last.
pub proof fn a_load_orders_what_was_read(pre: Inbox, tasks: Vec<Task>, post: Inbox, out: Outcome)
    requires
        Inbox::handled(pre, Action::InboxLoaded(tasks), post, out),
    ensures
        post.tasks@.to_multiset() == tasks@.to_multiset(),
        forall|i: int, j: int|
            0 <= i < j < post.tasks@.len() && (#[trigger] post.tasks@[i]).expires_at is Some && (
            #[trigger] post.tasks@[j]).expires_at is Some ==> post.tasks@[i].expires_at->0
                <= post.tasks@[j].expires_at->0,
        forall|i: int, j: int|
            0 <= i < j < post.tasks@.len() && (#[trigger] post.tasks@[i]).expires_at is None ==> (
            #[trigger] post.tasks@[j]).expires_at is None || post.tasks@[j].expires_at->0
                == i64::MAX,
{
    assert forall|t: Task| #[trigger] post.tasks@.to_multiset().count(t)
        == tasks@.to_multiset().count(t) by {
        lemma_due_counts(post.tasks@, t);
        lemma_due_counts(tasks@, t);
    }
    assert(post.tasks@.to_multiset() =~= tasks@.to_multiset());
}

proof fn lemma_due_filter(tasks: Seq<Task>, e: i64)
    requires
        e < i64::MAX,
    ensures
        due_at(tasks, e) == tasks.filter(|t: Task| t.expires_at == Some(e)),
    decreases tasks.len(),
{
    reveal(Seq::filter);
    if tasks.len() > 0 {
        lemma_due_filter(tasks.drop_last(), e);
    }
}

/// Drafts that expire at one instant keep the order they were read in.
pub proof fn a_load_is_stable(pre: Inbox, tasks: Vec<Task>, post: Inbox, out: Outcome, e: i64)
    requires
        e < i64::MAX,
        Inbox::handled(pre, Action::InboxLoaded(tasks), post, out),
    ensures
        post.tasks@.filter(|t: Task| t.expires_at == Some(e)) == tasks@.filter(
            |t: Task| t.expires_at == Some(e),
        ),
{
    lemma_due_filter(post.tasks@, e);
    lemma_due_filter(tasks@, e);
    assert(due_at(post.tasks@, e) == due_at(tasks@, e));
}

/// Load, move to a row, strike a verb: the draft of that row of the ordered list
/// is the one it is sent for, a draft that was read.
pub proof fn a_moved_verb_goes_to_its_row(
    a: Inbox,
    tasks: Vec<Task>,
    b: Inbox,
    row: i32,
    c: Inbox,
    verb: Action,
    d: Inbox,
    outs: Seq<Outcome>,
)
    requires
        a.stage == Stage::List,
        a.selected == 0,
        0 <= row < tasks@.len() <= usize::MAX,
        verb is InboxAccept || verb is InboxAck,
        Inbox::handled(a, Action::InboxLoaded(tasks), b, outs[0]),
        Inbox::handled(b, Action::InboxMove(row), c, outs[1]),
        Inbox::handled(c, verb, d, outs[2]),
    ensures
        outs[2].effects@.len() == 1,
        outs[2].effects@[0] matches Effect::Call(Request::Triage { id, .. }) && id
            == b.tasks@[row as int].id,
        tasks@.contains(b.tasks@[row as int]),
{
    broadcast use vstd::seq_lib::group_to_multiset_ensures;

    a_load_orders_what_was_read(a, tasks, b, outs[0]);
    let t = b.tasks@[row as int];
    assert(b.tasks@.contains(t));
    assert(b.tasks@.to_multiset().count(t) > 0);
    assert(tasks@.to_multiset().count(t) > 0);
}

/// What is typed while a rejection is worded is its reason, letter by letter, and
/// which draft it is for does not change.
pub proof fn typing_words_the_reason(
    states: Seq<Inbox>,
    typed: Seq<char>,
    outs: Seq<Outcome>,
    n: int,
)
    requires
        0 <= n <= typed.len(),
        states.len() == typed.len() + 1,
        states[0].rejecting is Some,
        forall|i: int|
            #![trigger states[i]]
            0 <= i < typed.len() ==> Inbox::handled(
                states[i],
                Action::InboxRejectInput(typed[i]),
                states[i + 1],
                outs[i],
            ),
    ensures
        states[n].rejecting is Some,
        states[n].rejecting->0.reason@ == states[0].rejecting->0.reason@ + typed.take(n),
        states[n].rejecting->0.id == states[0].rejecting->0.id,
        states[n].in_flight == states[0].in_flight,
        states[n].tasks == states[0].tasks,
    decreases n,
{
    if n > 0 {
        typing_words_the_reason(states, typed, outs, n - 1);
        assert(Inbox::handled(
            states[n - 1],
            Action::InboxRejectInput(typed[n - 1]),
            states[n],
            outs[n - 1],
        ));
        assert(typed.take(n) =~= typed.take(n - 1).push(typed[n - 1]));
        assert(states[n].rejecting->0.reason@ =~= states[0].rejecting->0.reason@ + typed.take(n));
    } else {
        assert(states[0].rejecting->0.reason@ + typed.take(0)
            =~= states[0].rejecting->0.reason@);
    }
}

/// A rejection begun on a draft, worded, and committed rejects that draft, for the
/// reason typed without the blanks round it; a blank one is left out.
pub proof fn a_rejection_goes_to_the_draft_it_was_begun_on(
    pre: Inbox,
    begun: Outcome,
    states: Seq<Inbox>,
    typed: Seq<char>,
    outs: Seq<Outcome>,
    post: Inbox,
    out: Outcome,
)
    requires
        !pre.in_flight,
        pre.selected < pre.tasks@.len(),
        states.len() == typed.len() + 1,
        Inbox::handled(pre, Action::InboxRejectBegin, states[0], begun),
        forall|i: int|
            #![trigger states[i]]
            0 <= i < typed.len() ==> Inbox::handled(
                states[i],
                Action::InboxRejectInput(typed[i]),
                states[i + 1],
                outs[i],
            ),
        Inbox::handled(states.last(), Action::InboxRejectSubmit, post, out),
    ensures
        begun.effects@.len() == 0,
        out.note is None,
        out.effects@.len() == 1,
        out.effects@[0] matches Effect::Call(Request::Triage { id, verb }) && {
            &&& id == pre.tasks@[pre.selected as int].id
            &&& verb matches TriageVerb::Reject(reason) && match reason {
                Some(text) => text@ == trimmed(typed) && text@.len() > 0,
                None => trimmed(typed).len() == 0,
            }
        },
        post.rejecting is None,
        post.in_flight,
{
    typing_words_the_reason(states, typed, outs, typed.len() as int);
    assert(typed.take(typed.len() as int) =~= typed);
    assert(Seq::<char>::empty() + typed =~= typed);
}

/// While a rejection is worded the keys word it: letters go to the reason,
/// backspace takes the last one back, `Enter` commits and `Esc` drops it. No key
/// but `Enter` sends anything.
pub proof fn the_keys_word_a_rejection(
    pre: Inbox,
    key: KeyEvent,
    post: Inbox,
    out: Outcome,
)
    requires
        pre.rejecting is Some,
        pre.intercepted(key) is Some,
        Inbox::handled(pre, pre.intercepted(key)->0, post, out),
    ensures
        key.code matches KeyCode::Char(c) ==> post.rejecting is Some
            && post.rejecting->0.reason@ == pre.rejecting->0.reason@.push(key.code->0),
        key.code == KeyCode::Backspace && pre.rejecting->0.reason@.len() > 0
            ==> post.rejecting is Some && post.rejecting->0.reason@
            == pre.rejecting->0.reason@.drop_last(),
        key.code == KeyCode::Esc || key.code == KeyCode::Enter ==> post.rejecting is None,
        key.code == KeyCode::Enter && !pre.in_flight ==> out.effects@.len() == 1,
        key.code != KeyCode::Enter ==> out.effects@.len() == 0,
        post.tasks == pre.tasks,
        post.selected == pre.selected,
{
}

/// A letter is never lost while a rejection is worded, and no key is taken while
/// none is.
pub proof fn only_a_rejection_takes_keys(s: Inbox, key: KeyEvent)
    ensures
        s.rejecting is None ==> s.intercepted(key) is None,
        s.rejecting is Some && key.code is Char ==> s.intercepted(key) is Some,
        s.rejecting is Some && key.code == KeyCode::Enter ==> s.intercepted(key) is Some,
        s.rejecting is Some && key.code == KeyCode::Esc ==> s.intercepted(key) is Some,
        s.rejecting is Some && key.code == KeyCode::Backspace ==> s.intercepted(key) is Some,
{
}

/// A failed read is said as it came, and takes no draft off the list.
pub proof fn a_failed_read_keeps_the_drafts(pre: Inbox, e: String, post: Inbox, out: Outcome)
    requires
        Inbox::handled(pre, Action::InboxLoadFailed(e), post, out),
    ensures
        post.tasks == pre.tasks,
        post.selected == pre.selected,
        !post.loading,
        post.error == Some(e),
        out.note is Some,
        (out.note->0).0 == Level::Error,
        (out.note->0).1@ == e@,
{
}

/// A refresh asks for the drafts, and nothing that was under way outlives it.
pub proof fn a_refresh_starts_over(pre: Inbox, post: Inbox, out: Outcome)
    requires
        Inbox::handled(pre, Action::RefreshInbox, post, out),
    ensures
        out.effects@ == seq![Effect::Call(Request::ListDrafts)],
        post.rejecting is None,
        !post.in_flight,
        post.loading,
        post.stage == Stage::List,
        post.tasks == pre.tasks,
{
}

/// A verb that went through, or came too late, reads the list anew; one that
/// failed does not, so that the draft stays where it was.
pub proof fn only_a_settled_verb_rereads(
    verb: TriageVerb,
    id: i64,
    reply: Result<(), Fault>,
    sent: Seq<Action>,
)
    requires
        triaged(verb, id, reply, sent),
    ensures
        sent.len() == 2,
        reply is Ok ==> sent[1] is RefreshInbox,
        reply is Err && (reply->Err_0.kind matches FaultKind::Problem { status, .. } && status
            == 422) ==> sent[1] is RefreshInbox,
        reply is Err && reply->Err_0.kind is Transport ==> sent[1] is InboxActionFailed,
        sent[0] matches Action::Notify { level, .. } && (reply is Ok <==> level == Level::Success),
{
}

/// Opening shows the draft under the cursor, and closing goes back to its row.
pub proof fn opening_and_closing_keep_the_row(
    a: Inbox,
    b: Inbox,
    c: Inbox,
    x: Outcome,
    y: Outcome,
)
    requires
        a.stage == Stage::List,
        a.tasks@.len() > 0,
        Inbox::handled(a, Action::InboxOpen, b, x),
        Inbox::handled(b, Action::InboxCloseDetail, c, y),
    ensures
        b.stage == Stage::Draft,
        b.selected == a.selected,
        c == a,
        x.effects@.len() == 0,
        y.effects@.len() == 0,
{
}

/// The badge of a draft: red once it has expired and within twelve hours of it, amber
/// within two days, calm before that, and none where it never expires.
pub proof fn the_badge_grows_louder(t: Task, now: int)
    ensures
        t.expires_at is None ==> Inbox::badge_text(t, now).1.len() == 0,
        t.expires_at matches Some(e) && e - now < 12 * 3600 ==> Inbox::badge_text(t, now).0
            == Tone::OnDanger,
        t.expires_at matches Some(e) && 12 * 3600 <= e - now < 48 * 3600 ==> Inbox::badge_text(
            t,
            now,
        ).0 == Tone::OnWarn,
        t.expires_at matches Some(e) && e - now >= 48 * 3600 ==> Inbox::badge_text(t, now).0
            == Tone::Muted,
        t.expires_at matches Some(e) && e - now <= 0 ==> Inbox::badge_text(t, now).1
            == " expired "@,
        soon(t, now) <==> (t.expires_at matches Some(e) && e - now < 48 * 3600),
{
}

/// A fresh list keeps the cursor on its row where that row is still there, and else puts
/// it on the last one; an opened draft stays open unless the list is empty.
pub proof fn a_load_keeps_the_row(pre: Inbox, tasks: Vec<Task>, post: Inbox, out: Outcome)
    requires
        tasks@.len() <= usize::MAX,
        Inbox::handled(pre, Action::InboxLoaded(tasks), post, out),
    ensures
        pre.selected < tasks@.len() ==> post.selected == pre.selected,
        pre.selected >= tasks@.len() && tasks@.len() > 0 ==> post.selected == tasks@.len() - 1,
        tasks@.len() > 0 ==> post.stage == pre.stage,
        tasks@.len() == 0 ==> post.stage == Stage::List,
        !post.loading,
        post.error is None,
        post.rejecting == pre.rejecting,
        out.effects@.len() == 0,
{
}

/// The words of the verbs.
pub proof fn the_words_of_the_verbs(v: TriageVerb)
    ensures
        v is Accept ==> v.word_text() == "accepted"@,
        v is Acknowledge ==> v.word_text() == "acknowledged"@,
        v is Reject ==> v.word_text() == "rejected"@,
{
}

/// A verb that went through is said with its own word and the number of the draft.
pub proof fn a_verb_is_said_with_its_draft(verb: TriageVerb, id: i64, sent: Seq<Action>)
    requires
        triaged(verb, id, Ok(()), sent),
    ensures
        sent[0] matches Action::Notify { text, .. } && (verb is Accept ==> text@ == "accepted"@
            + " · draft #"@ + signed_decimal(id as int)) && (verb is Acknowledge ==> text@
            == "acknowledged"@ + " · draft #"@ + signed_decimal(id as int)) && (verb is Reject
            ==> text@ == "rejected"@ + " · draft #"@ + signed_decimal(id as int)),
{
}

/// A row shows its own draft: the badge, the prompt, the automation and what it is about.
pub proof fn a_row_shows_its_draft(t: Task, now: int)
    ensures
        Inbox::row_text(t, now).len() == 4,
        Inbox::row_text(t, now)[0] == Inbox::badge_text(t, now),
        t.prompt matches Some(p) ==> Inbox::row_text(t, now)[1].1 == p@,
        t.automation matches Some(a) ==> Inbox::row_text(t, now)[2].1 == a@,
        t.entity matches Some(e) && e.name is Some ==> Inbox::row_text(t, now)[3].1
            == t.entity->0.name->0@,
{
}

/// An opened draft shows its place in the list, who proposes it and what it asks.
pub proof fn an_opened_draft_shows_what_it_asks(s: Inbox, t: Task, now: int)
    ensures
        s.draft_page(t, now).len() >= 5,
        s.draft_page(t, now)[0][0].1 == decimal(s.selected as nat + 1) + " of "@ + decimal(
            s.tasks@.len(),
        ) + " pending"@,
        t.automation matches Some(a) ==> s.draft_page(t, now)[2][0].1 == a@ + " proposes"@,
        t.prompt matches Some(p) ==> s.draft_page(t, now)[3][0].1 == p@,
        t.entity matches Some(e) && e.name is Some ==> s.draft_page(t, now)[5][1].1
            == t.entity->0.name->0@,
{
}

/// A rejection being worded shows the draft it is for and the reason so far.
pub proof fn a_rejection_shows_its_draft(r: Rejecting)
    ensures
        Inbox::reject_page(r).len() == 6,
        Inbox::reject_page(r)[0][0].1 == "▌ "@ + r.prompt@,
        Inbox::reject_page(r)[5][0].1 == r.reason@,
{
}

/// A rejection carries the prompt of the draft it was begun on.
pub proof fn a_rejection_carries_its_prompt(pre: Inbox, post: Inbox, out: Outcome)
    requires
        pre.selected < pre.tasks@.len(),
        Inbox::handled(pre, Action::InboxRejectBegin, post, out),
    ensures
        post.rejecting is Some,
        post.rejecting->0.id == pre.tasks@[pre.selected as int].id,
        pre.tasks@[pre.selected as int].prompt matches Some(p) ==> post.rejecting->0.prompt@ == p@,
        post.rejecting->0.reason@.len() == 0,
        post.tasks == pre.tasks,
        out.effects@.len() == 0,
{
}

/// What was read reaches the inbox as it came, and a failure in its words.
pub proof fn a_read_reaches_the_inbox(reply: Result<Vec<Task>, Fault>, sent: Action)
    requires
        call_ensures(drafts_read, (reply,), sent),
    ensures
        reply matches Ok(tasks) ==> sent == Action::InboxLoaded(tasks),
        reply is Err ==> (sent matches Action::InboxLoadFailed(t) && t@ == "inbox load failed: "@
            + reply->Err_0.shown@),
{
}

/// The title says where the screen stands: wording a rejection, on an opened draft, or
/// on the list with the number of drafts that wait.
pub proof fn the_title_says_where_it_stands(s: Inbox)
    ensures
        s.rejecting is Some ==> s.title_text() == "Inbox · reject"@,
        s.rejecting is None && s.stage is Draft ==> s.title_text() == "Inbox · draft"@,
        s.rejecting is None && s.stage is List ==> s.title_text() == "Inbox · "@ + decimal(
            s.tasks@.len(),
        ) + " pending"@,
        Inbox::count_text(s.tasks@.len())[0] == (
            Tone::Header,
            decimal(s.tasks@.len()) + " pending"@,
        ),
{
}

/// An empty list is called clear, unless its first read is still under way.
pub proof fn an_empty_list_is_clear(s: Inbox)
    ensures
        s.loading && s.error is None ==> s.zero_page() == seq![seq![(Tone::Plain, "loading…"@)]],
        !s.loading || s.error is Some ==> s.zero_page().len() == 5 && s.zero_page()[1] == seq![
            (Tone::SuccessBold, "✓ Inbox clear."@),
        ],
{
}

/// Every field keeps its value but through the actions that are about it.
pub proof fn what_an_action_leaves_alone(
    pre: Inbox,
    action: Action,
    post: Inbox,
    out: Outcome,
)
    requires
        Inbox::handled(pre, action, post, out),
    ensures
        post.tasks == pre.tasks || action is InboxLoaded,
        post.selected == pre.selected || action is InboxLoaded || action is InboxMove
            || action is InboxDraftStep,
        post.loading == pre.loading || action is InboxLoaded || action is InboxLoadFailed
            || action is RefreshInbox,
        post.error == pre.error || action is InboxLoaded || action is InboxLoadFailed,
        post.stage == pre.stage || action is InboxLoaded || action is RefreshInbox
            || action is InboxOpen || action is InboxCloseDetail,
        post.rejecting == pre.rejecting || action is RefreshInbox || action is InboxRejectBegin
            || action is InboxRejectInput || action is InboxRejectBackspace
            || action is InboxRejectSubmit || action is InboxRejectCancel,
        post.in_flight == pre.in_flight || action is InboxLoaded || action is RefreshInbox
            || action is InboxAccept || action is InboxAck || action is InboxRejectSubmit
            || action is InboxActionFailed,
{
}

/// Only these actions say something, and only these send something; a read under way is
/// marked until it is answered.
pub proof fn which_actions_are_heard(
    pre: Inbox,
    action: Action,
    post: Inbox,
    out: Outcome,
)
    requires
        Inbox::handled(pre, action, post, out),
    ensures
        out.note is None || action is InboxLoadFailed,
        out.effects@.len() == 0 || action is RefreshInbox || action is InboxAccept
            || action is InboxAck || action is InboxRejectSubmit,
        out.effects@.len() <= 1,
        action is RefreshInbox ==> post.loading,
        (action is InboxLoaded || action is InboxLoadFailed) ==> !post.loading,
{
}

/// The screen starts on an empty list, with nothing read, worded or sent.
pub proof fn how_the_screen_starts(s: Inbox)
    requires
        call_ensures(Inbox::default, (), s),
    ensures
        s.tasks@.len() == 0,
        s.selected == 0,
        !s.loading,
        s.error is None,
        s.stage is List,
        s.rejecting is None,
        !s.in_flight,
{
}

} // verus!
