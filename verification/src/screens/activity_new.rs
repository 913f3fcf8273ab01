//! New activity: a form of four fields, with a mode for typing.

use crate::action::{notice, notifies, one, three, Action, Effect, Outcome, Request};
use crate::edit::LineInput;
use crate::keys::{digit_key, is_digit, KeyCode, KeyEvent};
use crate::line::{Footer, Line, Tone};
use crate::model::{ActivityCreate, FieldError};
use crate::notify::Level;
use crate::screens::{ScreenKind, ScreenMode};
use crate::text::{cat2, cat3, cat4, number, own, parse_number, same, trim, trimmed};
use vstd::prelude::*;

verus! {

/// The number of fields.
pub const FIELDS: usize = 4;

/// The name of a field.
pub open spec fn field_text(i: int) -> Seq<char> {
    if i == 0 {
        "title"@
    } else if i == 1 {
        "kind"@
    } else if i == 2 {
        "duration"@
    } else {
        "notes"@
    }
}

/// The name of a field.
pub fn field_name(i: usize) -> (res: &'static str)
    requires
        i < FIELDS,
    ensures
        res@ == field_text(i as int),
{
    match i {
        0 => "title",
        1 => "kind",
        2 => "duration",
        _ => "notes",
    }
}

/// The form.
#[derive(Debug)]
pub struct ActivityNew {
    pub title: LineInput,
    pub kind: LineInput,
    pub duration: LineInput,
    pub notes: LineInput,
    pub focus: usize,
    pub mode: ScreenMode,
    pub errors: Vec<FieldError>,
    /// The form is on its way: it is not sent twice.
    pub pending: bool,
}

impl Default for ActivityNew {
    fn default() -> (res: Self)
        ensures
            res.fresh(),
            res.wf(),
    {
        ActivityNew {
            title: LineInput::new(String::new()),
            kind: LineInput::new(own("study")),
            duration: LineInput::new(own("30")),
            notes: LineInput::new(String::new()),
            focus: 0,
            mode: ScreenMode::Normal,
            errors: Vec::new(),
            pending: false,
        }
    }
}

/// A text without the white space round it; none where nothing is left.
pub open spec fn filled(s: Seq<char>) -> Option<Seq<char>> {
    if trimmed(s).len() == 0 {
        None
    } else {
        Some(trimmed(s))
    }
}

/// A text without the white space round it; none where nothing is left.
pub fn opt_str(s: &str) -> (res: Option<String>)
    ensures
        match filled(s@) {
            Some(t) => res is Some && res->0@ == t,
            None => res is None,
        },
{
    let t = trim(s);
    if t.as_str().is_empty() {
        None
    } else {
        Some(t)
    }
}

impl ActivityNew {
    /// A form as it opens.
    pub open spec fn fresh(self) -> bool {
        &&& self.title.value@ == Seq::<char>::empty()
        &&& self.kind.value@ == "study"@
        &&& self.duration.value@ == "30"@
        &&& self.notes.value@ == Seq::<char>::empty()
        &&& self.title.cursor == self.title.value@.len()
        &&& self.kind.cursor == self.kind.value@.len()
        &&& self.duration.cursor == self.duration.value@.len()
        &&& self.notes.cursor == self.notes.value@.len()
        &&& self.focus == 0
        &&& self.mode == ScreenMode::Normal
        &&& self.errors@ == Seq::<FieldError>::empty()
        &&& !self.pending
    }

    /// One of the fields has the focus, and every cursor is inside its text.
    pub open spec fn wf(self) -> bool {
        &&& self.focus < FIELDS
        &&& self.title.wf()
        &&& self.kind.wf()
        &&& self.duration.wf()
        &&& self.notes.wf()
    }

    /// The mode of the form.
    pub fn mode(&self) -> (res: ScreenMode)
        ensures
            res == self.mode,
    {
        self.mode
    }

    /// The field under the focus after a key: the duration takes no letter but
    /// digits.
    pub open spec fn typed(pre: Self, key: KeyEvent, post: Self) -> bool {
        if pre.focus == 0 {
            post == ActivityNew { title: post.title, ..pre } && LineInput::keyed(
                pre.title,
                key,
                post.title,
            )
        } else if pre.focus == 1 {
            post == ActivityNew { kind: post.kind, ..pre } && LineInput::keyed(
                pre.kind,
                key,
                post.kind,
            )
        } else if pre.focus == 2 {
            if key.code matches KeyCode::Char(c) && !is_digit(c) {
                post == pre
            } else {
                post == ActivityNew { duration: post.duration, ..pre } && LineInput::keyed(
                    pre.duration,
                    key,
                    post.duration,
                )
            }
        } else {
            post == ActivityNew { notes: post.notes, ..pre } && LineInput::keyed(
                pre.notes,
                key,
                post.notes,
            )
        }
    }

    /// Whether a body is the form's, started at `now`.
    pub open spec fn bodied(self, body: ActivityCreate, now: i64) -> bool {
        &&& body.title@ == self.title.value@
        &&& match filled(self.kind.value@) {
            Some(t) => body.kind is Some && body.kind->0@ == t,
            None => body.kind is None,
        }
        &&& body.duration_minutes == number(self.duration.value@)
        &&& body.started_at == now
        &&& match filled(self.notes.value@) {
            Some(t) => body.notes_generated is Some && body.notes_generated->0@ == t,
            None => body.notes_generated is None,
        }
    }

    /// How the screen answers an action at `now`.
    pub open spec fn handled(pre: Self, action: Action, now: i64, post: Self, out: Outcome) -> bool {
        match action {
            Action::ActivityFieldNext => {
                &&& post == ActivityNew {
                    focus: if pre.focus == 3 {
                        0
                    } else {
                        (pre.focus + 1) as usize
                    },
                    ..pre
                }
                &&& out.quiet()
            },
            Action::ActivityFieldPrev => {
                &&& post == ActivityNew {
                    focus: if pre.focus == 0 {
                        3
                    } else {
                        (pre.focus - 1) as usize
                    },
                    ..pre
                }
                &&& out.quiet()
            },
            Action::ActivityEnterInsert => {
                post == ActivityNew { mode: ScreenMode::Insert, ..pre } && out.quiet()
            },
            Action::ActivityLeaveInsert => {
                post == ActivityNew { mode: ScreenMode::Normal, ..pre } && out.quiet()
            },
            Action::ActivityKey(key) => Self::typed(pre, key, post) && out.quiet(),
            Action::ActivitySubmit => if pre.pending {
                post == pre && out.says(Level::Warning, "already submitting…"@)
            } else if filled(pre.title.value@) is None {
                &&& post == ActivityNew { errors: post.errors, ..pre }
                &&& post.errors@.len() == 1
                &&& post.errors@[0].field@ == "title"@
                &&& post.errors@[0].detail@ == "can't be blank"@
                &&& out.says(Level::Warning, "title required"@)
            } else {
                &&& post == ActivityNew { pending: true, ..pre }
                &&& out.note is None
                &&& out.effects@.len() == 1
                &&& out.effects@[0] matches Effect::Call(Request::CreateActivity(body))
                    && pre.bodied(body, now)
            },
            Action::ActivityCreated => post == ActivityNew { pending: false, ..pre } && out.quiet(),
            Action::ActivityFailed { errors, detail } => {
                &&& post == ActivityNew { pending: false, errors, ..pre }
                &&& out.says(Level::Error, detail@)
            },
            _ => post == pre && out.quiet(),
        }
    }

    /// Entering the screen asks for nothing.
    pub fn on_enter(&mut self) -> (out: Vec<Effect>)
        ensures
            *final(self) == *old(self),
            out@ == Seq::<Effect>::empty(),
    {
        Vec::new()
    }

    fn type_key(&mut self, key: KeyEvent)
        requires
            old(self).wf(),
        ensures
            final(self).wf(),
            Self::typed(*old(self), key, *final(self)),
    {
        match self.focus {
            0 => self.title.press(key),
            1 => self.kind.press(key),
            2 => {
                if let KeyCode::Char(c) = key.code {
                    if !digit_key(c) {
                        return ;
                    }
                }
                self.duration.press(key);
            },
            _ => self.notes.press(key),
        }
    }

    fn submit(&mut self, now: i64) -> (out: Outcome)
        requires
            old(self).wf(),
        ensures
            final(self).wf(),
            Self::handled(*old(self), Action::ActivitySubmit, now, *final(self), out),
    {
        if self.pending {
            return Outcome::say(Level::Warning, own("already submitting…"));
        }
        if opt_str(self.title.value()).is_none() {
            let mut errors: Vec<FieldError> = Vec::new();
            errors.push(FieldError { field: own("title"), detail: own("can't be blank") });
            self.errors = errors;
            return Outcome::say(Level::Warning, own("title required"));
        }
        let body = ActivityCreate {
            title: self.title.value.clone(),
            kind: opt_str(self.kind.value()),
            duration_minutes: parse_number(self.duration.value()),
            started_at: now,
            notes_generated: opt_str(self.notes.value()),
        };
        self.pending = true;
        Outcome::call(Request::CreateActivity(body))
    }

    /// How the screen answers an action at `now`.
    #[verifier::rlimit(40)]
    pub fn handle(&mut self, action: Action, now: i64) -> (out: Outcome)
        requires
            old(self).wf(),
        ensures
            final(self).wf(),
            Self::handled(*old(self), action, now, *final(self), out),
    {
        match action {
            Action::ActivityFieldNext => {
                self.focus = if self.focus == 3 {
                    0
                } else {
                    self.focus + 1
                };
            },
            Action::ActivityFieldPrev => {
                self.focus = if self.focus == 0 {
                    3
                } else {
                    self.focus - 1
                };
            },
            Action::ActivityEnterInsert => self.mode = ScreenMode::Insert,
            Action::ActivityLeaveInsert => self.mode = ScreenMode::Normal,
            Action::ActivityKey(key) => self.type_key(key),
            Action::ActivitySubmit => {
                return self.submit(now);
            },
            Action::ActivityCreated => self.pending = false,
            Action::ActivityFailed { errors, detail } => {
                self.pending = false;
                self.errors = errors;
                return Outcome::say(Level::Error, detail);
            },
            _ => {},
        }
        Outcome::none()
    }

    // ---- what the panel says ----

    /// The text of a field.
    pub open spec fn value_text(self, i: int) -> Seq<char> {
        if i == 0 {
            self.title.value@
        } else if i == 1 {
            self.kind.value@
        } else if i == 2 {
            self.duration.value@
        } else {
            self.notes.value@
        }
    }

    /// The first fault found with a field.
    pub open spec fn fault(errors: Seq<FieldError>, field: Seq<char>, from: int) -> Option<int>
        decreases errors.len() - from,
    {
        if from < 0 || from >= errors.len() {
            None
        } else if errors[from].field@ == field {
            Some(from)
        } else {
            Self::fault(errors, field, from + 1)
        }
    }

    fn find_fault(&self, field: &str) -> (res: Option<usize>)
        ensures
            match Self::fault(self.errors@, field@, 0) {
                Some(i) => res is Some && res->0 == i && i < self.errors@.len(),
                None => res is None,
            },
    {
        let mut i: usize = 0;
        while i < self.errors.len()
            invariant
                i <= self.errors.len(),
                Self::fault(self.errors@, field@, 0) == Self::fault(self.errors@, field@, i as int),
            decreases self.errors.len() - i,
        {
            if same(self.errors[i].field.as_str(), field) {
                return Some(i);
            }
            i = i + 1;
        }
        None
    }

    /// A field's title: its name, crossed where there is a fault.
    pub open spec fn field_title_text(self, i: int) -> (Tone, Seq<char>) {
        match Self::fault(self.errors@, field_text(i), 0) {
            Some(_) => (Tone::Danger, " "@ + field_text(i) + " "@ + "✗ "@),
            None => (Tone::Muted, " "@ + field_text(i) + " "@ + " "@),
        }
    }

    /// A field's title.
    pub fn field_title(&self, i: usize) -> (res: Line)
        requires
            i < FIELDS,
        ensures
            res@ == seq![self.field_title_text(i as int)],
    {
        let name = field_name(i);
        match self.find_fault(name) {
            Some(_) => Line::of(Tone::Danger, cat4(" ", name, " ", "✗ ")),
            None => Line::of(Tone::Muted, cat4(" ", name, " ", " ")),
        }
    }

    /// A field's text, with the fault behind it.
    pub open spec fn field_body_text(self, i: int) -> Seq<(Tone, Seq<char>)> {
        match Self::fault(self.errors@, field_text(i), 0) {
            Some(k) => seq![
                (Tone::Plain, self.value_text(i)),
                (Tone::Plain, "    "@),
                (Tone::Danger, "⚠ "@ + self.errors@[k].detail@),
            ],
            None => seq![(Tone::Plain, self.value_text(i))],
        }
    }

    /// A field's text, with the fault behind it.
    pub fn field_body(&self, i: usize) -> (res: Line)
        requires
            i < FIELDS,
        ensures
            res@ == self.field_body_text(i as int),
    {
        let value = match i {
            0 => self.title.value.clone(),
            1 => self.kind.value.clone(),
            2 => self.duration.value.clone(),
            _ => self.notes.value.clone(),
        };
        assert(value@ == self.value_text(i as int));
        let line = Line::of(Tone::Plain, value);
        let name = field_name(i);
        match self.find_fault(name) {
            Some(k) => {
                let line = line.with(Tone::Plain, own("    ")).with(
                    Tone::Danger,
                    cat2("⚠ ", self.errors[k].detail.as_str()),
                );
                assert(line@ =~= self.field_body_text(i as int));
                line
            },
            None => line,
        }
    }

    /// The line below the fields: the mode and the keys.
    pub open spec fn mode_text(self) -> Seq<char> {
        "-- "@ + (match self.mode {
            ScreenMode::Normal => "NORMAL"@,
            ScreenMode::Insert => "INSERT"@,
        }) + " --     j/k field · i edit · Esc normal · :w / <Space>s submit"@
    }

    /// The line below the fields.
    pub fn mode_line(&self) -> (res: Line)
        ensures
            res@ == seq![(Tone::Muted, self.mode_text())],
    {
        let mode = match self.mode {
            ScreenMode::Normal => "NORMAL",
            ScreenMode::Insert => "INSERT",
        };
        Line::of(
            Tone::Muted,
            cat3(
                "-- ",
                mode,
                " --     j/k field · i edit · Esc normal · :w / <Space>s submit",
            ),
        )
    }

    /// What the footer offers.
    pub open spec fn offered(self, f: Footer) -> bool {
        if self.mode == ScreenMode::Insert {
            f.reads(Tone::Focused, "INSERT · type · Esc to leave"@)
        } else {
            f.offers(seq![("j/k", "field"), ("i", "edit"), ("⎵s", "submit"), ("Esc", "back")])
        }
    }

    /// What the footer offers.
    pub fn hints(&self) -> (res: Footer)
        ensures
            self.offered(res),
    {
        match self.mode {
            ScreenMode::Insert => Footer::Text(
                Line::of(Tone::Focused, own("INSERT · type · Esc to leave")),
            ),
            ScreenMode::Normal => Footer::Keys(
                vec![("j/k", "field"), ("i", "edit"), ("⎵s", "submit"), ("Esc", "back")],
            ),
        }
    }
}

// ---- what the calls answer ----

/// What a sent form is answered: the word and the way home, or what is wrong
/// with it, field by field, and in words.
pub fn activity_created(reply: Result<(), (Vec<FieldError>, String)>) -> (res: Vec<Action>)
    ensures
        match reply {
            Ok(_) => {
                &&& res@.len() == 3
                &&& res@[0] == Action::ActivityCreated
                &&& notifies(res@[1], Level::Success, "activity logged"@)
                &&& res@[2] == Action::Goto(ScreenKind::Home)
            },
            Err((errors, detail)) => res@ == seq![Action::ActivityFailed { errors, detail }],
        },
{
    match reply {
        Ok(_) => three(
            Action::ActivityCreated,
            notice(Level::Success, own("activity logged")),
            Action::Goto(ScreenKind::Home),
        ),
        Err((errors, detail)) => one(Action::ActivityFailed { errors, detail }),
    }
}

// ---- laws ----

/// A step forward and a step back end on the field they left, either way round.
pub proof fn field_steps_undo(a: ActivityNew, b: ActivityNew, c: ActivityNew, x: Outcome, y: Outcome, now: i64)
    requires
        a.wf(),
        ({
            ||| ActivityNew::handled(a, Action::ActivityFieldNext, now, b, x)
                && ActivityNew::handled(b, Action::ActivityFieldPrev, now, c, y)
            ||| ActivityNew::handled(a, Action::ActivityFieldPrev, now, b, x)
                && ActivityNew::handled(b, Action::ActivityFieldNext, now, c, y)
        }),
    ensures
        c == a,
{
}

/// A form without a title is never sent, and a form on its way is not sent again.
pub proof fn only_a_titled_form_is_sent(
    pre: ActivityNew,
    action: Action,
    now: i64,
    post: ActivityNew,
    out: Outcome,
)
    requires
        ActivityNew::handled(pre, action, now, post, out),
        out.effects@.len() > 0,
    ensures
        action is ActivitySubmit,
        trimmed(pre.title.value@).len() > 0,
        !pre.pending,
        post.pending,
{
}

/// Typing a letter that is no digit leaves the duration alone.
pub proof fn the_duration_takes_digits(
    pre: ActivityNew,
    key: KeyEvent,
    c: char,
    now: i64,
    post: ActivityNew,
    out: Outcome,
)
    requires
        pre.focus == 2,
        key.code == KeyCode::Char(c),
        !is_digit(c),
        ActivityNew::handled(pre, Action::ActivityKey(key), now, post, out),
    ensures
        post == pre,
{
}

/// A submitted form sends what its fields hold: the title as typed, the kind and the
/// notes without the blanks round them or not at all, the minutes where they spell a
/// number, and the instant it was submitted at.
pub proof fn a_form_sends_what_its_fields_hold(
    pre: ActivityNew,
    now: i64,
    post: ActivityNew,
    out: Outcome,
)
    requires
        !pre.pending,
        trimmed(pre.title.value@).len() > 0,
        ActivityNew::handled(pre, Action::ActivitySubmit, now, post, out),
    ensures
        out.note is None,
        out.effects@.len() == 1,
        out.effects@[0] matches Effect::Call(Request::CreateActivity(body)) && {
            &&& body.title@ == pre.title.value@
            &&& match body.kind {
                Some(k) => k@ == trimmed(pre.kind.value@) && k@.len() > 0,
                None => trimmed(pre.kind.value@).len() == 0,
            }
            &&& match body.notes_generated {
                Some(n) => n@ == trimmed(pre.notes.value@) && n@.len() > 0,
                None => trimmed(pre.notes.value@).len() == 0,
            }
            &&& body.duration_minutes == number(pre.duration.value@)
            &&& body.started_at == now
        },
        post.pending,
        post.title == pre.title,
        post.kind == pre.kind,
        post.duration == pre.duration,
        post.notes == pre.notes,
{
}

/// A form opened and given nothing but a title is logged as half an hour of study.
pub proof fn a_bare_form_is_half_an_hour_of_study(
    s: ActivityNew,
    title: LineInput,
    now: i64,
    post: ActivityNew,
    out: Outcome,
)
    requires
        s.fresh(),
        trimmed(title.value@).len() > 0,
        ActivityNew::handled(
            ActivityNew { title, ..s },
            Action::ActivitySubmit,
            now,
            post,
            out,
        ),
    ensures
        out.effects@.len() == 1,
        out.effects@[0] matches Effect::Call(Request::CreateActivity(body)) && body.title@
            == title.value@ && body.kind is Some && body.kind->0@ == "study"@
            && body.duration_minutes == Some(30u32) && body.notes_generated is None
            && body.started_at == now,
{
    reveal_strlit("study");
    reveal_strlit("30");
    assert(trimmed("study"@) == "study"@);
    crate::text::a_number_reads_back(30);
    reveal_with_fuel(crate::text::decimal, 3);
    assert("30"@ =~= crate::text::decimal(30));
}

/// A key goes to the field under the focus and to no other.
pub proof fn a_key_goes_to_the_focused_field(
    pre: ActivityNew,
    key: KeyEvent,
    now: i64,
    post: ActivityNew,
    out: Outcome,
)
    requires
        pre.wf(),
        ActivityNew::handled(pre, Action::ActivityKey(key), now, post, out),
    ensures
        pre.focus != 0 ==> post.title == pre.title,
        pre.focus != 1 ==> post.kind == pre.kind,
        pre.focus != 2 ==> post.duration == pre.duration,
        pre.focus != 3 ==> post.notes == pre.notes,
        pre.focus == 0 ==> LineInput::keyed(pre.title, key, post.title),
        pre.focus == 1 ==> LineInput::keyed(pre.kind, key, post.kind),
        pre.focus == 3 ==> LineInput::keyed(pre.notes, key, post.notes),
        pre.focus == 2 && (key.code matches KeyCode::Char(c) ==> '0' <= c <= '9')
            ==> LineInput::keyed(pre.duration, key, post.duration),
        post.focus == pre.focus,
        post.pending == pre.pending,
        out.effects@.len() == 0,
{
}

/// The focus walks title, kind, duration, notes, and round again.
pub proof fn the_focus_walks_the_fields(
    pre: ActivityNew,
    now: i64,
    post: ActivityNew,
    out: Outcome,
)
    requires
        pre.wf(),
        ActivityNew::handled(pre, Action::ActivityFieldNext, now, post, out),
    ensures
        post.focus == (if pre.focus == 3 {
            0
        } else {
            pre.focus + 1
        }),
        field_text(0) == "title"@,
        field_text(1) == "kind"@,
        field_text(2) == "duration"@,
        field_text(3) == "notes"@,
        post == (ActivityNew { focus: post.focus, ..pre }),
{
}

/// A form without a title is turned away with the fault on its title, and keeps what
/// was typed.
pub proof fn a_blank_title_is_turned_away(
    pre: ActivityNew,
    now: i64,
    post: ActivityNew,
    out: Outcome,
)
    requires
        !pre.pending,
        trimmed(pre.title.value@).len() == 0,
        ActivityNew::handled(pre, Action::ActivitySubmit, now, post, out),
    ensures
        out.effects@.len() == 0,
        out.note is Some,
        (out.note->0).0 == Level::Warning,
        !post.pending,
        post.errors@.len() == 1,
        post.errors@[0].field@ == field_text(0),
        post.kind == pre.kind,
        post.duration == pre.duration,
        post.notes == pre.notes,
{
}

/// A form that the server turned away can be sent again, with the faults it found.
pub proof fn a_refused_form_can_be_sent_again(
    pre: ActivityNew,
    errors: Vec<FieldError>,
    detail: String,
    now: i64,
    post: ActivityNew,
    out: Outcome,
)
    requires
        ActivityNew::handled(pre, Action::ActivityFailed { errors, detail }, now, post, out),
    ensures
        !post.pending,
        post.errors == errors,
        post.title == pre.title,
        post.notes == pre.notes,
        out.note is Some,
        (out.note->0).0 == Level::Error,
        (out.note->0).1@ == detail@,
{
}

/// A form that was logged goes home; one that was turned away stays with its faults.
pub proof fn how_a_form_is_answered(
    reply: Result<(), (Vec<FieldError>, String)>,
    sent: Vec<Action>,
)
    requires
        call_ensures(activity_created, (reply,), sent),
    ensures
        reply is Ok ==> sent@.len() == 3 && sent@[0] is ActivityCreated && sent@[2] == Action::Goto(
            ScreenKind::Home,
        ) && (sent@[1] matches Action::Notify { level, .. } && level == Level::Success),
        reply matches Err((errors, detail)) ==> sent@ == seq![
            Action::ActivityFailed { errors, detail },
        ],
{
}

/// Every field keeps its value but through the actions that are about it.
pub proof fn what_an_action_leaves_alone(
    pre: ActivityNew,
    action: Action,
    now: i64,
    post: ActivityNew,
    out: Outcome,
)
    requires
        ActivityNew::handled(pre, action, now, post, out),
    ensures
        post.title == pre.title || action is ActivityKey,
        post.kind == pre.kind || action is ActivityKey,
        post.duration == pre.duration || action is ActivityKey,
        post.notes == pre.notes || action is ActivityKey,
        post.focus == pre.focus || action is ActivityFieldNext || action is ActivityFieldPrev,
        post.mode == pre.mode || action is ActivityEnterInsert || action is ActivityLeaveInsert,
        post.errors == pre.errors || action is ActivitySubmit || action is ActivityFailed,
        post.pending == pre.pending || action is ActivitySubmit || action is ActivityCreated
            || action is ActivityFailed,
{
}

/// Only these actions say something, and only these send something; a read under way is
/// marked until it is answered.
pub proof fn which_actions_are_heard(
    pre: ActivityNew,
    action: Action,
    now: i64,
    post: ActivityNew,
    out: Outcome,
)
    requires
        ActivityNew::handled(pre, action, now, post, out),
    ensures
        out.note is None || action is ActivitySubmit || action is ActivityFailed,
        out.effects@.len() == 0 || action is ActivitySubmit,
        out.effects@.len() <= 1,
        (action is ActivityCreated || action is ActivityFailed) ==> !post.pending,
{
}

/// What the form says: that it is on its way already, that it needs a title, or why the
/// server turned it away.
pub proof fn what_the_form_says(
    pre: ActivityNew,
    action: Action,
    now: i64,
    post: ActivityNew,
    out: Outcome,
)
    requires
        ActivityNew::handled(pre, action, now, post, out),
    ensures
        action is ActivitySubmit && pre.pending ==> out.note is Some && (out.note->0).0
            == Level::Warning && (out.note->0).1@ == "already submitting…"@ && post == pre,
        action is ActivitySubmit && !pre.pending && filled(pre.title.value@) is None
            ==> out.note is Some && (out.note->0).0 == Level::Warning && (out.note->0).1@
            == "title required"@ && post.errors@[0].detail@ == "can't be blank"@,
        action matches Action::ActivityFailed { errors, detail } ==> out.note is Some && (
        out.note->0).0 == Level::Error && (out.note->0).1@ == detail@ && post.errors == errors,
{
}

/// The form starts on its title, with half an hour of study filled in.
pub proof fn how_the_screen_starts(s: ActivityNew)
    requires
        call_ensures(ActivityNew::default, (), s),
    ensures
        s.title.value@.len() == 0,
        s.kind.value@ == "study"@,
        s.duration.value@ == "30"@,
        s.notes.value@.len() == 0,
        s.kind.cursor == s.kind.value@.len(),
        s.duration.cursor == s.duration.value@.len(),
        s.focus == 0,
        s.mode is Normal,
        s.errors@.len() == 0,
        !s.pending,
{
}

} // verus!
