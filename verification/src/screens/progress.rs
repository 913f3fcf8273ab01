//! Progress screen: the week's targets as meters, the fold of where the time
//! went, and the writes that declare, adjust and retire a target.

use crate::action::{notice, notifies, one, two, Action, Effect, Outcome, Request};
use crate::cursor::{step, stepped};
use crate::dates::{add_days, day_plus, day_text, day_text_of, SPAN_WEEKS};
use crate::keys::{digit_key, is_digit, KeyCode, KeyEvent};
use crate::line::{no_lines, page, push_line, Area, Footer, Line, Tone};
use crate::model::{DeclaredTarget, Domain, Fault, FaultKind, Pace, PaceState, Reading, TargetScope, WriteReply};
use crate::notify::Level;
use crate::picker::{item, Picker, PickerItem};
use crate::text::{
    after_last, cat2, cat3, cat4, cat5, decimal, fitted, join, joined, last_part, lowercase,
    lowercase_of, no_texts, own, pad, pad_or_truncate, padded, push_text, same, show, show_signed,
    signed_decimal, texts,
};
use vstd::prelude::*;

verus! {

/// The word on a target write that met a closed version: a soft re-read.
pub open spec fn moved_on() -> Seq<char> {
    "this target moved on — re-fetching the live pace"@
}

/// The kinds of work a target can count.
pub open spec fn kinds() -> Seq<&'static str> {
    seq!["deep_work", "reading", "coding", "lecture", "review", "pairing", "other"]
}

/// The intents a target can count.
pub open spec fn intents() -> Seq<&'static str> {
    seq!["implement", "challenge", "follow", "study"]
}

fn kind_words() -> (res: Vec<&'static str>)
    ensures
        res@ == kinds(),
{
    let v: Vec<&'static str> = vec![
        "deep_work",
        "reading",
        "coding",
        "lecture",
        "review",
        "pairing",
        "other",
    ];
    assert(v@ =~= kinds());
    v
}

fn intent_words() -> (res: Vec<&'static str>)
    ensures
        res@ == intents(),
{
    let v: Vec<&'static str> = vec!["implement", "challenge", "follow", "study"];
    assert(v@ =~= intents());
    v
}

/// Which way the fold of where the time went is cut.
#[derive(Debug, Clone, Copy, PartialEq, Eq, Structural)]
pub enum Facet {
    Kind,
    Domain,
    Intent,
}

impl Facet {
    /// The next cut: kind, domain, intent, and round again.
    pub open spec fn after(self) -> Facet {
        match self {
            Facet::Kind => Facet::Domain,
            Facet::Domain => Facet::Intent,
            Facet::Intent => Facet::Kind,
        }
    }

    /// The next cut.
    pub fn next(self) -> (res: Self)
        ensures
            res == self.after(),
    {
        match self {
            Facet::Kind => Facet::Domain,
            Facet::Domain => Facet::Intent,
            Facet::Intent => Facet::Kind,
        }
    }

    /// The cut in words.
    pub open spec fn label_text(self) -> Seq<char> {
        match self {
            Facet::Kind => "by kind"@,
            Facet::Domain => "by domain"@,
            Facet::Intent => "by intent"@,
        }
    }

    /// The cut in words.
    pub fn label(self) -> (res: &'static str)
        ensures
            res@ == self.label_text(),
    {
        match self {
            Facet::Kind => "by kind",
            Facet::Domain => "by domain",
            Facet::Intent => "by intent",
        }
    }
}

/// The flow that declares a target: read the domains, pick a scope, then type
/// the hours.
#[derive(Debug)]
pub enum Declare {
    /// The domains are on their way.
    Loading,
    /// Picking the scope: any domain, kind or intent, in one list.
    Scope(Picker<TargetScope>),
    /// Typing the weekly hours. The picker is kept, so a step back finds it as
    /// it was left.
    Hours { scope: TargetScope, label: String, buf: String, picker: Picker<TargetScope> },
}

/// The progress screen.
#[derive(Debug)]
pub struct Progress {
    pub data: Option<Pace>,
    /// Weeks from the current one: 0 is this week, -1 the last.
    pub offset: i32,
    pub loading: bool,
    pub error: Option<String>,
    pub selected: usize,
    /// The hours being typed for the selected target.
    pub edit: Option<String>,
    /// The target that a second press retires.
    pub retire_armed: Option<i64>,
    pub declare: Option<Declare>,
    pub fold: Facet,
    /// The targets declared while offline, until a read supersedes them.
    pub provisional: Vec<String>,
}

impl Default for Progress {
    fn default() -> (res: Self)
        ensures
            res.fresh(),
            res.wf(),
    {
        Progress {
            data: None,
            offset: 0,
            loading: false,
            error: None,
            selected: 0,
            edit: None,
            retire_armed: None,
            declare: None,
            fold: Facet::Kind,
            provisional: Vec::new(),
        }
    }
}

/// Whether the bits of a number spell one above zero: the positive numbers come
/// first in the order of their bits, up to infinity.
pub open spec fn positive(bits: u64) -> bool {
    1 <= bits <= 0x7ff0_0000_0000_0000
}

/// The model of [`TargetScope`].
pub enum ScopeModel {
    Domain(int),
    Kind(Seq<char>),
    Intent(Seq<char>),
}

/// The model of a scope.
pub open spec fn scope_model(scope: TargetScope) -> ScopeModel {
    match scope {
        TargetScope::Domain(id) => ScopeModel::Domain(id as int),
        TargetScope::Kind(k) => ScopeModel::Kind(k@),
        TargetScope::Intent(i) => ScopeModel::Intent(i@),
    }
}

/// Every scope on offer: the domains, then the kinds, then the intents, each
/// under its axis.
pub open spec fn scopes(domains: Seq<Domain>) -> Seq<(Seq<char>, ScopeModel)> {
    domains.map_values(|d: Domain| ("domain · "@ + d.name@, ScopeModel::Domain(d.id as int)))
        + kinds().map_values(|k: &'static str| ("kind · "@ + k@, ScopeModel::Kind(k@)))
        + intents().map_values(|i: &'static str| ("intent · "@ + i@, ScopeModel::Intent(i@)))
}

/// The model of the items of a scope picker.
pub open spec fn scope_items(items: Seq<PickerItem<TargetScope>>) -> Seq<(Seq<char>, ScopeModel)> {
    items.map_values(|i: PickerItem<TargetScope>| (i.label@, scope_model(i.value)))
}

fn push_scope(items: &mut Vec<PickerItem<TargetScope>>, label: String, scope: TargetScope)
    ensures
        scope_items(final(items)@) == scope_items(old(items)@).push((label@, scope_model(scope))),
{
    items.push(item(label, scope));
    assert(scope_items(items@) =~= scope_items(old(items)@).push((label@, scope_model(scope))));
}

impl Progress {
    /// A screen that has read nothing.
    pub open spec fn fresh(self) -> bool {
        &&& self.data is None
        &&& self.offset == 0
        &&& !self.loading
        &&& self.error is None
        &&& self.selected == 0
        &&& self.edit is None
        &&& self.retire_armed is None
        &&& self.declare is None
        &&& self.fold == Facet::Kind
        &&& self.provisional@ == Seq::<String>::empty()
    }

    /// The week shown is one the calendar can name.
    pub open spec fn wf(self) -> bool {
        -SPAN_WEEKS <= self.offset <= SPAN_WEEKS
    }

    /// Whether the calendar can name the week an action steps to.
    pub open spec fn admits(self, action: Action) -> bool {
        action matches Action::ProgressWeekStep(d) ==> -SPAN_WEEKS <= self.offset + d <= SPAN_WEEKS
    }

    /// Whether the calendar can name the week an action steps to.
    pub fn can_take(&self, action: &Action) -> (res: bool)
        ensures
            res == self.admits(*action),
    {
        match action {
            Action::ProgressWeekStep(d) => {
                let target: i64 = self.offset as i64 + *d as i64;
                let span: i64 = SPAN_WEEKS as i64;
                -span <= target && target <= span
            },
            _ => true,
        }
    }

    /// The text whose number an action turns on: the hours being typed.
    pub open spec fn hours_read(self, action: Action) -> Option<Seq<char>> {
        match action {
            Action::ProgressAdjustSubmit => match self.edit {
                Some(buf) => Some(buf@),
                None => None,
            },
            Action::ProgressDeclareKey(_) => match self.declare {
                Some(Declare::Hours { scope: _, label: _, buf, picker: _ }) => Some(buf@),
                _ => None,
            },
            _ => None,
        }
    }

    /// The text whose number an action turns on, for the shell to read.
    pub fn hours_typed(&self, action: &Action) -> (res: Option<String>)
        ensures
            match self.hours_read(*action) {
                Some(t) => res is Some && res->0@ == t,
                None => res is None,
            },
    {
        match action {
            Action::ProgressAdjustSubmit => match &self.edit {
                Some(buf) => Some(buf.clone()),
                None => None,
            },
            Action::ProgressDeclareKey(_) => match &self.declare {
                Some(Declare::Hours { scope: _, label: _, buf, picker: _ }) => Some(buf.clone()),
                _ => None,
            },
            _ => None,
        }
    }

    /// The target under the cursor.
    pub open spec fn chosen(self) -> Option<Reading> {
        match self.data {
            Some(d) => if self.selected < d.targets@.len() {
                Some(d.targets@[self.selected as int])
            } else {
                None
            },
            None => None,
        }
    }

    /// How the open flow takes a key. `hours` is the number that the hours typed
    /// so far spell, by its bits.
    pub open spec fn flow_keyed(
        pre: Self,
        key: KeyEvent,
        hours: Option<u64>,
        post: Self,
        out: Outcome,
    ) -> bool {
        &&& post == Progress { declare: post.declare, ..pre }
        &&& match pre.declare {
            None => post.declare is None && out.quiet(),
            Some(Declare::Loading) => {
                &&& post.declare == (if key.code == KeyCode::Esc {
                    None
                } else {
                    pre.declare
                })
                &&& out.quiet()
            },
            Some(Declare::Scope(picker)) => out.quiet() && match key.code {
                KeyCode::Esc => post.declare is None,
                KeyCode::Enter => match picker.chosen() {
                    Some(found) => {
                        &&& post.declare matches Some(
                            Declare::Hours { scope, label, buf, picker: kept },
                        ) && scope == found.value && label == found.label && buf@ == Seq::<
                            char,
                        >::empty() && kept == picker
                    },
                    None => post.declare == pre.declare,
                },
                _ => post.declare matches Some(Declare::Scope(p)) && Picker::keyed(picker, key, p),
            },
            Some(Declare::Hours { scope, label, buf, picker }) => match key.code {
                KeyCode::Esc => post.declare == Some(Declare::Scope(picker)) && out.quiet(),
                KeyCode::Enter => if hours is Some && positive(hours->0) {
                    &&& post.declare is None
                    &&& out.note is None
                    &&& out.effects@.len() == 1
                    &&& out.effects@[0] matches Effect::Call(
                        Request::DeclareTarget { scope: s, hours: h, scope_name },
                    ) && s == scope && h == hours->0 && scope_name@ == lowercase_of(
                        after_last(label@, " · "@),
                    )
                } else {
                    post.declare == pre.declare && out.quiet()
                },
                _ => {
                    &&& post.declare matches Some(
                        Declare::Hours { scope: s, label: l, buf: b, picker: p },
                    ) && s == scope && l == label && p == picker && b@ == (match key.code {
                        KeyCode::Backspace => if buf@.len() > 0 {
                            buf@.drop_last()
                        } else {
                            buf@
                        },
                        KeyCode::Char(c) => if is_digit(c) || c == '.' {
                            buf@.push(c)
                        } else {
                            buf@
                        },
                        _ => buf@,
                    })
                    &&& out.quiet()
                },
            },
        }
    }

    /// How the screen answers an action. `hours` is the number that the hours
    /// typed so far spell, by its bits.
    pub open spec fn handled(
        pre: Self,
        action: Action,
        hours: Option<u64>,
        post: Self,
        out: Outcome,
    ) -> bool {
        match action {
            Action::ProgressLoaded(pace) => {
                &&& post == Progress {
                    data: Some(*pace),
                    loading: false,
                    error: None,
                    selected: if pace.targets@.len() == 0 {
                        0
                    } else if pre.selected >= pace.targets@.len() {
                        (pace.targets@.len() - 1) as usize
                    } else {
                        pre.selected
                    },
                    retire_armed: None,
                    provisional: post.provisional,
                    ..pre
                }
                &&& post.provisional@ == Seq::<String>::empty()
                &&& out.quiet()
            },
            Action::ProgressLoadFailed(e) => {
                post == Progress { loading: false, error: Some(e), ..pre } && out.quiet()
            },
            Action::ProgressWeekStep(d) => {
                &&& post == Progress {
                    offset: (pre.offset + d) as i32,
                    loading: true,
                    provisional: post.provisional,
                    ..pre
                }
                &&& post.provisional@ == Seq::<String>::empty()
                &&& out.asks(
                    seq![Effect::Call(Request::LoadProgress { offset: (pre.offset + d) as i32 })],
                )
            },
            Action::ProgressWeekReset => if pre.offset != 0 {
                &&& post == Progress {
                    offset: 0,
                    loading: true,
                    provisional: post.provisional,
                    ..pre
                }
                &&& post.provisional@ == Seq::<String>::empty()
                &&& out.asks(seq![Effect::Call(Request::LoadProgress { offset: 0 })])
            } else {
                post == pre && out.quiet()
            },
            Action::RefreshProgress => {
                &&& post == Progress { loading: true, ..pre }
                &&& out.asks(seq![Effect::Call(Request::LoadProgress { offset: pre.offset })])
            },
            Action::ProgressFoldCycle => {
                post == Progress { fold: pre.fold.after(), ..pre } && out.quiet()
            },
            Action::ProgressSelectMove(d) => {
                &&& post == Progress {
                    selected: match pre.data {
                        Some(data) => if data.targets@.len() > 0 {
                            stepped(
                                pre.selected as int,
                                d as int,
                                data.targets@.len() as int,
                            ) as usize
                        } else {
                            pre.selected
                        },
                        None => pre.selected,
                    },
                    retire_armed: None,
                    ..pre
                }
                &&& out.quiet()
            },
            Action::ProgressAdjustBegin => {
                &&& post == Progress {
                    edit: match pre.chosen() {
                        Some(r) => Some(r.hours),
                        None => pre.edit,
                    },
                    retire_armed: None,
                    ..pre
                }
                &&& out.quiet()
            },
            Action::ProgressAdjustInput(c) => {
                &&& post == Progress { edit: post.edit, ..pre }
                &&& post.edit is Some <==> pre.edit is Some
                &&& pre.edit matches Some(b) ==> post.edit->0@ == b@.push(c)
                &&& out.quiet()
            },
            Action::ProgressAdjustBackspace => {
                &&& post == Progress { edit: post.edit, ..pre }
                &&& post.edit is Some <==> pre.edit is Some
                &&& pre.edit matches Some(b) ==> post.edit->0@ == (if b@.len() > 0 {
                    b@.drop_last()
                } else {
                    b@
                })
                &&& out.quiet()
            },
            Action::ProgressAdjustCancel => post == Progress { edit: None, ..pre } && out.quiet(),
            Action::ProgressAdjustSubmit => {
                &&& post == Progress { edit: None, ..pre }
                &&& match pre.chosen() {
                    Some(r) => if pre.edit is Some && hours is Some && positive(hours->0) {
                        out.asks(
                            seq![Effect::Call(Request::AdjustTarget { id: r.id, hours: hours->0 })],
                        )
                    } else {
                        out.says(Level::Warning, "enter a positive number of hours"@)
                    },
                    None => out.quiet(),
                }
            },
            Action::ProgressRetire => match pre.chosen() {
                Some(r) => if pre.retire_armed == Some(r.id) {
                    &&& post == Progress { retire_armed: None, ..pre }
                    &&& out.asks(seq![Effect::Call(Request::RetireTarget { id: r.id })])
                } else {
                    &&& post == Progress { retire_armed: Some(r.id), ..pre }
                    &&& out.says(
                        Level::Warning,
                        "press x again to retire this target (history is kept)"@,
                    )
                },
                None => post == pre && out.quiet(),
            },
            Action::ProgressDeclareBegin => if pre.declare is None && pre.edit is None {
                &&& post == Progress { declare: Some(Declare::Loading), retire_armed: None, ..pre }
                &&& out.asks(seq![Effect::Call(Request::ListDomains)])
            } else {
                post == pre && out.quiet()
            },
            Action::ProgressDeclareReady(domains) => {
                &&& post == Progress { declare: post.declare, ..pre }
                &&& if pre.declare == Some(Declare::Loading) {
                    post.declare matches Some(Declare::Scope(p)) && Self::scope_picked(
                        p,
                        domains@,
                    )
                } else {
                    post.declare == pre.declare
                }
                &&& out.quiet()
            },
            Action::ProgressDeclareKey(key) => Self::flow_keyed(pre, key, hours, post, out),
            Action::ProgressDeclareQueued(desc) => {
                &&& post == Progress { provisional: post.provisional, ..pre }
                &&& post.provisional@ == pre.provisional@.push(desc)
                &&& out.quiet()
            },
            _ => post == pre && out.quiet(),
        }
    }

    /// A fresh scope picker over these domains.
    pub open spec fn scope_picked(p: Picker<TargetScope>, domains: Seq<Domain>) -> bool {
        &&& p.opened("declare a target — pick a scope", p.items@)
        &&& scope_items(p.items@) == scopes(domains)
    }

    /// The one-list scope picker: every domain, then the kinds and the intents.
    pub fn scope_picker(domains: &Vec<Domain>) -> (res: Picker<TargetScope>)
        ensures
            Self::scope_picked(res, domains@),
    {
        let ks = kind_words();
        let is = intent_words();
        let ghost all = scopes(domains@);
        let mut items: Vec<PickerItem<TargetScope>> = Vec::new();
        let mut i: usize = 0;
        while i < domains.len()
            invariant
                i <= domains.len(),
                all == scopes(domains@),
                all.len() == domains@.len() + 11,
                scope_items(items@) == all.take(i as int),
            decreases domains.len() - i,
        {
            push_scope(
                &mut items,
                cat2("domain · ", domains[i].name.as_str()),
                TargetScope::Domain(domains[i].id),
            );
            assert(scope_items(items@) =~= all.take(i as int + 1));
            i = i + 1;
        }
        let n: usize = domains.len();
        let mut k: usize = 0;
        while k < 7
            invariant
                k <= 7,
                ks@ == kinds(),
                n == domains@.len(),
                all == scopes(domains@),
                all.len() == domains@.len() + 11,
                scope_items(items@) == all.take(n + k),
            decreases 7 - k,
        {
            push_scope(&mut items, cat2("kind · ", ks[k]), TargetScope::Kind(own(ks[k])));
            assert(scope_items(items@) =~= all.take(n + k + 1));
            k = k + 1;
        }
        let mut j: usize = 0;
        while j < 4
            invariant
                j <= 4,
                is@ == intents(),
                n == domains@.len(),
                all == scopes(domains@),
                all.len() == domains@.len() + 11,
                scope_items(items@) == all.take(n + 7 + j),
            decreases 4 - j,
        {
            push_scope(&mut items, cat2("intent · ", is[j]), TargetScope::Intent(own(is[j])));
            assert(scope_items(items@) =~= all.take(n + 7 + j + 1));
            j = j + 1;
        }
        assert(all.take(n + 11) =~= all);
        Picker::new("declare a target — pick a scope", items)
    }

    /// Entering the screen reads the week.
    pub fn on_enter(&mut self) -> (out: Vec<Effect>)
        ensures
            *final(self) == (Progress { loading: true, ..*old(self) }),
            out@ == seq![Effect::Call(Request::LoadProgress { offset: old(self).offset })],
    {
        self.loading = true;
        Outcome::call(Request::LoadProgress { offset: self.offset }).effects
    }

    fn reread(&mut self, offset: i32) -> (out: Outcome)
        ensures
            *final(self) == (Progress {
                offset,
                loading: true,
                provisional: final(self).provisional,
                ..*old(self)
            }),
            final(self).provisional@ == Seq::<String>::empty(),
            out.asks(seq![Effect::Call(Request::LoadProgress { offset })]),
    {
        self.offset = offset;
        self.loading = true;
        self.provisional = Vec::new();
        Outcome::call(Request::LoadProgress { offset })
    }

    fn selected_id(&self) -> (res: Option<i64>)
        ensures
            match self.chosen() {
                Some(r) => res == Some(r.id),
                None => res is None,
            },
    {
        match &self.data {
            Some(d) => if self.selected < d.targets.len() {
                Some(d.targets[self.selected].id)
            } else {
                None
            },
            None => None,
        }
    }

    fn is_positive(hours: Option<u64>) -> (res: Option<u64>)
        ensures
            res == (if hours is Some && positive(hours->0) {
                hours
            } else {
                None
            }),
    {
        match hours {
            Some(bits) => if 1 <= bits && bits <= 0x7ff0_0000_0000_0000 {
                Some(bits)
            } else {
                None
            },
            None => None,
        }
    }

    /// The open flow takes a key.
    fn declare_key(&mut self, key: KeyEvent, hours: Option<u64>) -> (out: Outcome)
        ensures
            Self::flow_keyed(*old(self), key, hours, *final(self), out),
    {
        let state = match self.declare.take() {
            Some(s) => s,
            None => {
                return Outcome::none();
            },
        };
        match state {
            Declare::Loading => {
                if key.code != KeyCode::Esc {
                    self.declare = Some(Declare::Loading);
                }
            },
            Declare::Scope(p) => {
                let mut picker = p;
                match key.code {
                    KeyCode::Esc => {},
                    KeyCode::Enter => {
                        let scope = match picker.selected() {
                            Some(s) => Some(s.clone()),
                            None => None,
                        };
                        let label = match picker.selected_label() {
                            Some(l) => Some(l.clone()),
                            None => None,
                        };
                        self.declare = match (scope, label) {
                            (Some(scope), Some(label)) => Some(
                                Declare::Hours { scope, label, buf: String::new(), picker },
                            ),
                            _ => Some(Declare::Scope(picker)),
                        };
                    },
                    _ => {
                        picker.press(key);
                        self.declare = Some(Declare::Scope(picker));
                    },
                }
            },
            Declare::Hours { scope, label, buf, picker } => match key.code {
                KeyCode::Esc => self.declare = Some(Declare::Scope(picker)),
                KeyCode::Enter => match Self::is_positive(hours) {
                    Some(bits) => {
                        let name = last_part(label.as_str(), " · ");
                        return Outcome::call(
                            Request::DeclareTarget {
                                scope,
                                hours: bits,
                                scope_name: lowercase(name.as_str()),
                            },
                        );
                    },
                    None => self.declare = Some(Declare::Hours { scope, label, buf, picker }),
                },
                code => {
                    let mut typed = buf;
                    match code {
                        KeyCode::Backspace => {
                            let _ = typed.pop();
                        },
                        KeyCode::Char(c) => if digit_key(c) || c == '.' {
                            typed.push(c);
                        },
                        _ => {},
                    }
                    self.declare = Some(Declare::Hours { scope, label, buf: typed, picker });
                },
            },
        }
        Outcome::none()
    }

    fn submit_adjust(&mut self, hours: Option<u64>) -> (out: Outcome)
        ensures
            Self::handled(*old(self), Action::ProgressAdjustSubmit, hours, *final(self), out),
    {
        let typed = match &self.edit {
            Some(_) => Self::is_positive(hours),
            None => None,
        };
        let id = self.selected_id();
        self.edit = None;
        match id {
            Some(id) => match typed {
                Some(bits) => Outcome::call(Request::AdjustTarget { id, hours: bits }),
                None => Outcome::say(Level::Warning, own("enter a positive number of hours")),
            },
            None => Outcome::none(),
        }
    }

    fn retire(&mut self) -> (out: Outcome)
        ensures
            Self::handled(*old(self), Action::ProgressRetire, None, *final(self), out),
    {
        let id = match self.selected_id() {
            Some(id) => id,
            None => {
                return Outcome::none();
            },
        };
        let armed = match self.retire_armed {
            Some(a) => a == id,
            None => false,
        };
        if armed {
            self.retire_armed = None;
            Outcome::call(Request::RetireTarget { id })
        } else {
            self.retire_armed = Some(id);
            Outcome::say(
                Level::Warning,
                own("press x again to retire this target (history is kept)"),
            )
        }
    }

    /// How the screen answers an action.
    #[verifier::rlimit(60)]
    #[verifier::spinoff_prover]
    pub fn handle(&mut self, action: Action, hours: Option<u64>) -> (out: Outcome)
        requires
            old(self).wf(),
            old(self).admits(action),
        ensures
            final(self).wf(),
            Self::handled(*old(self), action, hours, *final(self), out),
    {
        match action {
            Action::ProgressLoaded(pace) => {
                let n: usize = pace.targets.len();
                self.data = Some(*pace);
                self.loading = false;
                self.error = None;
                if n == 0 {
                    self.selected = 0;
                } else if self.selected >= n {
                    self.selected = n - 1;
                }
                self.retire_armed = None;
                self.provisional = Vec::new();
            },
            Action::ProgressLoadFailed(e) => {
                self.loading = false;
                self.error = Some(e);
            },
            Action::ProgressWeekStep(d) => {
                let offset: i32 = self.offset + d;
                return self.reread(offset);
            },
            Action::ProgressWeekReset => {
                if self.offset != 0 {
                    return self.reread(0);
                }
            },
            Action::RefreshProgress => {
                self.loading = true;
                return Outcome::call(Request::LoadProgress { offset: self.offset });
            },
            Action::ProgressFoldCycle => self.fold = self.fold.next(),
            Action::ProgressSelectMove(d) => {
                if let Some(data) = &self.data {
                    let n: usize = data.targets.len();
                    if n > 0 {
                        self.selected = step(self.selected, d, n);
                    }
                }
                self.retire_armed = None;
            },
            Action::ProgressAdjustBegin => {
                if let Some(d) = &self.data {
                    if self.selected < d.targets.len() {
                        self.edit = Some(d.targets[self.selected].hours.clone());
                    }
                }
                self.retire_armed = None;
            },
            Action::ProgressAdjustInput(c) => {
                if let Some(b) = &mut self.edit {
                    b.push(c);
                }
            },
            Action::ProgressAdjustBackspace => {
                if let Some(b) = &mut self.edit {
                    let _ = b.pop();
                }
            },
            Action::ProgressAdjustCancel => self.edit = None,
            Action::ProgressAdjustSubmit => {
                return self.submit_adjust(hours);
            },
            Action::ProgressRetire => {
                return self.retire();
            },
            Action::ProgressDeclareBegin => {
                if self.declare.is_none() && self.edit.is_none() {
                    self.declare = Some(Declare::Loading);
                    self.retire_armed = None;
                    return Outcome::call(Request::ListDomains);
                }
            },
            Action::ProgressDeclareReady(domains) => {
                if let Some(Declare::Loading) = self.declare {
                    self.declare = Some(Declare::Scope(Self::scope_picker(&domains)));
                }
            },
            Action::ProgressDeclareKey(key) => {
                return self.declare_key(key, hours);
            },
            Action::ProgressDeclareQueued(desc) => self.provisional.push(desc),
            _ => {},
        }
        Outcome::none()
    }

    /// What the flow and the hours edit make of a key: the flow owns every key,
    /// the edit those that spell hours.
    pub open spec fn intercepted(self, key: KeyEvent) -> Option<Action> {
        if self.declare is Some {
            Some(Action::ProgressDeclareKey(key))
        } else if self.edit is Some {
            match key.code {
                KeyCode::Esc => Some(Action::ProgressAdjustCancel),
                KeyCode::Enter => Some(Action::ProgressAdjustSubmit),
                KeyCode::Backspace => Some(Action::ProgressAdjustBackspace),
                KeyCode::Char(c) => if is_digit(c) || c == '.' {
                    Some(Action::ProgressAdjustInput(c))
                } else {
                    None
                },
                _ => None,
            }
        } else {
            None
        }
    }

    /// The flow and the hours edit own keys before the global keymap.
    pub fn intercept_key(&mut self, key: KeyEvent) -> (res: Option<Action>)
        ensures
            *final(self) == *old(self),
            res == old(self).intercepted(key),
    {
        if self.declare.is_some() {
            return Some(Action::ProgressDeclareKey(key));
        }
        if self.edit.is_none() {
            return None;
        }
        match key.code {
            KeyCode::Esc => Some(Action::ProgressAdjustCancel),
            KeyCode::Enter => Some(Action::ProgressAdjustSubmit),
            KeyCode::Backspace => Some(Action::ProgressAdjustBackspace),
            KeyCode::Char(c) => if digit_key(c) || c == '.' {
                Some(Action::ProgressAdjustInput(c))
            } else {
                None
            },
            _ => None,
        }
    }
}

// ---- what the panel says ----

/// The day of the week being lived; a closed week stays on its last day.
pub open spec fn day_offset(pace: Pace) -> int {
    if pace.elapsed_days < 6 {
        pace.elapsed_days as int
    } else {
        6
    }
}

/// The weekday being lived, in short; empty where the calendar ends first.
pub open spec fn weekday_text(pace: Pace) -> Seq<char> {
    match day_plus(pace.monday, day_offset(pace)) {
        Some(d) => lowercase_of(day_text_of(d, "%a"@)),
        None => Seq::empty(),
    }
}

/// The week's id, the day being lived and how much of the week is gone.
pub open spec fn header_text(pace: Pace) -> Seq<(Tone, Seq<char>)> {
    seq![
        (Tone::Header, pace.week@),
        (
            Tone::Muted,
            " · "@ + weekday_text(pace) + " · day "@ + decimal((day_offset(pace) + 1) as nat)
                + " of 7 · now = "@ + signed_decimal(pace.now_percent as int) + "%"@,
        ),
    ]
}

/// The week's id, the day being lived and how much of the week is gone.
pub fn week_header(pace: &Pace) -> (res: Line)
    ensures
        res@ == header_text(*pace),
{
    let offset: u32 = if pace.elapsed_days < 6 {
        pace.elapsed_days
    } else {
        6
    };
    let weekday = match add_days(pace.monday, offset as i64) {
        Some(d) => lowercase(day_text(d, "%a").as_str()),
        None => String::new(),
    };
    let day = show(offset as u64 + 1);
    let pct = show_signed(pace.now_percent);
    let head = cat5(" · ", weekday.as_str(), " · day ", day.as_str(), " of 7 · now = ");
    let text = cat3(head.as_str(), pct.as_str(), "%");
    Line::of(Tone::Header, pace.week.clone()).with(Tone::Muted, text)
}

/// The longest scope name.
pub open spec fn longest(targets: Seq<Reading>) -> nat
    decreases targets.len(),
{
    if targets.len() == 0 {
        0
    } else {
        let rest = longest(targets.drop_last());
        if targets.last().scope@.len() > rest {
            targets.last().scope@.len()
        } else {
            rest
        }
    }
}

/// The width of the labels: the longest name, between 6 and 20 columns.
pub open spec fn label_width(targets: Seq<Reading>) -> nat {
    let w = longest(targets);
    if w < 6 {
        6
    } else if w > 20 {
        20
    } else {
        w
    }
}

fn label_columns(targets: &Vec<Reading>) -> (res: usize)
    ensures
        res == label_width(targets@),
{
    let mut w: usize = 0;
    let mut i: usize = 0;
    while i < targets.len()
        invariant
            i <= targets.len(),
            w == longest(targets@.take(i as int)),
        decreases targets.len() - i,
    {
        proof {
            let here = targets@.take(i as int + 1);
            assert(here.drop_last() =~= targets@.take(i as int));
            assert(here.last() == targets@[i as int]);
        }
        let n: usize = targets[i].scope.as_str().unicode_len();
        if n > w {
            w = n;
        }
        i = i + 1;
    }
    assert(targets@.take(targets@.len() as int) =~= targets@);
    if w < 6 {
        6
    } else if w > 20 {
        20
    } else {
        w
    }
}

/// A meter row: the marker of the selected row, the label, the bar, the hours,
/// and the gap.
pub open spec fn meter_text(
    r: Reading,
    label_w: nat,
    selected: bool,
    bar: Seq<(Tone, Seq<char>)>,
) -> Seq<(Tone, Seq<char>)> {
    seq![
        (
            Tone::Accent,
            if selected {
                "▌ "@
            } else {
                "  "@
            },
        ),
        (Tone::Plain, fitted(lowercase_of(r.scope@), label_w) + "  "@),
    ] + bar + seq![
        (Tone::Plain, "  "@ + padded(r.actual@ + "/"@ + r.hours@ + "h"@, 8) + "  "@),
        if r.state == PaceState::Met {
            (Tone::Muted, "met"@)
        } else {
            (r.state.tone(), r.delta@ + "h "@ + r.state.word_text())
        },
    ]
}

/// A meter row. The bar is drawn by the shell.
pub fn meter_line(r: &Reading, label_w: usize, selected: bool, bar: &Line) -> (res: Line)
    ensures
        res@ == meter_text(*r, label_w as nat, selected, bar@),
{
    let name = lowercase(r.scope.as_str());
    let label = pad_or_truncate(name.as_str(), label_w);
    let marker = if selected {
        "▌ "
    } else {
        "  "
    };
    let nums = cat4(r.actual.as_str(), "/", r.hours.as_str(), "h");
    let nums = pad(nums.as_str(), 8);
    let head = Line::of(Tone::Accent, own(marker)).with(Tone::Plain, cat2(label.as_str(), "  "));
    let line = head.and(bar).with(Tone::Plain, cat3("  ", nums.as_str(), "  "));
    let line = match r.state {
        PaceState::Met => line.with(Tone::Muted, own("met")),
        _ => line.with(r.state.state_tone(), cat3(r.delta.as_str(), "h ", r.state.word())),
    };
    assert(line@ =~= meter_text(*r, label_w as nat, selected, bar@));
    line
}

/// The hours edit under the selected row.
pub open spec fn edit_text(r: Reading, buf: Seq<char>) -> Seq<(Tone, Seq<char>)> {
    seq![
        (Tone::Muted, "  adjust "@),
        (Tone::Plain, lowercase_of(r.scope@)),
        (Tone::Muted, " → "@),
        (Tone::Accent, buf + "█"@),
        (Tone::Muted, " h/wk  (⏎ save · Esc cancel)"@),
    ]
}

/// The hours edit under the selected row.
pub fn edit_line(r: &Reading, buf: &str) -> (res: Line)
    ensures
        res@ == edit_text(*r, buf@),
{
    let line = Line::of(Tone::Muted, own("  adjust ")).with(
        Tone::Plain,
        lowercase(r.scope.as_str()),
    ).with(Tone::Muted, own(" → ")).with(Tone::Accent, cat2(buf, "█")).with(
        Tone::Muted,
        own(" h/wk  (⏎ save · Esc cancel)"),
    );
    assert(line@ =~= edit_text(*r, buf@));
    line
}

/// The first target that is behind.
pub open spec fn worst(targets: Seq<Reading>, from: int) -> Option<int>
    decreases targets.len() - from,
{
    if from < 0 || from >= targets.len() {
        None
    } else if targets[from].state == PaceState::Behind {
        Some(from)
    } else {
        worst(targets, from + 1)
    }
}

/// How far behind the week is, naming the first target that is (they come
/// largest gap first), or that all are on pace.
pub open spec fn behind_text(pace: Pace) -> (Tone, Seq<char>) {
    match worst(pace.targets@, 0) {
        Some(i) => (
            Tone::Warn,
            "behind "@ + pace.behind_total@ + "h total · largest gap \""@ + lowercase_of(
                pace.targets@[i].scope@,
            ) + "\""@,
        ),
        None => (Tone::Success, "all targets on pace ✓"@),
    }
}

/// How far behind the week is.
pub fn behind_footer(pace: &Pace) -> (res: Line)
    ensures
        res@ == seq![behind_text(*pace)],
{
    let mut i: usize = 0;
    while i < pace.targets.len()
        invariant
            i <= pace.targets.len(),
            worst(pace.targets@, 0) == worst(pace.targets@, i as int),
        decreases pace.targets.len() - i,
    {
        if pace.targets[i].state == PaceState::Behind {
            let name = lowercase(pace.targets[i].scope.as_str());
            return Line::of(
                Tone::Warn,
                cat5(
                    "behind ",
                    pace.behind_total.as_str(),
                    "h total · largest gap \"",
                    name.as_str(),
                    "\"",
                ),
            );
        }
        i = i + 1;
    }
    Line::of(Tone::Success, own("all targets on pace ✓"))
}

/// The hours of each kind of work.
pub open spec fn mix(pace: Pace) -> Seq<Seq<char>> {
    pace.kind_mix@.map_values(|k: crate::model::KindHours| k.kind@ + " "@ + k.hours@ + "h"@)
}

/// Where the time went, cut one way. The read sums up by kind alone; the other
/// cuts say so.
pub open spec fn fold_text(pace: Pace, facet: Facet) -> Seq<(Tone, Seq<char>)> {
    seq![
        (Tone::Muted, "where it went · "@),
        (Tone::Accent, facet.label_text()),
        (Tone::Plain, "  "@),
        (
            Tone::Muted,
            match facet {
                Facet::Kind => if pace.kind_mix@.len() == 0 {
                    "nothing logged yet"@
                } else {
                    joined(mix(pace), " · "@)
                },
                Facet::Domain => "the pace read doesn't roll up by domain yet"@,
                Facet::Intent => "the pace read doesn't roll up by intent yet"@,
            },
        ),
    ]
}

/// Where the time went, cut one way.
pub fn fold_line(pace: &Pace, facet: Facet) -> (res: Line)
    ensures
        res@ == fold_text(*pace, facet),
{
    let body = match facet {
        Facet::Kind => if pace.kind_mix.len() == 0 {
            own("nothing logged yet")
        } else {
            let mut parts = no_texts();
            let mut i: usize = 0;
            while i < pace.kind_mix.len()
                invariant
                    i <= pace.kind_mix.len(),
                    texts(parts@) == mix(*pace).take(i as int),
                decreases pace.kind_mix.len() - i,
            {
                let k = &pace.kind_mix[i];
                push_text(&mut parts, cat4(k.kind.as_str(), " ", k.hours.as_str(), "h"));
                assert(texts(parts@) =~= mix(*pace).take(i as int + 1));
                i = i + 1;
            }
            assert(mix(*pace).take(pace.kind_mix@.len() as int) =~= mix(*pace));
            join(&parts, " · ")
        },
        Facet::Domain => own("the pace read doesn't roll up by domain yet"),
        Facet::Intent => own("the pace read doesn't roll up by intent yet"),
    };
    let line = Line::of(Tone::Muted, own("where it went · ")).with(
        Tone::Accent,
        own(facet.label()),
    ).with(Tone::Plain, own("  ")).with(Tone::Muted, body);
    assert(line@ =~= fold_text(*pace, facet));
    line
}

impl Progress {
    /// What stands under a meter row: on the selected row, the edit or the
    /// question whether to retire.
    pub open spec fn under(self, r: Reading, selected: bool) -> Seq<Seq<(Tone, Seq<char>)>> {
        if !selected {
            Seq::empty()
        } else if self.edit is Some {
            seq![edit_text(r, self.edit->0@)]
        } else if self.retire_armed == Some(r.id) {
            seq![
                seq![(Tone::Warn, "  retire this target? press x again — history is kept"@)],
            ]
        } else {
            Seq::empty()
        }
    }

    /// The first `n` meter rows, each with what stands under it.
    pub open spec fn meters(
        self,
        pace: Pace,
        bars: Seq<Seq<(Tone, Seq<char>)>>,
        n: int,
    ) -> Seq<Seq<(Tone, Seq<char>)>>
        decreases n,
    {
        if n <= 0 {
            Seq::empty()
        } else {
            let r = pace.targets@[n - 1];
            let sel = n - 1 == self.selected;
            self.meters(pace, bars, n - 1).push(
                meter_text(r, label_width(pace.targets@), sel, bars[n - 1]),
            ) + self.under(r, sel)
        }
    }

    /// What a week without targets teaches: the key first, then the command.
    pub open spec fn lesson() -> Seq<Seq<(Tone, Seq<char>)>> {
        seq![
            seq![(Tone::Muted, "No weekly targets yet."@)],
            seq![
                (Tone::Muted, "Press "@),
                (Tone::Accent, "n"@),
                (
                    Tone::Muted,
                    " to declare a weekly intent — a promise you keep from the terminal."@,
                ),
            ],
            seq![(Tone::Muted, "or headless: engineer target declare systems --hours 6"@)],
        ]
    }

    /// The targets that still wait in the queue.
    pub open spec fn waiting(self) -> Seq<Seq<(Tone, Seq<char>)>> {
        self.provisional@.map_values(
            |d: String|
                seq![(Tone::Accent, "  ◔ "@), (Tone::Plain, d@), (Tone::Muted, "  queued"@)],
        )
    }

    /// The panel's lines, with a bar for each target.
    pub open spec fn panel_page(self, bars: Seq<Seq<(Tone, Seq<char>)>>) -> Seq<
        Seq<(Tone, Seq<char>)>,
    > {
        match self.data {
            None => match self.error {
                Some(e) => seq![seq![(Tone::Danger, "could not load progress: "@ + e@)]],
                None => seq![seq![(Tone::Plain, "loading…"@)]],
            },
            Some(pace) => {
                seq![header_text(pace), Seq::empty()] + (if pace.targets@.len() == 0 {
                    Self::lesson()
                } else {
                    self.meters(pace, bars, pace.targets@.len() as int)
                }) + self.waiting() + seq![Seq::empty(), seq![behind_text(pace)]] + (if
                pace.targets@.len() > 0 || pace.kind_mix@.len() > 0 {
                    seq![fold_text(pace, self.fold)]
                } else {
                    Seq::empty()
                }) + (if pace.thin {
                    seq![
                        seq![
                            (
                                Tone::Muted,
                                "week is thin (< 3 activities) — too sparse to read a trend"@,
                            ),
                        ],
                    ]
                } else {
                    Seq::empty()
                })
            },
        }
    }

    fn push_meters(&self, lines: &mut Vec<Line>, pace: &Pace, bars: &Vec<Line>)
        requires
            bars@.len() == pace.targets@.len(),
        ensures
            page(final(lines)@) == page(old(lines)@) + self.meters(
                *pace,
                page(bars@),
                pace.targets@.len() as int,
            ),
    {
        let w: usize = label_columns(&pace.targets);
        let ghost start = page(lines@);
        let ghost tubes = page(bars@);
        let mut i: usize = 0;
        assert(start + self.meters(*pace, tubes, 0) =~= start);
        while i < pace.targets.len()
            invariant
                i <= pace.targets.len(),
                bars@.len() == pace.targets@.len(),
                w == label_width(pace.targets@),
                tubes == page(bars@),
                page(lines@) == start + self.meters(*pace, tubes, i as int),
            decreases pace.targets.len() - i,
        {
            let r = &pace.targets[i];
            let sel = i == self.selected;
            let ghost before = page(lines@);
            push_line(lines, meter_line(r, w, sel, &bars[i]));
            if sel {
                if let Some(buf) = &self.edit {
                    push_line(lines, edit_line(r, buf.as_str()));
                } else if let Some(id) = self.retire_armed {
                    if id == r.id {
                        push_line(
                            lines,
                            Line::of(
                                Tone::Warn,
                                own("  retire this target? press x again — history is kept"),
                            ),
                        );
                    }
                }
            }
            i = i + 1;
            assert(page(lines@) =~= start + self.meters(*pace, tubes, i as int));
        }
    }

    fn push_lesson(lines: &mut Vec<Line>)
        ensures
            page(final(lines)@) == page(old(lines)@) + Self::lesson(),
    {
        push_line(lines, Line::of(Tone::Muted, own("No weekly targets yet.")));
        push_line(
            lines,
            Line::of(Tone::Muted, own("Press ")).with(Tone::Accent, own("n")).with(
                Tone::Muted,
                own(" to declare a weekly intent — a promise you keep from the terminal."),
            ),
        );
        push_line(
            lines,
            Line::of(
                Tone::Muted,
                own("or headless: engineer target declare systems --hours 6"),
            ),
        );
        assert(page(lines@) =~~= page(old(lines)@) + Self::lesson());
    }

    fn push_waiting(&self, lines: &mut Vec<Line>)
        ensures
            page(final(lines)@) == page(old(lines)@) + self.waiting(),
    {
        let ghost start = page(lines@);
        let mut i: usize = 0;
        assert(start + self.waiting().take(0) =~= start);
        while i < self.provisional.len()
            invariant
                i <= self.provisional.len(),
                page(lines@) == start + self.waiting().take(i as int),
            decreases self.provisional.len() - i,
        {
            let line = Line::of(Tone::Accent, own("  ◔ ")).with(
                Tone::Plain,
                self.provisional[i].clone(),
            ).with(Tone::Muted, own("  queued"));
            assert(line@ =~= self.waiting()[i as int]);
            push_line(lines, line);
            i = i + 1;
            assert(page(lines@) =~= start + self.waiting().take(i as int));
        }
        assert(self.waiting().take(self.provisional@.len() as int) =~= self.waiting());
    }

    /// The panel's lines, with a bar for each target.
    pub fn panel_lines(&self, bars: &Vec<Line>) -> (res: Vec<Line>)
        requires
            self.data matches Some(d) ==> bars@.len() == d.targets@.len(),
        ensures
            page(res@) == self.panel_page(page(bars@)),
    {
        let mut lines = no_lines();
        match &self.data {
            None => match &self.error {
                Some(e) => push_line(
                    &mut lines,
                    Line::of(Tone::Danger, cat2("could not load progress: ", e.as_str())),
                ),
                None => push_line(&mut lines, Line::of(Tone::Plain, own("loading…"))),
            },
            Some(pace) => {
                push_line(&mut lines, week_header(pace));
                push_line(&mut lines, Line::empty());
                if pace.targets.len() == 0 {
                    Self::push_lesson(&mut lines);
                } else {
                    self.push_meters(&mut lines, pace, bars);
                }
                self.push_waiting(&mut lines);
                push_line(&mut lines, Line::empty());
                push_line(&mut lines, behind_footer(pace));
                if pace.targets.len() > 0 || pace.kind_mix.len() > 0 {
                    push_line(&mut lines, fold_line(pace, self.fold));
                }
                if pace.thin {
                    push_line(
                        &mut lines,
                        Line::of(
                            Tone::Muted,
                            own("week is thin (< 3 activities) — too sparse to read a trend"),
                        ),
                    );
                }
            },
        }
        assert(page(lines@) =~= self.panel_page(page(bars@)));
        lines
    }

    /// The box of the flow's own stages: its title and its text. The scope stage
    /// shows its picker instead.
    pub open spec fn overlay_text(self) -> Option<(Seq<char>, (Tone, Seq<char>))> {
        match self.declare {
            Some(Declare::Loading) => Some(
                ("declare a target"@, (Tone::Muted, "loading domains…"@)),
            ),
            Some(Declare::Hours { scope: _, label, buf, picker: _ }) => Some(
                (
                    "declare a target — hours"@,
                    (
                        Tone::Plain,
                        label@ + "  →  "@ + buf@ + "█ h/wk   (⏎ declare · Esc back)"@,
                    ),
                ),
            ),
            _ => None,
        }
    }

    /// The box of the flow's own stages.
    pub fn overlay(&self) -> (res: Option<(&'static str, Line)>)
        ensures
            match self.overlay_text() {
                Some(t) => res is Some && (res->0).0@ == t.0 && (res->0).1@ == seq![t.1],
                None => res is None,
            },
    {
        match &self.declare {
            Some(Declare::Loading) => Some(
                ("declare a target", Line::of(Tone::Muted, own("loading domains…"))),
            ),
            Some(Declare::Hours { scope: _, label, buf, picker: _ }) => Some(
                (
                    "declare a target — hours",
                    Line::of(
                        Tone::Plain,
                        cat4(
                            label.as_str(),
                            "  →  ",
                            buf.as_str(),
                            "█ h/wk   (⏎ declare · Esc back)",
                        ),
                    ),
                ),
            ),
            _ => None,
        }
    }

    /// What the footer offers.
    pub open spec fn offered(self, f: Footer) -> bool {
        if self.declare is Some {
            if self.declare->0 is Scope {
                f.reads(Tone::Muted, "type to filter · ↑/↓ or ^n/^p move · ⏎ pick · Esc cancel"@)
            } else {
                f.reads(Tone::Muted, "enter weekly hours · ⏎ declare · Esc back"@)
            }
        } else if self.edit is Some {
            f.offers(seq![("⏎", "save"), ("Esc", "cancel")])
        } else {
            f.offers(
                seq![
                    ("j/k", "select"),
                    ("n", "new"),
                    ("e", "adjust"),
                    ("x", "retire"),
                    ("⇥", "where it went"),
                    ("[", "prev wk"),
                    ("]", "next wk"),
                    ("t", "this wk"),
                    ("a", "audit"),
                    ("h", "home"),
                ],
            )
        }
    }

    /// What the footer offers.
    pub fn hints(&self) -> (res: Footer)
        ensures
            self.offered(res),
    {
        if let Some(d) = &self.declare {
            return match d {
                Declare::Scope(_) => Footer::Text(
                    Line::of(
                        Tone::Muted,
                        own("type to filter · ↑/↓ or ^n/^p move · ⏎ pick · Esc cancel"),
                    ),
                ),
                _ => Footer::Text(
                    Line::of(Tone::Muted, own("enter weekly hours · ⏎ declare · Esc back")),
                ),
            };
        }
        if self.edit.is_some() {
            return Footer::Keys(vec![("⏎", "save"), ("Esc", "cancel")]);
        }
        Footer::Keys(
            vec![
                ("j/k", "select"),
                ("n", "new"),
                ("e", "adjust"),
                ("x", "retire"),
                ("⇥", "where it went"),
                ("[", "prev wk"),
                ("]", "next wk"),
                ("t", "this wk"),
                ("a", "audit"),
                ("h", "home"),
            ],
        )
    }
}

/// The width of the flow's box: six columns less than there are, between 24 and
/// 64.
pub open spec fn overlay_width(width: int) -> int {
    if width - 6 < 24 {
        24
    } else if width - 6 > 64 {
        64
    } else {
        width - 6
    }
}

/// The rectangle of the flow's box: three lines below the middle.
pub fn overlay_area(area: Area) -> (res: Area)
    requires
        area.wf(),
    ensures
        res.width == overlay_width(area.width as int),
        res.height == 3,
        res.y == area.y + area.height / 2,
        res.x == area.x + (if area.width > res.width {
            (area.width - res.width) / 2
        } else {
            0
        }),
{
    let width: u16 = if area.width < 30 {
        24
    } else if area.width > 70 {
        64
    } else {
        area.width - 6
    };
    let left: u16 = if area.width > width {
        (area.width - width) / 2
    } else {
        0
    };
    Area { x: area.x + left, y: area.y + area.height / 2, width, height: 3 }
}

// ---- what the calls answer ----

/// What the read of a week sends back.
pub fn pace_read(reply: Result<Box<Pace>, Fault>) -> (res: Vec<Action>)
    ensures
        match reply {
            Ok(pace) => res@ == seq![Action::ProgressLoaded(pace)],
            Err(e) => {
                &&& res@.len() == 2
                &&& notifies(res@[0], Level::Error, "progress load failed: "@ + e.shown@)
                &&& res@[1] == Action::ProgressLoadFailed(e.shown)
            },
        },
{
    match reply {
        Ok(pace) => one(Action::ProgressLoaded(pace)),
        Err(e) => {
            let text = cat2("progress load failed: ", e.shown.as_str());
            two(notice(Level::Error, text), Action::ProgressLoadFailed(e.shown))
        },
    }
}

/// What the read of the domains sends back: a failure is no bar to declaring a
/// kind or an intent.
pub fn domains_read(reply: Result<Vec<Domain>, Fault>) -> (res: Action)
    ensures
        match reply {
            Ok(domains) => res == Action::ProgressDeclareReady(domains),
            Err(_) => res matches Action::ProgressDeclareReady(d) && d@ == Seq::<Domain>::empty(),
        },
{
    match reply {
        Ok(domains) => Action::ProgressDeclareReady(domains),
        Err(_) => Action::ProgressDeclareReady(Vec::new()),
    }
}

/// Whether a write met a version of the target that is closed.
pub open spec fn version_closed(fault: Fault) -> bool {
    fault.kind matches FaultKind::Problem { status: _, title: _, detail: _, code: Some(c) } && c@
        == "target-version-closed"@
}

fn is_version_closed(fault: &Fault) -> (res: bool)
    ensures
        res == version_closed(*fault),
{
    match &fault.kind {
        FaultKind::Problem { status: _, title: _, detail: _, code } => match code {
            Some(c) => same(c.as_str(), "target-version-closed"),
            None => false,
        },
        _ => false,
    }
}

/// What a failed target write sends back: a closed version is no error but a
/// soft re-read, anything else is.
pub open spec fn write_failed(fault: Fault, context: Seq<char>, res: Seq<Action>) -> bool {
    if version_closed(fault) {
        &&& res.len() == 2
        &&& notifies(res[0], Level::Warning, moved_on())
        &&& res[1] == Action::RefreshProgress
    } else {
        &&& res.len() == 1
        &&& notifies(res[0], Level::Error, context + ": "@ + fault.shown@)
    }
}

/// What a failed target write sends back.
pub fn target_write_error(context: &str, fault: Fault) -> (res: Vec<Action>)
    ensures
        write_failed(fault, context@, res@),
{
    if is_version_closed(&fault) {
        two(
            notice(Level::Warning, own("this target moved on — re-fetching the live pace")),
            Action::RefreshProgress,
        )
    } else {
        one(notice(Level::Error, cat3(context, ": ", fault.shown.as_str())))
    }
}

/// The line of a target that waits in the queue.
pub open spec fn queued_text(scope_name: Seq<char>, hours: Seq<char>) -> Seq<char> {
    scope_name + " · "@ + hours + "h/wk"@
}

/// What a declared target sends back. `hours` is the hours declared, as shown.
pub fn target_declared(
    reply: WriteReply<DeclaredTarget>,
    scope_name: String,
    hours: String,
) -> (res: Vec<Action>)
    ensures
        match reply {
            WriteReply::Confirmed(t) => {
                &&& res@.len() == 2
                &&& notifies(
                    res@[0],
                    Level::Success,
                    "declared "@ + t.scope@ + " · "@ + t.hours@ + "h/wk"@,
                )
                &&& res@[1] == Action::RefreshProgress
            },
            WriteReply::Provisional(_) => {
                &&& res@.len() == 2
                &&& res@[0] matches Action::ProgressDeclareQueued(d) && d@ == queued_text(
                    scope_name@,
                    hours@,
                )
                &&& notifies(res@[1], Level::Info, "declared · queued (offline) — will sync"@)
            },
            WriteReply::Failed(e) => write_failed(e, "declare failed"@, res@),
        },
{
    match reply {
        WriteReply::Confirmed(t) => two(
            notice(
                Level::Success,
                cat5("declared ", t.scope.as_str(), " · ", t.hours.as_str(), "h/wk"),
            ),
            Action::RefreshProgress,
        ),
        WriteReply::Provisional(_) => two(
            Action::ProgressDeclareQueued(
                cat4(scope_name.as_str(), " · ", hours.as_str(), "h/wk"),
            ),
            notice(Level::Info, own("declared · queued (offline) — will sync")),
        ),
        WriteReply::Failed(e) => target_write_error("declare failed", e),
    }
}

/// What an adjusted target sends back.
pub fn target_adjusted(reply: WriteReply<DeclaredTarget>) -> (res: Vec<Action>)
    ensures
        match reply {
            WriteReply::Confirmed(t) => {
                &&& res@.len() == 2
                &&& notifies(res@[0], Level::Success, "target → "@ + t.hours@ + "h/wk"@)
                &&& res@[1] == Action::RefreshProgress
            },
            WriteReply::Provisional(_) => {
                &&& res@.len() == 1
                &&& notifies(res@[0], Level::Info, "adjusted · queued (offline) — will sync"@)
            },
            WriteReply::Failed(e) => write_failed(e, "adjust failed"@, res@),
        },
{
    match reply {
        WriteReply::Confirmed(t) => two(
            notice(Level::Success, cat3("target → ", t.hours.as_str(), "h/wk")),
            Action::RefreshProgress,
        ),
        WriteReply::Provisional(_) => one(
            notice(Level::Info, own("adjusted · queued (offline) — will sync")),
        ),
        WriteReply::Failed(e) => target_write_error("adjust failed", e),
    }
}

/// What a retired target sends back.
pub fn target_retired(reply: WriteReply<DeclaredTarget>) -> (res: Vec<Action>)
    ensures
        match reply {
            WriteReply::Confirmed(_) => {
                &&& res@.len() == 2
                &&& notifies(res@[0], Level::Success, "target retired — history kept"@)
                &&& res@[1] == Action::RefreshProgress
            },
            WriteReply::Provisional(_) => {
                &&& res@.len() == 1
                &&& notifies(res@[0], Level::Info, "retired · queued (offline) — will sync"@)
            },
            WriteReply::Failed(e) => write_failed(e, "retire failed"@, res@),
        },
{
    match reply {
        WriteReply::Confirmed(_) => two(
            notice(Level::Success, own("target retired — history kept")),
            Action::RefreshProgress,
        ),
        WriteReply::Provisional(_) => one(
            notice(Level::Info, own("retired · queued (offline) — will sync")),
        ),
        WriteReply::Failed(e) => target_write_error("retire failed", e),
    }
}

// ---- laws ----

/// The fold goes round: three steps bring it back, and no fewer.
pub proof fn the_fold_goes_round(f: Facet)
    ensures
        f.after() != f,
        f.after().after() != f,
        f.after().after().after() == f,
{
}

/// A target is retired on the second press in a row, and never on the first.
pub proof fn retiring_takes_two_presses(
    a: Progress,
    b: Progress,
    c: Progress,
    x: Outcome,
    y: Outcome,
    r: Reading,
)
    requires
        a.chosen() == Some(r),
        a.retire_armed != Some(r.id),
        Progress::handled(a, Action::ProgressRetire, None, b, x),
        Progress::handled(b, Action::ProgressRetire, None, c, y),
    ensures
        x.effects@.len() == 0,
        b.retire_armed == Some(r.id),
        y.asks(seq![Effect::Call(Request::RetireTarget { id: r.id })]),
        c.retire_armed is None,
{
}

/// Moving the cursor between two presses takes the first one back.
pub proof fn moving_disarms(a: Progress, d: i32, b: Progress, c: Progress, x: Outcome, y: Outcome)
    requires
        Progress::handled(a, Action::ProgressSelectMove(d), None, b, x),
        Progress::handled(b, Action::ProgressRetire, None, c, y),
    ensures
        y.effects@.len() == 0,
{
}

/// A step out of the hours and back into them loses nothing of the pick.
pub proof fn stepping_back_keeps_the_picker(
    a: Progress,
    b: Progress,
    c: Progress,
    x: Outcome,
    y: Outcome,
    enter: KeyEvent,
    esc: KeyEvent,
    picker: Picker<TargetScope>,
)
    requires
        a.declare == Some(Declare::Scope(picker)),
        picker.chosen() is Some,
        enter.code == KeyCode::Enter,
        esc.code == KeyCode::Esc,
        Progress::handled(a, Action::ProgressDeclareKey(enter), None, b, x),
        Progress::handled(b, Action::ProgressDeclareKey(esc), None, c, y),
    ensures
        b.declare matches Some(Declare::Hours { scope, .. }) && scope == picker.chosen()->0.value,
        c == a,
{
}

/// Hours that spell no positive number keep the prompt open and write nothing.
pub proof fn only_positive_hours_are_declared(
    pre: Progress,
    key: KeyEvent,
    hours: Option<u64>,
    post: Progress,
    out: Outcome,
)
    requires
        pre.declare is Some,
        pre.declare->0 is Hours,
        key.code == KeyCode::Enter,
        !(hours is Some && positive(hours->0)),
        Progress::handled(pre, Action::ProgressDeclareKey(key), hours, post, out),
    ensures
        post == pre,
        out.quiet(),
{
}

/// A fresh reading, or another week, supersedes what was declared offline.
pub proof fn a_reading_supersedes_the_stand_ins(
    pre: Progress,
    action: Action,
    post: Progress,
    out: Outcome,
)
    requires
        action is ProgressLoaded || action is ProgressWeekStep,
        Progress::handled(pre, action, None, post, out),
    ensures
        post.provisional@.len() == 0,
{
}

/// A step of weeks and its opposite come back to the same week.
pub proof fn week_steps_undo(
    a: Progress,
    d: i32,
    b: Progress,
    c: Progress,
    x: Outcome,
    y: Outcome,
    e: i32,
)
    requires
        a.wf(),
        a.admits(Action::ProgressWeekStep(d)),
        e == -d,
        Progress::handled(a, Action::ProgressWeekStep(d), None, b, x),
        Progress::handled(b, Action::ProgressWeekStep(e), None, c, y),
    ensures
        c.offset == a.offset,
        y.asks(seq![Effect::Call(Request::LoadProgress { offset: a.offset })]),
{
}

/// A write that met a closed version reads the week again, and reports no error.
pub proof fn a_closed_version_is_a_soft_reread(fault: Fault, context: Seq<char>, res: Seq<Action>)
    requires
        version_closed(fault),
        write_failed(fault, context, res),
    ensures
        notifies(res[0], Level::Warning, moved_on()),
        res[1] == Action::RefreshProgress,
{
}

/// An adjustment goes to the target under the cursor, whichever row that is, with
/// the hours that were typed: exactly one call.
pub proof fn an_adjustment_goes_to_the_selected_target(
    pre: Progress,
    hours: u64,
    post: Progress,
    out: Outcome,
)
    requires
        pre.data is Some,
        pre.selected < pre.data->0.targets@.len(),
        pre.edit is Some,
        1 <= hours <= 0x7ff0_0000_0000_0000,
        Progress::handled(pre, Action::ProgressAdjustSubmit, Some(hours), post, out),
    ensures
        out.note is None,
        out.effects@ == seq![
            Effect::Call(
                Request::AdjustTarget {
                    id: pre.data->0.targets@[pre.selected as int].id,
                    hours,
                },
            ),
        ],
        post.edit is None,
        post.data == pre.data,
        post.selected == pre.selected,
{
}

/// Hours that spell no positive number adjust nothing: the user is told.
pub proof fn only_positive_hours_adjust(
    pre: Progress,
    hours: Option<u64>,
    post: Progress,
    out: Outcome,
)
    requires
        hours is None || hours->0 == 0 || hours->0 > 0x7ff0_0000_0000_0000,
        Progress::handled(pre, Action::ProgressAdjustSubmit, hours, post, out),
    ensures
        out.effects@.len() == 0,
        pre.data is Some && pre.selected < pre.data->0.targets@.len() ==> out.note is Some && (
        out.note->0).0 == Level::Warning,
        post.edit is None,
{
}

/// What is typed into the edit stands behind what was there, and which target it is
/// for does not change.
pub proof fn typing_words_the_hours(
    states: Seq<Progress>,
    typed: Seq<char>,
    outs: Seq<Outcome>,
    n: int,
)
    requires
        0 <= n <= typed.len(),
        states.len() == typed.len() + 1,
        states[0].edit is Some,
        forall|i: int|
            #![trigger states[i]]
            0 <= i < typed.len() ==> Progress::handled(
                states[i],
                Action::ProgressAdjustInput(typed[i]),
                None,
                states[i + 1],
                outs[i],
            ),
    ensures
        states[n].edit is Some,
        states[n].edit->0@ == states[0].edit->0@ + typed.take(n),
        states[n].data == states[0].data,
        states[n].selected == states[0].selected,
    decreases n,
{
    if n > 0 {
        typing_words_the_hours(states, typed, outs, n - 1);
        assert(Progress::handled(
            states[n - 1],
            Action::ProgressAdjustInput(typed[n - 1]),
            None,
            states[n],
            outs[n - 1],
        ));
        assert(typed.take(n) =~= typed.take(n - 1).push(typed[n - 1]));
        assert(states[n].edit->0@ =~= states[0].edit->0@ + typed.take(n));
    } else {
        assert(states[0].edit->0@ + typed.take(0) =~= states[0].edit->0@);
    }
}

/// Move to a target, begin an adjustment, type, submit: the edit opens with that
/// target's hours, and that same target is the one written to.
pub proof fn an_adjustment_writes_to_the_target_it_opened_with(
    a: Progress,
    d: i32,
    b: Progress,
    states: Seq<Progress>,
    typed: Seq<char>,
    outs: Seq<Outcome>,
    moved: Outcome,
    begun: Outcome,
    hours: u64,
    post: Progress,
    out: Outcome,
)
    requires
        a.data is Some,
        0 <= a.selected + d < a.data->0.targets@.len() <= usize::MAX,
        Progress::handled(a, Action::ProgressSelectMove(d), None, b, moved),
        Progress::handled(b, Action::ProgressAdjustBegin, None, states[0], begun),
        states.len() == typed.len() + 1,
        forall|i: int|
            #![trigger states[i]]
            0 <= i < typed.len() ==> Progress::handled(
                states[i],
                Action::ProgressAdjustInput(typed[i]),
                None,
                states[i + 1],
                outs[i],
            ),
        1 <= hours <= 0x7ff0_0000_0000_0000,
        Progress::handled(states.last(), Action::ProgressAdjustSubmit, Some(hours), post, out),
    ensures
        states[0].edit is Some,
        states[0].edit->0 == a.data->0.targets@[a.selected + d].hours,
        states.last().edit->0@ == a.data->0.targets@[a.selected + d].hours@ + typed,
        out.effects@ == seq![
            Effect::Call(
                Request::AdjustTarget { id: a.data->0.targets@[a.selected + d].id, hours },
            ),
        ],
{
    typing_words_the_hours(states, typed, outs, typed.len() as int);
    assert(typed.take(typed.len() as int) =~= typed);
}

/// Retiring goes to the target under the cursor: the first press arms that target,
/// the second one, with nothing between, asks for exactly its retirement.
pub proof fn retiring_goes_to_the_selected_target(
    a: Progress,
    b: Progress,
    c: Progress,
    x: Outcome,
    y: Outcome,
)
    requires
        a.data is Some,
        a.selected < a.data->0.targets@.len(),
        a.retire_armed is None,
        Progress::handled(a, Action::ProgressRetire, None, b, x),
        Progress::handled(b, Action::ProgressRetire, None, c, y),
    ensures
        x.effects@.len() == 0,
        x.note is Some,
        b.retire_armed == Some(a.data->0.targets@[a.selected as int].id),
        y.effects@ == seq![
            Effect::Call(
                Request::RetireTarget { id: a.data->0.targets@[a.selected as int].id },
            ),
        ],
        c == a,
{
}

/// A target armed for retiring is not retired by a press on another one.
pub proof fn another_target_is_armed_anew(pre: Progress, post: Progress, out: Outcome)
    requires
        pre.data is Some,
        pre.selected < pre.data->0.targets@.len(),
        pre.retire_armed != Some(pre.data->0.targets@[pre.selected as int].id),
        Progress::handled(pre, Action::ProgressRetire, None, post, out),
    ensures
        out.effects@.len() == 0,
        post.retire_armed == Some(pre.data->0.targets@[pre.selected as int].id),
{
}

/// A step lands on the target that far away, or on an end of the list, and disarms.
pub proof fn a_step_walks_the_targets(pre: Progress, d: i32, post: Progress, out: Outcome)
    requires
        pre.data is Some,
        pre.selected < pre.data->0.targets@.len() <= usize::MAX,
        Progress::handled(pre, Action::ProgressSelectMove(d), None, post, out),
    ensures
        0 <= pre.selected + d < pre.data->0.targets@.len() ==> post.selected == pre.selected + d,
        pre.selected + d < 0 ==> post.selected == 0,
        pre.selected + d >= pre.data->0.targets@.len() ==> post.selected
            == pre.data->0.targets@.len() - 1,
        post.retire_armed is None,
        post.data == pre.data,
        post.edit == pre.edit,
        out.effects@.len() == 0,
{
}

/// A week step asks for the week that far away and shows that it is on its way; a
/// reset asks for the current week, and a refresh for the week on display.
pub proof fn the_week_asked_for(pre: Progress, action: Action, post: Progress, out: Outcome)
    requires
        pre.wf(),
        pre.admits(action),
        Progress::handled(pre, action, None, post, out),
    ensures
        action matches Action::ProgressWeekStep(d) ==> post.offset == pre.offset + d
            && out.effects@.len() == 1 && (out.effects@[0] matches Effect::Call(
            Request::LoadProgress { offset },
        ) && offset == pre.offset + d),
        action is ProgressWeekReset && pre.offset != 0 ==> post.offset == 0 && out.effects@
            == seq![Effect::Call(Request::LoadProgress { offset: 0 })],
        action is ProgressWeekReset && pre.offset == 0 ==> post == pre && out.effects@.len() == 0,
        action is RefreshProgress ==> post.offset == pre.offset && out.effects@ == seq![
            Effect::Call(Request::LoadProgress { offset: pre.offset }),
        ],
{
}

/// A reading that came in is shown as it came, the cursor on one of its targets.
pub proof fn a_reading_is_shown_as_it_came(
    pre: Progress,
    pace: Box<Pace>,
    post: Progress,
    out: Outcome,
)
    requires
        pace.targets@.len() <= usize::MAX,
        Progress::handled(pre, Action::ProgressLoaded(pace), None, post, out),
    ensures
        post.data == Some(*pace),
        post.error is None,
        !post.loading,
        post.retire_armed is None,
        pace.targets@.len() > 0 ==> post.selected < pace.targets@.len(),
        pre.selected < pace.targets@.len() ==> post.selected == pre.selected,
        post.offset == pre.offset,
        out.effects@.len() == 0,
{
}

/// A failed reading is kept in words, and the reading before it stays.
pub proof fn a_failed_reading_keeps_the_last_one(
    pre: Progress,
    e: String,
    post: Progress,
    out: Outcome,
)
    requires
        Progress::handled(pre, Action::ProgressLoadFailed(e), None, post, out),
    ensures
        post.data == pre.data,
        post.error == Some(e),
        !post.loading,
{
}

/// Declaring asks for the domains first, and then offers every domain that was read,
/// each under its own name and standing for itself.
pub proof fn every_domain_is_on_offer(
    a: Progress,
    b: Progress,
    domains: Vec<Domain>,
    c: Progress,
    x: Outcome,
    y: Outcome,
    i: int,
)
    requires
        a.declare is None,
        a.edit is None,
        Progress::handled(a, Action::ProgressDeclareBegin, None, b, x),
        Progress::handled(b, Action::ProgressDeclareReady(domains), None, c, y),
        0 <= i < domains@.len(),
    ensures
        x.effects@ == seq![Effect::Call(Request::ListDomains)],
        c.declare matches Some(Declare::Scope(p)) && p.items@.len() == domains@.len() + 11
            && p.items@[i].label@ == "domain · "@ + domains@[i].name@ && p.items@[i].value
            == TargetScope::Domain(domains@[i].id) && p.query@.len() == 0 && p.cursor == 0,
{
    let p = c.declare->0->Scope_0;
    let all = scopes(domains@);
    assert(all.len() == domains@.len() + 11);
    assert(scope_items(p.items@).len() == p.items@.len());
    assert(scope_items(p.items@) == all);
    assert(scope_items(p.items@)[i] == (p.items@[i].label@, scope_model(p.items@[i].value)));
    assert(all[i] == ("domain · "@ + domains@[i].name@, ScopeModel::Domain(
        domains@[i].id as int,
    )));
}

/// `Enter` on a scope takes the one under the cursor and asks for its hours; `Enter`
/// on positive hours then declares exactly that scope with those hours.
pub proof fn a_declared_target_is_the_scope_that_was_picked(
    a: Progress,
    p: Picker<TargetScope>,
    key: KeyEvent,
    b: Progress,
    x: Outcome,
    hours: u64,
    c: Progress,
    y: Outcome,
)
    requires
        a.declare == Some(Declare::Scope(p)),
        p.cursor < p.shown().len(),
        key.code == KeyCode::Enter,
        1 <= hours <= 0x7ff0_0000_0000_0000,
        Progress::handled(a, Action::ProgressDeclareKey(key), None, b, x),
        Progress::handled(b, Action::ProgressDeclareKey(key), Some(hours), c, y),
    ensures
        x.effects@.len() == 0,
        b.declare matches Some(Declare::Hours { scope, label, buf, picker }) && scope
            == p.shown()[p.cursor as int].value && label == p.shown()[p.cursor as int].label
            && buf@.len() == 0 && picker == p,
        y.effects@.len() == 1,
        y.effects@[0] matches Effect::Call(Request::DeclareTarget { scope, hours: h, .. }) && scope
            == p.shown()[p.cursor as int].value && h == hours,
        c.declare is None,
        c.data == a.data,
{
}

/// While the hours are typed, digits and the point go in, a backspace takes the last
/// one back, and the scope stays the one that was picked.
pub proof fn the_hours_take_digits(
    pre: Progress,
    key: KeyEvent,
    hours: Option<u64>,
    post: Progress,
    out: Outcome,
)
    requires
        pre.declare is Some,
        pre.declare->0 is Hours,
        key.code != KeyCode::Enter,
        key.code != KeyCode::Esc,
        Progress::handled(pre, Action::ProgressDeclareKey(key), hours, post, out),
    ensures
        post.declare is Some,
        post.declare->0 is Hours,
        post.declare->0->scope == pre.declare->0->scope,
        post.declare->0->label == pre.declare->0->label,
        key.code matches KeyCode::Char(c) && ('0' <= c <= '9' || c == '.')
            ==> post.declare->0->buf@ == pre.declare->0->buf@.push(key.code->0),
        key.code matches KeyCode::Char(c) && !('0' <= c <= '9' || c == '.')
            ==> post.declare->0->buf@ == pre.declare->0->buf@,
        key.code == KeyCode::Backspace && pre.declare->0->buf@.len() > 0
            ==> post.declare->0->buf@ == pre.declare->0->buf@.drop_last(),
        out.effects@.len() == 0,
{
}

/// A stand-in for a target declared offline is added behind the others.
pub proof fn a_stand_in_is_added(pre: Progress, line: String, post: Progress, out: Outcome)
    requires
        Progress::handled(pre, Action::ProgressDeclareQueued(line), None, post, out),
    ensures
        post.provisional@.len() == pre.provisional@.len() + 1,
        post.provisional@.last() == line,
        forall|i: int|
            0 <= i < pre.provisional@.len() ==> post.provisional@[i] == #[trigger] pre.provisional@[i],
{
}

/// While an edit is open its keys are its own: digits and the point are typed,
/// `Enter` submits, `Esc` drops it, and a submit reads the hours that stand in it.
pub proof fn the_edit_has_its_keys(s: Progress, key: KeyEvent)
    requires
        s.declare is None,
        s.edit is Some,
    ensures
        key.code matches KeyCode::Char(c) && ('0' <= c <= '9' || c == '.') ==> s.intercepted(key)
            == Some(Action::ProgressAdjustInput(key.code->0)),
        key.code == KeyCode::Enter ==> s.intercepted(key) == Some(Action::ProgressAdjustSubmit),
        key.code == KeyCode::Esc ==> s.intercepted(key) == Some(Action::ProgressAdjustCancel),
        key.code == KeyCode::Backspace ==> s.intercepted(key) == Some(
            Action::ProgressAdjustBackspace,
        ),
        s.hours_read(Action::ProgressAdjustSubmit) == Some(s.edit->0@),
{
}

/// What became of a target write is said: a success where the server has it, a note where
/// it waits, an error or a soft re-read otherwise. A write that the server has reads the
/// pace again; one that waits does not.
pub proof fn how_a_target_write_is_answered(
    reply: WriteReply<DeclaredTarget>,
    adjusted: Vec<Action>,
    retired: Vec<Action>,
    name: String,
    hours: String,
    declared: Vec<Action>,
)
    requires
        call_ensures(target_adjusted, (reply,), adjusted),
        call_ensures(target_retired, (reply,), retired),
        call_ensures(target_declared, (reply, name, hours), declared),
    ensures
        reply is Confirmed ==> adjusted@.len() == 2 && retired@.len() == 2 && declared@.len() == 2
            && adjusted@[1] is RefreshProgress && retired@[1] is RefreshProgress && declared@[1]
            is RefreshProgress && (adjusted@[0] matches Action::Notify { level, .. } && level
            == Level::Success) && (retired@[0] matches Action::Notify { level, .. } && level
            == Level::Success) && (declared@[0] matches Action::Notify { level, .. } && level
            == Level::Success),
        reply is Provisional ==> adjusted@.len() == 1 && retired@.len() == 1 && declared@.len() == 2
            && declared@[0] is ProgressDeclareQueued && (
        declared@[1] matches Action::Notify { level, .. } && level == Level::Info),
{
}

/// A target declared offline stands in the list under its scope and its hours.
pub proof fn a_declared_stand_in_names_its_target(
    reply: DeclaredTarget,
    name: String,
    hours: String,
    sent: Vec<Action>,
    pre: Progress,
    post: Progress,
    out: Outcome,
)
    requires
        call_ensures(target_declared, (WriteReply::Provisional(reply), name, hours), sent),
        Progress::handled(pre, sent@[0], None, post, out),
    ensures
        post.provisional@.len() == pre.provisional@.len() + 1,
        post.provisional@.last()@ == name@ + " · "@ + hours@ + "h/wk"@,
{
}

/// The fold goes from the kinds to the domains to the intents.
pub proof fn the_folds_in_order(pre: Progress, post: Progress, out: Outcome)
    requires
        Progress::handled(pre, Action::ProgressFoldCycle, None, post, out),
    ensures
        pre.fold == Facet::Kind ==> post.fold == Facet::Domain,
        pre.fold == Facet::Domain ==> post.fold == Facet::Intent,
        pre.fold == Facet::Intent ==> post.fold == Facet::Kind,
        post == (Progress { fold: post.fold, ..pre }),
        out.effects@.len() == 0,
{
}

/// A meter shows its own target: the scope, the hours done of those promised, and how it
/// stands.
pub proof fn a_meter_shows_its_target(
    r: Reading,
    width: nat,
    selected: bool,
    bar: Seq<(Tone, Seq<char>)>,
)
    ensures
        ({
            let row = meter_text(r, width, selected, bar);
            &&& row.len() == bar.len() + 4
            &&& row.subrange(2, 2 + bar.len() as int) == bar
            &&& row[bar.len() as int + 2].1 == "  "@ + padded(r.actual@ + "/"@ + r.hours@ + "h"@, 8)
                + "  "@
            &&& r.state == PaceState::Met ==> row[bar.len() as int + 3].1 == "met"@
            &&& r.state != PaceState::Met ==> row[bar.len() as int + 3].1 == r.delta@ + "h "@
                + r.state.word_text()
            &&& row[0].1 == (if selected {
                "▌ "@
            } else {
                "  "@
            })
        }),
{
    let row = meter_text(r, width, selected, bar);
    assert(row.subrange(2, 2 + bar.len() as int) =~= bar);
}

proof fn lemma_worst(targets: Seq<Reading>, from: int)
    requires
        0 <= from,
    ensures
        worst(targets, from) matches Some(i) ==> from <= i < targets.len() && targets[i].state
            == PaceState::Behind && forall|j: int|
            from <= j < i ==> (#[trigger] targets[j]).state != PaceState::Behind,
        worst(targets, from) is None ==> forall|j: int|
            from <= j < targets.len() ==> (#[trigger] targets[j]).state != PaceState::Behind,
    decreases targets.len() - from,
{
    if from < targets.len() && targets[from].state != PaceState::Behind {
        lemma_worst(targets, from + 1);
    }
}

/// The week is called on pace exactly where no target is behind; else the first one that
/// is behind is named.
pub proof fn the_week_is_on_pace_where_none_is_behind(pace: Pace)
    ensures
        behind_text(pace).0 == Tone::Success <==> forall|j: int|
            0 <= j < pace.targets@.len() ==> (#[trigger] pace.targets@[j]).state
                != PaceState::Behind,
        behind_text(pace).0 == Tone::Success || behind_text(pace).0 == Tone::Warn,
{
    lemma_worst(pace.targets@, 0);
}

/// A target declared from the list is named by the last part of its label, in small
/// letters.
pub proof fn a_declared_target_is_named_by_its_scope(
    pre: Progress,
    axis: Seq<char>,
    name: Seq<char>,
    key: KeyEvent,
    hours: u64,
    post: Progress,
    out: Outcome,
)
    requires
        pre.declare is Some,
        pre.declare->0 is Hours,
        pre.declare->0->label@ == axis + " · "@ + name,
        !crate::text::holds((" · "@ + name).skip(1), " · "@),
        key.code == KeyCode::Enter,
        1 <= hours <= 0x7ff0_0000_0000_0000,
        Progress::handled(pre, Action::ProgressDeclareKey(key), Some(hours), post, out),
    ensures
        out.effects@.len() == 1,
        out.effects@[0] matches Effect::Call(Request::DeclareTarget { scope_name, .. })
            && scope_name@ == lowercase_of(name),
{
    reveal_strlit(" · ");
    crate::text::the_last_part_is_what_was_put_last(axis, " · "@, name);
}

/// What was read reaches the screen as it came, and a failure in its words; domains that
/// could not be read leave the kinds and the intents on offer.
pub proof fn a_read_reaches_progress(
    pace: Result<Box<Pace>, Fault>,
    domains: Result<Vec<Domain>, Fault>,
    a: Vec<Action>,
    b: Action,
)
    requires
        call_ensures(pace_read, (pace,), a),
        call_ensures(domains_read, (domains,), b),
    ensures
        pace matches Ok(p) ==> a@ == seq![Action::ProgressLoaded(p)],
        pace is Err ==> a@.len() == 2 && (a@[0] matches Action::Notify { level, .. } && level
            == Level::Error) && a@[1] == Action::ProgressLoadFailed(pace->Err_0.shown),
        domains matches Ok(d) ==> b == Action::ProgressDeclareReady(d),
        domains is Err ==> (b matches Action::ProgressDeclareReady(d) && d@.len() == 0),
{
}

/// A write that met a closed version of its target is no error: the pace is read again. Any
/// other failure is one, in its own words.
pub proof fn only_a_closed_version_is_soft(fault: Fault, context: Seq<char>, res: Seq<Action>)
    requires
        write_failed(fault, context, res),
    ensures
        fault.kind matches FaultKind::Problem { code: Some(c), .. } && c@
            == "target-version-closed"@ ==> res.len() == 2 && res[1] is RefreshProgress && (
        res[0] matches Action::Notify { level, .. } && level == Level::Warning),
        !(fault.kind is Problem) ==> res.len() == 1 && (res[0] matches Action::Notify {
            level,
            text,
        } && level == Level::Error && text@ == context + ": "@ + fault.shown@),
{
}

/// What a confirmed write says names what was written.
pub proof fn a_confirmed_write_names_its_hours(
    t: DeclaredTarget,
    adjusted: Vec<Action>,
    name: String,
    hours: String,
    declared: Vec<Action>,
)
    requires
        call_ensures(target_adjusted, (WriteReply::Confirmed(t),), adjusted),
        call_ensures(target_declared, (WriteReply::Confirmed(t), name, hours), declared),
    ensures
        adjusted@[0] matches Action::Notify { text, .. } && text@ == "target → "@ + t.hours@
            + "h/wk"@,
        declared@[0] matches Action::Notify { text, .. } && text@ == "declared "@ + t.scope@ + " · "@
            + t.hours@ + "h/wk"@,
{
}

/// The week's header names the week, counts its days from one, and stays on the seventh
/// once the week is over.
pub proof fn the_header_counts_the_days(pace: Pace, day: nat, line: Line)
    requires
        pace.elapsed_days < 7 ==> day == pace.elapsed_days + 1,
        pace.elapsed_days >= 7 ==> day == 7,
        call_ensures(week_header, (&pace,), line),
    ensures
        line@.len() == 2,
        line@[0] == (Tone::Header, pace.week@),
        line@[1].1 == " · "@ + weekday_text(pace) + " · day "@ + decimal(day) + " of 7 · now = "@
            + signed_decimal(pace.now_percent as int) + "%"@,
        day_plus(pace.monday, day - 1) matches Some(d) ==> weekday_text(pace) == lowercase_of(
            day_text_of(d, "%a"@),
        ),
{
}

/// The edit's line names the target and shows what was typed.
pub proof fn the_edit_shows_what_was_typed(r: Reading, buf: Seq<char>)
    ensures
        edit_text(r, buf)[1].1 == lowercase_of(r.scope@),
        edit_text(r, buf)[3].1 == buf + "█"@,
{
}

/// Where the time went is told by kind, each kind with its hours in the order that was
/// read.
pub proof fn the_kinds_are_told_with_their_hours(pace: Pace, i: int, line: Line)
    requires
        call_ensures(fold_line, (&pace, Facet::Kind), line),
        0 <= i < pace.kind_mix@.len(),
    ensures
        line@[3].1 == joined(mix(pace), " · "@),
        mix(pace).len() == pace.kind_mix@.len(),
        mix(pace)[i] == pace.kind_mix@[i].kind@ + " "@ + pace.kind_mix@[i].hours@ + "h"@,
{
}

/// The declaring flow shows the target that was picked with the hours typed for it.
pub proof fn the_flow_shows_what_is_declared(s: Progress)
    ensures
        s.declare matches Some(Declare::Hours { scope, label, buf, picker })
            ==> s.overlay_text() == Some(
            (
                "declare a target — hours"@,
                (Tone::Plain, label@ + "  →  "@ + buf@ + "█ h/wk   (⏎ declare · Esc back)"@),
            ),
        ),
        s.declare is None ==> s.overlay_text() is None,
{
}

/// Every field keeps its value but through the actions that are about it.
pub proof fn what_an_action_leaves_alone(
    pre: Progress,
    action: Action,
    hours: Option<u64>,
    post: Progress,
    out: Outcome,
)
    requires
        Progress::handled(pre, action, hours, post, out),
    ensures
        post.data == pre.data || action is ProgressLoaded,
        post.offset == pre.offset || action is ProgressWeekStep || action is ProgressWeekReset,
        post.loading == pre.loading || action is ProgressLoaded || action is ProgressLoadFailed
            || action is ProgressWeekStep || action is ProgressWeekReset
            || action is RefreshProgress,
        post.error == pre.error || action is ProgressLoaded || action is ProgressLoadFailed,
        post.selected == pre.selected || action is ProgressLoaded || action is ProgressSelectMove,
        post.edit == pre.edit || action is ProgressAdjustBegin || action is ProgressAdjustInput
            || action is ProgressAdjustBackspace || action is ProgressAdjustCancel
            || action is ProgressAdjustSubmit,
        post.retire_armed == pre.retire_armed || action is ProgressLoaded
            || action is ProgressSelectMove || action is ProgressAdjustBegin
            || action is ProgressRetire || action is ProgressDeclareBegin,
        post.declare == pre.declare || action is ProgressDeclareBegin
            || action is ProgressDeclareReady || action is ProgressDeclareKey,
        post.fold == pre.fold || action is ProgressFoldCycle,
        post.provisional == pre.provisional || action is ProgressLoaded
            || action is ProgressWeekStep || action is ProgressWeekReset
            || action is ProgressDeclareQueued,
{
}

/// Only these actions say something, and only these send something; a read under way is
/// marked until it is answered.
pub proof fn which_actions_are_heard(
    pre: Progress,
    action: Action,
    hours: Option<u64>,
    post: Progress,
    out: Outcome,
)
    requires
        Progress::handled(pre, action, hours, post, out),
    ensures
        out.note is None || action is ProgressAdjustSubmit || action is ProgressRetire,
        out.effects@.len() == 0 || action is ProgressWeekStep || action is ProgressWeekReset
            || action is RefreshProgress || action is ProgressAdjustSubmit
            || action is ProgressRetire || action is ProgressDeclareBegin
            || action is ProgressDeclareKey,
        out.effects@.len() <= 1,
        (action is ProgressWeekStep || action is RefreshProgress) ==> post.loading,
        (action is ProgressLoaded || action is ProgressLoadFailed) ==> !post.loading,
{
}

/// What the pace screen says: that hours are a positive number where none were sent, and
/// that a second press retires.
pub proof fn what_the_pace_screen_says(
    pre: Progress,
    action: Action,
    hours: Option<u64>,
    post: Progress,
    out: Outcome,
)
    requires
        Progress::handled(pre, action, hours, post, out),
        out.note is Some,
    ensures
        out.effects@.len() == 0,
        (out.note->0).0 == Level::Warning,
        action is ProgressAdjustSubmit ==> (out.note->0).1@ == "enter a positive number of hours"@,
        action is ProgressRetire ==> (out.note->0).1@
            == "press x again to retire this target (history is kept)"@,
{
}

/// The hours that an action turns on are the ones being typed: those of the edit where
/// it is submitted, those of the flow where it takes a key.
pub proof fn the_hours_read_are_the_ones_typed(pre: Progress, key: KeyEvent, buf: String)
    ensures
        pre.edit == Some(buf) ==> pre.hours_read(Action::ProgressAdjustSubmit) == Some(buf@),
        pre.edit is None ==> pre.hours_read(Action::ProgressAdjustSubmit) is None,
        pre.declare matches Some(Declare::Hours { scope, label, buf: b, picker }) && b == buf
            ==> pre.hours_read(Action::ProgressDeclareKey(key)) == Some(buf@),
        !(pre.declare matches Some(Declare::Hours { scope, label, buf: b, picker }))
            ==> pre.hours_read(Action::ProgressDeclareKey(key)) is None,
{
}

/// The kinds and the intents that a target can count, behind the domains, each under the
/// word that is written for it.
pub proof fn the_kinds_and_intents_on_offer(domains: Seq<Domain>, n: int)
    requires
        n == domains.len(),
    ensures
        scopes(domains).len() == n + 11,
        scopes(domains)[n] == (
            "kind · "@ + "deep_work"@,
            ScopeModel::Kind("deep_work"@),
        ),
        scopes(domains)[n + 1] == (
            "kind · "@ + "reading"@,
            ScopeModel::Kind("reading"@),
        ),
        scopes(domains)[n + 2] == (
            "kind · "@ + "coding"@,
            ScopeModel::Kind("coding"@),
        ),
        scopes(domains)[n + 3] == (
            "kind · "@ + "lecture"@,
            ScopeModel::Kind("lecture"@),
        ),
        scopes(domains)[n + 4] == (
            "kind · "@ + "review"@,
            ScopeModel::Kind("review"@),
        ),
        scopes(domains)[n + 5] == (
            "kind · "@ + "pairing"@,
            ScopeModel::Kind("pairing"@),
        ),
        scopes(domains)[n + 6] == ("kind · "@ + "other"@, ScopeModel::Kind("other"@)),
        scopes(domains)[n + 7] == (
            "intent · "@ + "implement"@,
            ScopeModel::Intent("implement"@),
        ),
        scopes(domains)[n + 8] == (
            "intent · "@ + "challenge"@,
            ScopeModel::Intent("challenge"@),
        ),
        scopes(domains)[n + 9] == (
            "intent · "@ + "follow"@,
            ScopeModel::Intent("follow"@),
        ),
        scopes(domains)[n + 10] == (
            "intent · "@ + "study"@,
            ScopeModel::Intent("study"@),
        ),
{
}

/// A failed target write is an error that says which write failed and why, unless the
/// version it was about is closed.
pub proof fn a_failed_target_write_says_which(
    fault: Fault,
    name: String,
    hours: String,
    declared: Vec<Action>,
    adjusted: Vec<Action>,
    retired: Vec<Action>,
)
    requires
        !version_closed(fault),
        call_ensures(target_declared, (WriteReply::Failed(fault), name, hours), declared),
        call_ensures(target_adjusted, (WriteReply::Failed(fault),), adjusted),
        call_ensures(target_retired, (WriteReply::Failed(fault),), retired),
    ensures
        declared@.len() == 1,
        notifies(declared@[0], Level::Error, "declare failed"@ + ": "@ + fault.shown@),
        adjusted@.len() == 1,
        notifies(adjusted@[0], Level::Error, "adjust failed"@ + ": "@ + fault.shown@),
        retired@.len() == 1,
        notifies(retired@[0], Level::Error, "retire failed"@ + ": "@ + fault.shown@),
{
}

/// The cuts of the fold by name.
pub proof fn the_names_of_the_folds()
    ensures
        Facet::Kind.label_text() == "by kind"@,
        Facet::Domain.label_text() == "by domain"@,
        Facet::Intent.label_text() == "by intent"@,
{
}

/// The screen starts on the current week, cut by kind, with nothing typed or armed.
pub proof fn how_the_screen_starts(s: Progress)
    requires
        call_ensures(Progress::default, (), s),
    ensures
        s.data is None,
        s.offset == 0,
        !s.loading,
        s.error is None,
        s.selected == 0,
        s.edit is None,
        s.retire_armed is None,
        s.declare is None,
        s.fold is Kind,
        s.provisional@.len() == 0,
{
}

/// Another week shows none of the targets that wait to be declared in this one.
pub proof fn another_week_has_no_stand_ins(
    pre: Progress,
    action: Action,
    hours: Option<u64>,
    post: Progress,
    out: Outcome,
)
    requires
        Progress::handled(pre, action, hours, post, out),
    ensures
        action is ProgressWeekStep ==> post.provisional@.len() == 0,
        action is ProgressWeekReset && pre.offset != 0 ==> post.provisional@.len() == 0,
        action is ProgressWeekReset && pre.offset == 0 ==> post == pre,
{
}

} // verus!
