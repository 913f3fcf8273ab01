//! Segment audit: the flagged segments in the order of their severity, with the
//! verbs that acknowledge, trim and delete one.

use crate::action::{notice, notifies, one, two, Action, Effect, Outcome, Request};
use crate::cursor::{step, stepped};
use crate::line::{no_lines, page, push_line, Footer, Line, Tone};
use crate::model::{
    AuditAcknowledged, AuditRead, AuditSegment, Fault, FaultKind, PanelFailure, TimerSettings,
};
use crate::notify::Level;
use crate::panel::{panel_lines, panel_page, PanelModel, PanelState};
use crate::screens::ScreenKind;
use crate::text::{
    cat2, cat3, cat4, chars_of, decimal, join, joined, or_empty, own, same, show,
    text_or_empty, texts,
};
use vstd::prelude::*;

verus! {

/// The longest fence, in hours, whose minutes still fit.
pub const MAX_FENCE_HOURS: u32 = 71_582_788;

/// The audit screen.
#[derive(Debug)]
pub struct Audit {
    pub audit_count: u32,
    /// The flagged rows, by severity, in the server's order within one.
    pub rows: Vec<AuditSegment>,
    pub selected: usize,
    pub loading: bool,
    pub failure: Option<PanelFailure>,
    /// The row that a second press in a row deletes.
    pub delete_armed: Option<i64>,
    /// The length in hours above which a segment is implausible; zero until known.
    pub long_fence_hours: u32,
}

impl Default for Audit {
    fn default() -> (res: Self)
        ensures
            res.fresh(),
    {
        Audit {
            audit_count: 0,
            rows: Vec::new(),
            selected: 0,
            loading: false,
            failure: None,
            delete_armed: None,
            long_fence_hours: 0,
        }
    }
}

/// Whether a list of flags holds this one.
pub open spec fn flagged(flags: Seq<String>, flag: Seq<char>) -> bool {
    exists|i: int| 0 <= i < flags.len() && (#[trigger] flags[i])@ == flag
}

fn has_flag(flags: &Vec<String>, flag: &str) -> (res: bool)
    ensures
        res == flagged(flags@, flag@),
{
    let mut i: usize = 0;
    while i < flags.len()
        invariant
            i <= flags.len(),
            forall|j: int| 0 <= j < i ==> (#[trigger] flags@[j])@ != flag@,
        decreases flags.len() - i,
    {
        if same(flags[i].as_str(), flag) {
            assert(flags@[i as int]@ == flag@);
            return true;
        }
        i = i + 1;
    }
    false
}

/// The group a row is shown in, by its most severe flag: implausibly long, near
/// zero, or short of metadata.
pub open spec fn group(segment: AuditSegment) -> int {
    if flagged(segment.flags@, "too_long"@) {
        0
    } else if flagged(segment.flags@, "near_zero"@) {
        1
    } else {
        2
    }
}

/// The group a row is shown in.
pub fn group_of(segment: &AuditSegment) -> (res: usize)
    ensures
        res == group(*segment),
        res < 3,
{
    if has_flag(&segment.flags, "too_long") {
        0
    } else if has_flag(&segment.flags, "near_zero") {
        1
    } else {
        2
    }
}

/// The rows of one group, in order.
pub open spec fn of_group(rows: Seq<AuditSegment>, g: int) -> Seq<AuditSegment>
    decreases rows.len(),
{
    if rows.len() == 0 {
        Seq::empty()
    } else if group(rows.last()) == g {
        of_group(rows.drop_last(), g).push(rows.last())
    } else {
        of_group(rows.drop_last(), g)
    }
}

/// The rows by group, in order within a group.
pub open spec fn by_group(rows: Seq<AuditSegment>) -> Seq<AuditSegment> {
    of_group(rows, 0) + of_group(rows, 1) + of_group(rows, 2)
}

fn grouped(rows: Vec<AuditSegment>) -> (res: Vec<AuditSegment>)
    ensures
        res@ == by_group(rows@),
{
    let mut long: Vec<AuditSegment> = Vec::new();
    let mut short: Vec<AuditSegment> = Vec::new();
    let mut bare: Vec<AuditSegment> = Vec::new();
    let ghost all = rows@;
    for row in it: rows
        invariant
            it.seq() == all,
            long@ == of_group(all.take(it.index() as int), 0),
            short@ == of_group(all.take(it.index() as int), 1),
            bare@ == of_group(all.take(it.index() as int), 2),
    {
        proof {
            let here = all.take(it.index() as int + 1);
            assert(here.drop_last() =~= all.take(it.index() as int));
            assert(here.last() == row);
        }
        match group_of(&row) {
            0 => long.push(row),
            1 => short.push(row),
            _ => bare.push(row),
        }
    }
    assert(all.take(all.len() as int) =~= all);
    long.append(&mut short);
    long.append(&mut bare);
    long
}

fn regroup(rows: &mut Vec<AuditSegment>)
    ensures
        final(rows)@ == by_group(old(rows)@),
{
    let mut taken: Vec<AuditSegment> = Vec::new();
    taken.append(rows);
    assert(taken@ =~= old(rows)@);
    let mut sorted = grouped(taken);
    rows.append(&mut sorted);
    assert(rows@ =~= by_group(old(rows)@));
}

/// The ids of the rows, in order.
pub open spec fn row_ids(rows: Seq<AuditSegment>) -> Seq<i64> {
    rows.map_values(|r: AuditSegment| r.id)
}

/// The rows that still have a flag, in order.
pub open spec fn still_flagged(rows: Seq<AuditSegment>) -> Seq<AuditSegment>
    decreases rows.len(),
{
    if rows.len() == 0 {
        Seq::empty()
    } else if rows.last().flags@.len() > 0 {
        still_flagged(rows.drop_last()).push(rows.last())
    } else {
        still_flagged(rows.drop_last())
    }
}

/// The rows with the flags of the first one of this id replaced.
pub open spec fn reflagged(rows: Seq<AuditSegment>, id: i64, flags: Vec<String>) -> Seq<
    AuditSegment,
> {
    match row_ids(rows).index_of_first(id) {
        Some(i) => rows.update(i, AuditSegment { flags, ..rows[i] }),
        None => rows,
    }
}

fn reflag(rows: &mut Vec<AuditSegment>, id: i64, flags: Vec<String>)
    ensures
        final(rows)@ == reflagged(old(rows)@, id, flags),
{
    let ghost ids = row_ids(rows@);
    proof {
        ids.index_of_first_ensures(id);
    }
    let mut i: usize = 0;
    while i < rows.len()
        invariant
            i <= rows.len(),
            rows@ == old(rows)@,
            ids == row_ids(rows@),
            forall|j: int| 0 <= j < i ==> #[trigger] ids[j] != id,
            match ids.index_of_first(id) {
                Some(k) => 0 <= k < ids.len() && ids[k] == id && forall|j: int|
                    0 <= j < k ==> ids[j] != id,
                None => !ids.contains(id),
            },
        decreases rows.len() - i,
    {
        assert(ids[i as int] == rows@[i as int].id);
        if rows[i].id == id {
            assert(ids.contains(id));
            rows[i].flags = flags;
            assert(rows@ =~= reflagged(old(rows)@, id, flags));
            return ;
        }
        i = i + 1;
    }
}

fn drop_clean(rows: &mut Vec<AuditSegment>)
    ensures
        final(rows)@ == still_flagged(old(rows)@),
{
    let ghost all = rows@;
    let ghost mut seen: int = 0;
    let mut i: usize = 0;
    assert(rows@ =~= still_flagged(all.take(0)) + all.skip(0));
    while i < rows.len()
        invariant
            0 <= seen <= all.len(),
            i == still_flagged(all.take(seen)).len(),
            rows@ == still_flagged(all.take(seen)) + all.skip(seen),
        decreases rows.len() - i,
    {
        proof {
            let here = all.take(seen + 1);
            assert(here.drop_last() =~= all.take(seen));
            assert(here.last() == all[seen]);
            assert(rows@[i as int] == all[seen]);
        }
        if rows[i].flags.len() == 0 {
            let _ = rows.remove(i);
        } else {
            i = i + 1;
        }
        proof {
            seen = seen + 1;
        }
        assert(rows@ =~= still_flagged(all.take(seen)) + all.skip(seen));
    }
    assert(all.take(seen) =~= all);
    assert(rows@ =~= still_flagged(all));
}

impl Audit {
    /// A screen that has read nothing.
    pub open spec fn fresh(self) -> bool {
        &&& self.audit_count == 0
        &&& self.rows@ == Seq::<AuditSegment>::empty()
        &&& self.selected == 0
        &&& !self.loading
        &&& self.failure is None
        &&& self.delete_armed is None
        &&& self.long_fence_hours == 0
    }

    /// Whether the minutes of the fence fit, where an action needs them: a trim of
    /// a row that is too long.
    pub open spec fn admits(self, action: Action) -> bool {
        action is AuditTrim ==> match self.chosen() {
            Some(row) => flagged(row.flags@, "too_long"@) ==> self.long_fence_hours
                <= MAX_FENCE_HOURS,
            None => true,
        }
    }

    /// Whether the minutes of the fence fit, where an action needs them.
    pub fn can_take(&self, action: &Action) -> (res: bool)
        ensures
            res == self.admits(*action),
    {
        match action {
            Action::AuditTrim => self.long_fence_hours <= MAX_FENCE_HOURS || self.selected
                >= self.rows.len() || !has_flag(&self.rows[self.selected].flags, "too_long"),
            _ => true,
        }
    }

    /// The row under the cursor.
    pub open spec fn chosen(self) -> Option<AuditSegment> {
        if self.selected < self.rows@.len() {
            Some(self.rows@[self.selected as int])
        } else {
            None
        }
    }

    /// A cursor brought back into a list of `len` rows.
    pub open spec fn kept_in(selected: usize, len: nat) -> usize {
        if len == 0 {
            0
        } else if selected >= len {
            (len - 1) as usize
        } else {
            selected
        }
    }

    /// How the screen answers an action.
    pub open spec fn handled(pre: Self, action: Action, post: Self, out: Outcome) -> bool {
        let calm = Audit {
            delete_armed: if action is AuditDelete {
                pre.delete_armed
            } else {
                None
            },
            ..pre
        };
        match action {
            Action::AuditLoaded(read) => {
                &&& post == Audit {
                    loading: false,
                    failure: None,
                    audit_count: read.audit_count,
                    rows: post.rows,
                    selected: Self::kept_in(pre.selected, read.segments@.len()),
                    ..calm
                }
                &&& post.rows@ == by_group(read.segments@)
                &&& out.quiet()
            },
            Action::AuditLoadFailed(reason) => {
                &&& post == Audit { loading: false, failure: post.failure, ..calm }
                &&& post.failure is Some
                &&& post.failure->0.of("the audit"@, reason)
                &&& out.quiet()
            },
            Action::AuditReload => {
                &&& post == Audit { loading: true, ..calm }
                &&& out.asks(seq![Effect::Call(Request::LoadAudit)])
            },
            Action::SettingsLoaded(s) => {
                post == Audit { long_fence_hours: s.audit_long_hours, ..calm } && out.quiet()
            },
            Action::AuditMove(d) => {
                &&& post == Audit {
                    selected: if pre.rows@.len() > 0 {
                        stepped(pre.selected as int, d as int, pre.rows@.len() as int) as usize
                    } else {
                        pre.selected
                    },
                    ..calm
                }
                &&& out.quiet()
            },
            Action::AuditAcknowledge => {
                &&& post == calm
                &&& match pre.chosen() {
                    Some(row) => out.asks(seq![Effect::Call(Request::AcknowledgeSegment(row.id))]),
                    None => out.quiet(),
                }
            },
            Action::AuditAcknowledged(ack) => {
                &&& post == Audit {
                    audit_count: ack.audit_count,
                    rows: post.rows,
                    selected: Self::kept_in(pre.selected, post.rows@.len()),
                    ..calm
                }
                &&& post.rows@ == by_group(
                    still_flagged(reflagged(pre.rows@, ack.segment_id, ack.flags)),
                )
                &&& out.says(
                    Level::Success,
                    if ack.flags@.len() == 0 {
                        "looks right — flags cleared for good"@
                    } else {
                        "duration flags cleared — metadata still needs a fix"@
                    },
                )
            },
            Action::AuditTrim => {
                &&& post == calm
                &&& match pre.chosen() {
                    Some(row) => if pre.long_fence_hours == 0 {
                        out.says(
                            Level::Warning,
                            "trim needs the audit fence — settings still loading"@,
                        )
                    } else if !flagged(row.flags@, "too_long"@) {
                        out.says(
                            Level::Warning,
                            "trim is for implausibly long segments — this row isn't one"@,
                        )
                    } else {
                        out.asks(
                            seq![
                                Effect::Call(
                                    Request::TrimSegment {
                                        activity_id: row.activity_id,
                                        segment_id: row.id,
                                        minutes: (pre.long_fence_hours * 60) as u32,
                                    },
                                ),
                            ],
                        )
                    },
                    None => out.quiet(),
                }
            },
            Action::AuditDelete => match pre.chosen() {
                None => post == pre && out.quiet(),
                Some(row) => if pre.delete_armed == Some(row.id) {
                    &&& post == Audit { delete_armed: None, ..pre }
                    &&& out.asks(
                        seq![
                            Effect::Call(
                                Request::DeleteSegment {
                                    activity_id: row.activity_id,
                                    segment_id: row.id,
                                },
                            ),
                        ],
                    )
                } else {
                    &&& post == Audit { delete_armed: Some(row.id), ..pre }
                    &&& out.says(
                        Level::Warning,
                        "delete this "@ + or_empty(row.formatted_duration)
                            + " segment? `d` again to confirm"@,
                    )
                },
            },
            Action::AuditFix => {
                &&& post == calm
                &&& match pre.chosen() {
                    Some(row) => {
                        &&& out.noted(
                            Level::Info,
                            "fix routes to Activities — find \""@ + (match row.activity_title {
                                Some(t) => t@,
                                None => "the activity"@,
                            }) + "\" and press e"@,
                        )
                        &&& out.effects@ == seq![
                            Effect::Send(Action::Goto(ScreenKind::Activities)),
                        ]
                    },
                    None => out.quiet(),
                }
            },
            _ => post == calm && out.quiet(),
        }
    }

    /// Entering the screen reads the audit and the knobs.
    pub fn on_enter(&mut self) -> (out: Vec<Effect>)
        ensures
            *final(self) == (Audit { loading: true, ..*old(self) }),
            out@ == seq![Effect::Call(Request::LoadAudit), Effect::Call(Request::LoadKnobs)],
    {
        self.loading = true;
        let mut out: Vec<Effect> = Vec::new();
        out.push(Effect::Call(Request::LoadAudit));
        out.push(Effect::Call(Request::LoadKnobs));
        assert(out@ =~= seq![Effect::Call(Request::LoadAudit), Effect::Call(Request::LoadKnobs)]);
        out
    }

    fn keep_cursor(&mut self)
        ensures
            *final(self) == (Audit {
                selected: Self::kept_in(old(self).selected, old(self).rows@.len()),
                ..*old(self)
            }),
    {
        let n: usize = self.rows.len();
        if n == 0 {
            self.selected = 0;
        } else if self.selected >= n {
            self.selected = n - 1;
        }
    }

    fn acknowledged(&mut self, ack: AuditAcknowledged) -> (out: Outcome)
        requires
            old(self).delete_armed is None,
        ensures
            Self::handled(
                *old(self),
                Action::AuditAcknowledged(Box::new(ack)),
                *final(self),
                out,
            ),
    {
        self.audit_count = ack.audit_count;
        let clean = ack.flags.len() == 0;
        reflag(&mut self.rows, ack.segment_id, ack.flags);
        drop_clean(&mut self.rows);
        regroup(&mut self.rows);
        self.keep_cursor();
        Outcome::say(
            Level::Success,
            if clean {
                own("looks right — flags cleared for good")
            } else {
                own("duration flags cleared — metadata still needs a fix")
            },
        )
    }

    fn trim(&self) -> (out: Outcome)
        requires
            self.delete_armed is None,
            self.admits(Action::AuditTrim),
        ensures
            Self::handled(*self, Action::AuditTrim, *self, out),
    {
        if self.selected < self.rows.len() {
            let row = &self.rows[self.selected];
            if self.long_fence_hours == 0 {
                return Outcome::say(
                    Level::Warning,
                    own("trim needs the audit fence — settings still loading"),
                );
            }
            if !has_flag(&row.flags, "too_long") {
                return Outcome::say(
                    Level::Warning,
                    own("trim is for implausibly long segments — this row isn't one"),
                );
            }
            return Outcome::call(
                Request::TrimSegment {
                    activity_id: row.activity_id,
                    segment_id: row.id,
                    minutes: self.long_fence_hours * 60,
                },
            );
        }
        Outcome::none()
    }

    fn delete(&mut self) -> (out: Outcome)
        ensures
            Self::handled(*old(self), Action::AuditDelete, *final(self), out),
    {
        if self.selected >= self.rows.len() {
            return Outcome::none();
        }
        let row = &self.rows[self.selected];
        let armed = match self.delete_armed {
            Some(id) => id == row.id,
            None => false,
        };
        let segment_id: i64 = row.id;
        let activity_id: i64 = row.activity_id;
        if armed {
            self.delete_armed = None;
            Outcome::call(Request::DeleteSegment { activity_id, segment_id })
        } else {
            let duration = text_or_empty(&row.formatted_duration);
            self.delete_armed = Some(segment_id);
            Outcome::say(
                Level::Warning,
                cat3("delete this ", duration.as_str(), " segment? `d` again to confirm"),
            )
        }
    }

    fn fix(&self) -> (out: Outcome)
        requires
            self.delete_armed is None,
        ensures
            Self::handled(*self, Action::AuditFix, *self, out),
    {
        if self.selected >= self.rows.len() {
            return Outcome::none();
        }
        let title = match &self.rows[self.selected].activity_title {
            Some(t) => t.clone(),
            None => own("the activity"),
        };
        let mut out = Outcome::send(Action::Goto(ScreenKind::Activities));
        out.note = Some(
            (
                Level::Info,
                cat3(
                    "fix routes to Activities — find \"",
                    title.as_str(),
                    "\" and press e",
                ),
            ),
        );
        out
    }

    /// How the screen answers an action. Deleting takes two presses in a row on
    /// one row: anything between them takes the first back.
    #[verifier::rlimit(40)]
    pub fn handle(&mut self, action: Action) -> (out: Outcome)
        requires
            old(self).admits(action),
        ensures
            Self::handled(*old(self), action, *final(self), out),
    {
        match action {
            Action::AuditDelete => {
                return self.delete();
            },
            _ => self.delete_armed = None,
        }
        match action {
            Action::AuditLoaded(read) => {
                let read = *read;
                self.loading = false;
                self.failure = None;
                self.audit_count = read.audit_count;
                proof {
                    lemma_by_group_len(read.segments@);
                }
                self.rows = grouped(read.segments);
                self.keep_cursor();
            },
            Action::AuditLoadFailed(reason) => {
                self.loading = false;
                self.failure = Some(PanelFailure::new("the audit", reason));
            },
            Action::AuditReload => {
                self.loading = true;
                return Outcome::call(Request::LoadAudit);
            },
            Action::SettingsLoaded(s) => self.long_fence_hours = s.audit_long_hours,
            Action::AuditMove(d) => {
                let n: usize = self.rows.len();
                if n > 0 {
                    self.selected = step(self.selected, d, n);
                }
            },
            Action::AuditAcknowledge => {
                if self.selected < self.rows.len() {
                    return Outcome::call(Request::AcknowledgeSegment(self.rows[self.selected].id));
                }
            },
            Action::AuditAcknowledged(ack) => {
                return self.acknowledged(*ack);
            },
            Action::AuditTrim => {
                return self.trim();
            },
            Action::AuditFix => {
                return self.fix();
            },
            _ => {},
        }
        Outcome::none()
    }

    // ---- what the panel says ----

    /// The panel's title, with the badge while there are flags.
    pub open spec fn title_text(self) -> Seq<char> {
        if self.audit_count > 0 {
            "Segment audit · "@ + decimal(self.audit_count as nat) + " flagged"@
        } else {
            "Segment audit"@
        }
    }

    /// The panel's title.
    pub fn panel_title(&self) -> (res: String)
        ensures
            res@ == self.title_text(),
    {
        if self.audit_count > 0 {
            cat3("Segment audit · ", show(self.audit_count as u64).as_str(), " flagged")
        } else {
            own("Segment audit")
        }
    }

    /// What a group's heading adds: the fence, and the keys that help.
    pub open spec fn note_text(self, g: int) -> Seq<char> {
        if g == 0 {
            "over ~"@ + decimal(self.long_fence_hours as nat)
                + "h (your long fence) · t trim · a looks right"@
        } else if g == 1 {
            "under your short fence · d delete"@
        } else {
            "no kind / no anchor · f fix"@
        }
    }

    /// A group's heading: its name and count, and the note.
    pub open spec fn heading_text(self, g: int) -> Seq<(Tone, Seq<char>)> {
        seq![
            (
                if g == 0 {
                    Tone::DangerBold
                } else if g == 1 {
                    Tone::WarnBold
                } else {
                    Tone::AccentBold
                },
                (if g == 0 {
                    "IMPLAUSIBLY LONG"@
                } else if g == 1 {
                    "ZERO / NEAR-ZERO"@
                } else {
                    "MISSING METADATA"@
                }) + " "@ + decimal(of_group(self.rows@, g).len()),
            ),
            (Tone::Muted, "   "@ + self.note_text(g)),
        ]
    }

    fn count_in(&self, g: usize) -> (res: usize)
        ensures
            res == of_group(self.rows@, g as int).len(),
    {
        let mut n: usize = 0;
        let mut i: usize = 0;
        while i < self.rows.len()
            invariant
                n <= i <= self.rows.len(),
                n == of_group(self.rows@.take(i as int), g as int).len(),
            decreases self.rows.len() - i,
        {
            proof {
                let here = self.rows@.take(i as int + 1);
                assert(here.drop_last() =~= self.rows@.take(i as int));
                assert(here.last() == self.rows@[i as int]);
            }
            if group_of(&self.rows[i]) == g {
                n = n + 1;
            }
            i = i + 1;
        }
        assert(self.rows@.take(self.rows@.len() as int) =~= self.rows@);
        n
    }

    fn heading(&self, g: usize) -> (res: Line)
        requires
            g < 3,
        ensures
            res@ == self.heading_text(g as int),
    {
        let note = match g {
            0 => cat3(
                "over ~",
                show(self.long_fence_hours as u64).as_str(),
                "h (your long fence) · t trim · a looks right",
            ),
            1 => own("under your short fence · d delete"),
            _ => own("no kind / no anchor · f fix"),
        };
        let name = match g {
            0 => "IMPLAUSIBLY LONG",
            1 => "ZERO / NEAR-ZERO",
            _ => "MISSING METADATA",
        };
        let tone = match g {
            0 => Tone::DangerBold,
            1 => Tone::WarnBold,
            _ => Tone::AccentBold,
        };
        let count = show(self.count_in(g) as u64);
        let line = Line::of(tone, cat3(name, " ", count.as_str())).with(
            Tone::Muted,
            cat2("   ", note.as_str()),
        );
        assert(line@ =~= self.heading_text(g as int));
        line
    }

    /// A row: the cursor, the title, the duration and every flag in words.
    pub open spec fn row_text(row: AuditSegment, selected: bool) -> Seq<(Tone, Seq<char>)> {
        seq![
            if selected {
                (Tone::Selection, "▌ "@)
            } else {
                (Tone::Plain, "  "@)
            },
            (
                if selected {
                    Tone::SelectionBold
                } else {
                    Tone::Bold
                },
                match row.activity_title {
                    Some(t) => t@,
                    None => "Untitled timer"@,
                },
            ),
            (
                if selected {
                    Tone::Selection
                } else {
                    Tone::Muted
                },
                "   "@ + or_empty(row.formatted_duration) + "  "@ + spaced(
                    joined(texts(row.flags@), " · "@),
                ),
            ),
        ]
    }

    fn row_line(row: &AuditSegment, selected: bool) -> (res: Line)
        ensures
            res@ == Self::row_text(*row, selected),
    {
        let title = match &row.activity_title {
            Some(t) => t.clone(),
            None => own("Untitled timer"),
        };
        let duration = text_or_empty(&row.formatted_duration);
        let flags = respace(join(&row.flags, " · ").as_str());
        let tail = cat4("   ", duration.as_str(), "  ", flags.as_str());
        let line = if selected {
            Line::of(Tone::Selection, own("▌ ")).with(Tone::SelectionBold, title).with(
                Tone::Selection,
                tail,
            )
        } else {
            Line::of(Tone::Plain, own("  ")).with(Tone::Bold, title).with(Tone::Muted, tail)
        };
        assert(line@ =~= Self::row_text(*row, selected));
        line
    }

    /// The first `n` rows, each run of a group under its heading.
    pub open spec fn rows_page(self, n: int) -> Seq<Seq<(Tone, Seq<char>)>>
        decreases n,
    {
        if n <= 0 {
            Seq::empty()
        } else {
            let row = self.rows@[n - 1];
            let before = self.rows_page(n - 1);
            (if n == 1 || group(self.rows@[n - 2]) != group(row) {
                before.push(self.heading_text(group(row)))
            } else {
                before
            }).push(Self::row_text(row, n - 1 == self.selected))
        }
    }

    /// The panel's lines. A failed read is loud, and never looks like a clean
    /// log.
    pub open spec fn panel_text(self) -> Seq<Seq<(Tone, Seq<char>)>> {
        if self.rows@.len() > 0 {
            self.rows_page(self.rows@.len() as int)
        } else if self.failure is Some {
            panel_page(PanelModel::Failed(self.failure->0))
        } else if self.loading {
            panel_page(PanelModel::Loading)
        } else {
            seq![
                Seq::empty(),
                seq![(Tone::Success, "  clean log — no flags, no badge, anywhere"@)],
            ]
        }
    }

    /// The panel's lines.
    pub fn lines(&self) -> (res: Vec<Line>)
        ensures
            page(res@) == self.panel_text(),
    {
        if self.rows.len() == 0 {
            if let Some(f) = &self.failure {
                return panel_lines(&PanelState::Failed(f));
            }
            if self.loading {
                return panel_lines(&PanelState::Loading);
            }
            let mut lines = no_lines();
            push_line(&mut lines, Line::empty());
            push_line(
                &mut lines,
                Line::of(Tone::Success, own("  clean log — no flags, no badge, anywhere")),
            );
            assert(page(lines@) =~= self.panel_text());
            return lines;
        }
        let mut lines = no_lines();
        let mut last: usize = 3;
        let mut i: usize = 0;
        while i < self.rows.len()
            invariant
                i <= self.rows.len(),
                last == (if i == 0 {
                    3
                } else {
                    group(self.rows@[i - 1])
                }),
                page(lines@) == self.rows_page(i as int),
            decreases self.rows.len() - i,
        {
            let g: usize = group_of(&self.rows[i]);
            if g != last {
                push_line(&mut lines, self.heading(g));
                last = g;
            }
            push_line(&mut lines, Self::row_line(&self.rows[i], i == self.selected));
            i = i + 1;
        }
        lines
    }

    /// What the footer offers.
    pub open spec fn offered(self, f: Footer) -> bool {
        f.offers(
            seq![
                ("j/k", "move"),
                ("f", "fix"),
                ("a", "looks right"),
                ("t", "trim"),
                ("d", "delete (confirms)"),
                ("h", "progress"),
            ],
        )
    }

    /// What the footer offers.
    pub fn hints(&self) -> (res: Footer)
        ensures
            self.offered(res),
    {
        Footer::Keys(
            vec![
                ("j/k", "move"),
                ("f", "fix"),
                ("a", "looks right"),
                ("t", "trim"),
                ("d", "delete (confirms)"),
                ("h", "progress"),
            ],
        )
    }
}

/// A text with a space for each underscore.
pub open spec fn spaced(s: Seq<char>) -> Seq<char> {
    s.map_values(
        |c: char|
            if c == '_' {
                ' '
            } else {
                c
            },
    )
}

fn respace(s: &str) -> (res: String)
    ensures
        res@ == spaced(s@),
{
    let v = chars_of(s);
    let mut out = String::new();
    let mut i: usize = 0;
    assert(out@ =~= spaced(s@).take(0));
    while i < v.len()
        invariant
            i <= v.len(),
            v@ == s@,
            out@ == spaced(s@).take(i as int),
        decreases v.len() - i,
    {
        out.push(
            if v[i] == '_' {
                ' '
            } else {
                v[i]
            },
        );
        assert(out@ =~= spaced(s@).take(i as int + 1));
        i = i + 1;
    }
    assert(spaced(s@).take(v@.len() as int) =~= spaced(s@));
    out
}

// ---- what the calls answer ----

/// What the read of the audit sends back. A refused session is no failure of
/// the audit. `reason` is the failure as the panel words it.
pub fn audit_read(reply: Result<Box<AuditRead>, (Fault, String)>) -> (res: Action)
    ensures
        match reply {
            Ok(read) => res == Action::AuditLoaded(read),
            Err((e, reason)) => if e.kind is Unauthorized {
                res == Action::SessionExpired
            } else {
                res == Action::AuditLoadFailed(reason)
            },
        },
{
    match reply {
        Ok(read) => Action::AuditLoaded(read),
        Err((e, reason)) => match e.kind {
            FaultKind::Unauthorized => Action::SessionExpired,
            _ => Action::AuditLoadFailed(reason),
        },
    }
}

/// What the read of the knobs sends back: nothing where it failed.
pub fn knobs_read(reply: Result<Box<TimerSettings>, Fault>) -> (res: Option<Action>)
    ensures
        res == (match reply {
            Ok(s) => Some(Action::SettingsLoaded(s)),
            Err(_) => None,
        }),
{
    match reply {
        Ok(s) => Some(Action::SettingsLoaded(s)),
        Err(_) => None,
    }
}

/// What an acknowledgement sends back.
pub fn acknowledgement(reply: Result<Box<AuditAcknowledged>, Fault>) -> (res: Action)
    ensures
        match reply {
            Ok(ack) => res == Action::AuditAcknowledged(ack),
            Err(e) => notifies(res, Level::Error, "acknowledge failed: "@ + e.shown@),
        },
{
    match reply {
        Ok(ack) => Action::AuditAcknowledged(ack),
        Err(e) => notice(Level::Error, cat2("acknowledge failed: ", e.shown.as_str())),
    }
}

/// What a trim to `minutes` sends back.
pub fn trimmed(reply: Result<(), Fault>, minutes: u32) -> (res: Vec<Action>)
    ensures
        match reply {
            Ok(_) => {
                &&& res@.len() == 2
                &&& res@[0] == Action::AuditReload
                &&& notifies(
                    res@[1],
                    Level::Success,
                    "trimmed to "@ + decimal((minutes / 60) as nat) + "h — the plausible span"@,
                )
            },
            Err(e) => {
                &&& res@.len() == 1
                &&& notifies(res@[0], Level::Error, "trim failed: "@ + e.shown@)
            },
        },
{
    match reply {
        Ok(_) => two(
            Action::AuditReload,
            notice(
                Level::Success,
                cat3(
                    "trimmed to ",
                    show((minutes / 60) as u64).as_str(),
                    "h — the plausible span",
                ),
            ),
        ),
        Err(e) => one(notice(Level::Error, cat2("trim failed: ", e.shown.as_str()))),
    }
}

/// What a deletion sends back.
pub fn deleted(reply: Result<(), Fault>) -> (res: Vec<Action>)
    ensures
        match reply {
            Ok(_) => {
                &&& res@.len() == 2
                &&& res@[0] == Action::AuditReload
                &&& notifies(res@[1], Level::Success, "segment deleted"@)
            },
            Err(e) => {
                &&& res@.len() == 1
                &&& notifies(res@[0], Level::Error, "delete failed: "@ + e.shown@)
            },
        },
{
    match reply {
        Ok(_) => two(Action::AuditReload, notice(Level::Success, own("segment deleted"))),
        Err(e) => one(notice(Level::Error, cat2("delete failed: ", e.shown.as_str()))),
    }
}

// ---- laws ----

/// The three groups split the rows: none is lost, none comes twice.
proof fn lemma_by_group_len(rows: Seq<AuditSegment>)
    ensures
        by_group(rows).len() == rows.len(),
    decreases rows.len(),
{
    if rows.len() > 0 {
        lemma_by_group_len(rows.drop_last());
    }
}

/// Every row of a group is in it.
proof fn lemma_of_group(rows: Seq<AuditSegment>, g: int)
    ensures
        forall|i: int|
            0 <= i < of_group(rows, g).len() ==> group(#[trigger] of_group(rows, g)[i]) == g,
    decreases rows.len(),
{
    if rows.len() > 0 {
        let before = of_group(rows.drop_last(), g);
        lemma_of_group(rows.drop_last(), g);
        assert forall|i: int| 0 <= i < of_group(rows, g).len() implies group(
            #[trigger] of_group(rows, g)[i],
        ) == g by {
            if i < before.len() {
                assert(of_group(rows, g)[i] == before[i]);
            }
        }
    }
}

/// Regrouping a group changes nothing, and another group has none of it.
proof fn lemma_regroup(rows: Seq<AuditSegment>, g: int, h: int)
    ensures
        of_group(of_group(rows, g), h) == (if g == h {
            of_group(rows, g)
        } else {
            Seq::empty()
        }),
    decreases rows.len(),
{
    if rows.len() > 0 {
        lemma_regroup(rows.drop_last(), g, h);
        if group(rows.last()) == g {
            assert(of_group(rows, g).drop_last() =~= of_group(rows.drop_last(), g));
        }
    }
}

proof fn lemma_group_of_sum(a: Seq<AuditSegment>, b: Seq<AuditSegment>, g: int)
    ensures
        of_group(a + b, g) == of_group(a, g) + of_group(b, g),
    decreases b.len(),
{
    if b.len() == 0 {
        assert(a + b =~= a);
        assert(of_group(a, g) + of_group(b, g) =~= of_group(a, g));
    } else {
        assert((a + b).drop_last() =~= a + b.drop_last());
        assert((a + b).last() == b.last());
        lemma_group_of_sum(a, b.drop_last(), g);
        assert(of_group(a + b, g) =~= of_group(a, g) + of_group(b, g));
    }
}

/// Whether the rows stand by severity.
pub open spec fn by_severity(rows: Seq<AuditSegment>) -> bool {
    forall|i: int, j: int|
        0 <= i < j < rows.len() ==> group(#[trigger] rows[i]) <= group(#[trigger] rows[j])
}

/// Grouping puts the rows in the order of their severity, and keeps the order
/// within each group.
proof fn lemma_by_group(s: Seq<AuditSegment>)
    ensures
        by_severity(by_group(s)),
        forall|g: int| 0 <= g < 3 ==> #[trigger] of_group(by_group(s), g) == of_group(s, g),
        by_group(s).len() == s.len(),
{
    lemma_by_group_len(s);
    lemma_of_group(s, 0);
    lemma_of_group(s, 1);
    lemma_of_group(s, 2);
    assert forall|g: int| 0 <= g < 3 implies #[trigger] of_group(by_group(s), g) == of_group(
        s,
        g,
    ) by {
        lemma_group_of_sum(of_group(s, 0) + of_group(s, 1), of_group(s, 2), g);
        lemma_group_of_sum(of_group(s, 0), of_group(s, 1), g);
        lemma_regroup(s, 0, g);
        lemma_regroup(s, 1, g);
        lemma_regroup(s, 2, g);
        assert(of_group(by_group(s), g) =~= of_group(s, g));
    }
}

/// A loaded audit shows its rows by severity, keeps the server's order within a
/// group, and holds exactly the rows that were read.
pub proof fn a_load_orders_by_severity(pre: Audit, read: AuditRead, post: Audit, out: Outcome)
    requires
        Audit::handled(pre, Action::AuditLoaded(Box::new(read)), post, out),
    ensures
        by_severity(post.rows@),
        forall|g: int|
            0 <= g < 3 ==> #[trigger] of_group(post.rows@, g) == of_group(read.segments@, g),
        post.rows@.len() == read.segments@.len(),
{
    lemma_by_group(read.segments@);
}

/// An acknowledgement shows the rows by severity, whatever flags it took, keeps
/// their order within a group, and holds exactly the rows that still have a flag.
pub proof fn an_acknowledgement_orders_by_severity(
    pre: Audit,
    ack: AuditAcknowledged,
    post: Audit,
    out: Outcome,
)
    requires
        Audit::handled(pre, Action::AuditAcknowledged(Box::new(ack)), post, out),
    ensures
        by_severity(post.rows@),
        forall|g: int|
            0 <= g < 3 ==> #[trigger] of_group(post.rows@, g) == of_group(
                still_flagged(reflagged(pre.rows@, ack.segment_id, ack.flags)),
                g,
            ),
        post.rows@.len() == still_flagged(
            reflagged(pre.rows@, ack.segment_id, ack.flags),
        ).len(),
{
    lemma_by_group(still_flagged(reflagged(pre.rows@, ack.segment_id, ack.flags)));
}

/// The rows stand by severity at every step.
pub proof fn the_rows_stay_by_severity(pre: Audit, action: Action, post: Audit, out: Outcome)
    requires
        by_severity(pre.rows@),
        Audit::handled(pre, action, post, out),
    ensures
        by_severity(post.rows@),
{
    match action {
        Action::AuditLoaded(read) => lemma_by_group(read.segments@),
        Action::AuditAcknowledged(ack) => lemma_by_group(
            still_flagged(reflagged(pre.rows@, ack.segment_id, ack.flags)),
        ),
        _ => {},
    }
}

/// Every row of a group has a flag where every row had one.
proof fn lemma_group_keeps_flags(rows: Seq<AuditSegment>, g: int)
    requires
        forall|i: int| 0 <= i < rows.len() ==> (#[trigger] rows[i]).flags@.len() > 0,
    ensures
        forall|i: int|
            0 <= i < of_group(rows, g).len() ==> (#[trigger] of_group(rows, g)[i]).flags@.len() > 0,
    decreases rows.len(),
{
    if rows.len() > 0 {
        let init = rows.drop_last();
        let before = of_group(init, g);
        assert forall|i: int| 0 <= i < init.len() implies (#[trigger] init[i]).flags@.len() > 0 by {
            assert(init[i] == rows[i]);
        }
        lemma_group_keeps_flags(init, g);
        assert(rows[rows.len() - 1].flags@.len() > 0);
        assert forall|i: int| 0 <= i < of_group(rows, g).len() implies (#[trigger] of_group(
            rows,
            g,
        )[i]).flags@.len() > 0 by {
            if i < before.len() {
                assert(of_group(rows, g)[i] == before[i]);
            }
        }
    }
}

/// The rows that are left all have a flag.
proof fn lemma_still_flagged(rows: Seq<AuditSegment>)
    ensures
        forall|i: int|
            0 <= i < still_flagged(rows).len() ==> (#[trigger] still_flagged(rows)[i]).flags@.len()
                > 0,
    decreases rows.len(),
{
    if rows.len() > 0 {
        lemma_still_flagged(rows.drop_last());
    }
}

/// After an acknowledgement every row on the list has a flag.
pub proof fn clean_rows_leave_the_list(pre: Audit, ack: AuditAcknowledged, post: Audit, out: Outcome)
    requires
        Audit::handled(pre, Action::AuditAcknowledged(Box::new(ack)), post, out),
    ensures
        forall|i: int| 0 <= i < post.rows@.len() ==> (#[trigger] post.rows@[i]).flags@.len() > 0,
{
    let left = still_flagged(reflagged(pre.rows@, ack.segment_id, ack.flags));
    lemma_still_flagged(reflagged(pre.rows@, ack.segment_id, ack.flags));
    lemma_group_keeps_flags(left, 0);
    lemma_group_keeps_flags(left, 1);
    lemma_group_keeps_flags(left, 2);
    assert forall|i: int| 0 <= i < post.rows@.len() implies (#[trigger] post.rows@[i]).flags@.len()
        > 0 by {
        let a = of_group(left, 0);
        let b = of_group(left, 1);
        if i < a.len() {
            assert(post.rows@[i] == a[i]);
        } else if i < a.len() + b.len() {
            assert(post.rows@[i] == b[i - a.len()]);
        } else {
            assert(post.rows@[i] == of_group(left, 2)[i - a.len() - b.len()]);
        }
    }
}

/// A deletion takes two presses in a row on one row.
pub proof fn deleting_takes_two_presses(
    a: Audit,
    b: Audit,
    c: Audit,
    x: Outcome,
    y: Outcome,
    row: AuditSegment,
)
    requires
        a.chosen() == Some(row),
        a.delete_armed != Some(row.id),
        Audit::handled(a, Action::AuditDelete, b, x),
        Audit::handled(b, Action::AuditDelete, c, y),
    ensures
        x.effects@.len() == 0,
        y.asks(
            seq![
                Effect::Call(
                    Request::DeleteSegment { activity_id: row.activity_id, segment_id: row.id },
                ),
            ],
        ),
        c.delete_armed is None,
{
}

/// Anything between two presses takes the first one back.
pub proof fn anything_else_disarms(a: Audit, action: Action, b: Audit, c: Audit, x: Outcome, y: Outcome)
    requires
        !(action is AuditDelete),
        Audit::handled(a, action, b, x),
        Audit::handled(b, Action::AuditDelete, c, y),
    ensures
        b.delete_armed is None,
        y.effects@.len() == 0,
{
}

/// A failed read invents no rows and is never shown as a clean log.
pub proof fn a_failure_is_no_clean_log(pre: Audit, reason: String, post: Audit, out: Outcome)
    requires
        pre.rows@.len() == 0,
        Audit::handled(pre, Action::AuditLoadFailed(reason), post, out),
    ensures
        post.rows@.len() == 0,
        post.panel_text() == panel_page(PanelModel::Failed(post.failure->0)),
        post.failure->0.of("the audit"@, reason),
{
}

/// A verb goes to the row under the cursor, whichever row that is.
pub proof fn a_verb_goes_to_the_selected_row(pre: Audit, action: Action, post: Audit, out: Outcome)
    requires
        pre.selected < pre.rows@.len(),
        Audit::handled(pre, action, post, out),
    ensures
        action is AuditAcknowledge ==> out.effects@ == seq![
            Effect::Call(Request::AcknowledgeSegment(pre.rows@[pre.selected as int].id)),
        ],
        action is AuditDelete && pre.delete_armed == Some(pre.rows@[pre.selected as int].id)
            ==> out.effects@ == seq![
            Effect::Call(
                Request::DeleteSegment {
                    activity_id: pre.rows@[pre.selected as int].activity_id,
                    segment_id: pre.rows@[pre.selected as int].id,
                },
            ),
        ],
        action is AuditDelete && pre.delete_armed != Some(pre.rows@[pre.selected as int].id)
            ==> out.effects@.len() == 0 && post.delete_armed == Some(
            pre.rows@[pre.selected as int].id,
        ),
        action is AuditFix ==> out.effects@ == seq![
            Effect::Send(Action::Goto(ScreenKind::Activities)),
        ],
        action is AuditAcknowledge || action is AuditDelete || action is AuditFix ==> post.rows
            == pre.rows && post.selected == pre.selected,
{
}

/// A trim goes to the row under the cursor and asks for exactly the fence, in minutes;
/// a row that is not too long, and a fence not known yet, trim nothing.
pub proof fn a_trim_cuts_the_selected_row_to_the_fence(
    pre: Audit,
    post: Audit,
    out: Outcome,
    long: bool,
)
    requires
        pre.selected < pre.rows@.len(),
        pre.long_fence_hours <= MAX_FENCE_HOURS,
        long <==> exists|k: int|
            0 <= k < pre.rows@[pre.selected as int].flags@.len() && (
            #[trigger] pre.rows@[pre.selected as int].flags@[k])@ == "too_long"@,
        Audit::handled(pre, Action::AuditTrim, post, out),
    ensures
        long && pre.long_fence_hours > 0 ==> out.effects@.len() == 1 && (
        out.effects@[0] matches Effect::Call(
            Request::TrimSegment { activity_id, segment_id, minutes },
        ) && activity_id == pre.rows@[pre.selected as int].activity_id && segment_id
            == pre.rows@[pre.selected as int].id && minutes == pre.long_fence_hours * 60),
        !long || pre.long_fence_hours == 0 ==> out.effects@.len() == 0 && out.note is Some,
        post.rows == pre.rows,
{
}

/// The fence is the one of the knobs that were read.
pub proof fn the_fence_is_the_knobs_own(
    pre: Audit,
    knobs: Box<TimerSettings>,
    post: Audit,
    out: Outcome,
)
    requires
        Audit::handled(pre, Action::SettingsLoaded(knobs), post, out),
    ensures
        post.long_fence_hours == knobs.audit_long_hours,
        post.rows == pre.rows,
        out.effects@.len() == 0,
{
}

/// A step lands on the row that far away, or on an end, and disarms.
pub proof fn a_step_walks_the_rows(pre: Audit, d: i32, post: Audit, out: Outcome)
    requires
        pre.selected < pre.rows@.len() <= usize::MAX,
        Audit::handled(pre, Action::AuditMove(d), post, out),
    ensures
        0 <= pre.selected + d < pre.rows@.len() ==> post.selected == pre.selected + d,
        pre.selected + d < 0 ==> post.selected == 0,
        pre.selected + d >= pre.rows@.len() ==> post.selected == pre.rows@.len() - 1,
        post.rows == pre.rows,
        post.delete_armed is None,
        out.effects@.len() == 0,
{
}

/// The groups by what they are for: a row that is too long comes first whatever else
/// is wrong with it, one near zero next, one that only lacks metadata last.
pub proof fn the_groups_by_their_flags(r: AuditSegment)
    ensures
        group(r) == 0 <==> exists|k: int|
            0 <= k < r.flags@.len() && (#[trigger] r.flags@[k])@ == "too_long"@,
        group(r) == 1 <==> (exists|k: int|
            0 <= k < r.flags@.len() && (#[trigger] r.flags@[k])@ == "near_zero"@) && !(exists|k: int|
            0 <= k < r.flags@.len() && (#[trigger] r.flags@[k])@ == "too_long"@),
        0 <= group(r) <= 2,
{
}

proof fn lemma_group_counts(rows: Seq<AuditSegment>, r: AuditSegment)
    ensures
        by_group(rows).to_multiset().count(r) == rows.to_multiset().count(r),
    decreases rows.len(),
{
    broadcast use vstd::seq_lib::group_to_multiset_ensures;

    let a = of_group(rows, 0);
    let b = of_group(rows, 1);
    let c = of_group(rows, 2);
    vstd::seq_lib::lemma_multiset_commutative(a + b, c);
    vstd::seq_lib::lemma_multiset_commutative(a, b);
    if rows.len() > 0 {
        let init = rows.drop_last();
        let last = rows.last();
        lemma_group_counts(init, r);
        let d = of_group(init, 0);
        let e = of_group(init, 1);
        let f = of_group(init, 2);
        vstd::seq_lib::lemma_multiset_commutative(d + e, f);
        vstd::seq_lib::lemma_multiset_commutative(d, e);
        assert(init.push(last) =~= rows);
        assert(rows.to_multiset() =~= init.to_multiset().insert(last));
        if group(last) == 0 {
            assert(a =~= d.push(last));
            assert(a.to_multiset() =~= d.to_multiset().insert(last));
        } else if group(last) == 1 {
            assert(b =~= e.push(last));
            assert(b.to_multiset() =~= e.to_multiset().insert(last));
        } else {
            assert(c =~= f.push(last));
            assert(c.to_multiset() =~= f.to_multiset().insert(last));
        }
    } else {
        assert(by_group(rows) =~= rows);
    }
}

/// A loaded audit shows exactly the rows that were read, each as often as it was.
pub proof fn a_load_keeps_every_row(pre: Audit, read: AuditRead, post: Audit, out: Outcome)
    requires
        Audit::handled(pre, Action::AuditLoaded(Box::new(read)), post, out),
    ensures
        post.rows@.to_multiset() == read.segments@.to_multiset(),
        post.audit_count == read.audit_count,
        post.failure is None,
        !post.loading,
{
    assert forall|r: AuditSegment| #[trigger] post.rows@.to_multiset().count(r)
        == read.segments@.to_multiset().count(r) by {
        lemma_group_counts(read.segments@, r);
    }
    assert(post.rows@.to_multiset() =~= read.segments@.to_multiset());
}

proof fn lemma_still_flagged_has(rows: Seq<AuditSegment>, k: int)
    requires
        0 <= k < rows.len(),
        rows[k].flags@.len() > 0,
    ensures
        still_flagged(rows).contains(rows[k]),
    decreases rows.len(),
{
    let all = still_flagged(rows);
    if k < rows.len() - 1 {
        let init = rows.drop_last();
        lemma_still_flagged_has(init, k);
        let before = still_flagged(init);
        let i = choose|i: int| 0 <= i < before.len() && before[i] == init[k];
        assert(all[i] == rows[k]);
    } else {
        assert(all[all.len() - 1] == rows[k]);
    }
}

proof fn lemma_grouped_has(rows: Seq<AuditSegment>, r: AuditSegment)
    requires
        rows.contains(r),
    ensures
        by_group(rows).contains(r),
{
    broadcast use vstd::seq_lib::group_to_multiset_ensures;

    lemma_group_counts(rows, r);
    assert(rows.to_multiset().count(r) > 0);
}

/// An acknowledgement touches the row it is for and no other: every other row with a
/// flag stays as it was, and that row stays with the flags that are left, where any
/// are. The count is the server's.
pub proof fn an_acknowledgement_touches_its_row_alone(
    pre: Audit,
    ack: AuditAcknowledged,
    post: Audit,
    out: Outcome,
    k: int,
)
    requires
        0 <= k < pre.rows@.len(),
        forall|i: int, j: int|
            0 <= i < j < pre.rows@.len() ==> (#[trigger] pre.rows@[i]).id != (
            #[trigger] pre.rows@[j]).id,
        Audit::handled(pre, Action::AuditAcknowledged(Box::new(ack)), post, out),
    ensures
        post.audit_count == ack.audit_count,
        pre.rows@[k].id != ack.segment_id && pre.rows@[k].flags@.len() > 0 ==> post.rows@.contains(
            pre.rows@[k],
        ),
        pre.rows@[k].id == ack.segment_id && ack.flags@.len() > 0 ==> post.rows@.contains(
            AuditSegment { flags: ack.flags, ..pre.rows@[k] },
        ),
        (out.note matches Some(n) && n.0 == Level::Success),
{
    let ids = row_ids(pre.rows@);
    let next = reflagged(pre.rows@, ack.segment_id, ack.flags);
    ids.index_of_first_ensures(ack.segment_id);
    assert(ids[k] == pre.rows@[k].id);
    if pre.rows@[k].id == ack.segment_id {
        assert(ids.contains(ack.segment_id));
        let i = ids.index_of_first(ack.segment_id)->0;
        assert(ids[i] == pre.rows@[i].id);
        assert(i == k);
        if ack.flags@.len() > 0 {
            assert(next[k] == AuditSegment { flags: ack.flags, ..pre.rows@[k] });
            lemma_still_flagged_has(next, k);
            lemma_grouped_has(still_flagged(next), next[k]);
        }
    } else if pre.rows@[k].flags@.len() > 0 {
        assert(next[k] == pre.rows@[k]);
        lemma_still_flagged_has(next, k);
        lemma_grouped_has(still_flagged(next), next[k]);
    }
}

/// What became of a row write is said, and the log is read again exactly where the row
/// was changed.
pub proof fn how_a_row_write_is_answered(
    reply: Result<(), Fault>,
    minutes: u32,
    cut: Vec<Action>,
    gone: Vec<Action>,
)
    requires
        call_ensures(trimmed, (reply, minutes), cut),
        call_ensures(deleted, (reply,), gone),
    ensures
        reply is Ok ==> cut@.len() == 2 && gone@.len() == 2 && cut@[0] is AuditReload && gone@[0]
            is AuditReload && (cut@[1] matches Action::Notify { level, .. } && level
            == Level::Success) && (gone@[1] matches Action::Notify { level, .. } && level
            == Level::Success),
        reply is Err ==> cut@.len() == 1 && gone@.len() == 1 && (
        cut@[0] matches Action::Notify { level, .. } && level == Level::Error) && (
        gone@[0] matches Action::Notify { level, .. } && level == Level::Error),
{
}

/// A row shows its own segment: the activity's title, how long it was, and its flags; the
/// row under the cursor is marked.
pub proof fn a_row_shows_its_segment(r: AuditSegment, selected: bool)
    ensures
        ({
            let row = Audit::row_text(r, selected);
            &&& row.len() == 3
            &&& r.activity_title matches Some(t) ==> row[1].1 == t@
            &&& r.activity_title is None ==> row[1].1 == "Untitled timer"@
            &&& row[2].1 == "   "@ + or_empty(r.formatted_duration) + "  "@ + spaced(
                joined(texts(r.flags@), " · "@),
            )
            &&& row[0].1 == (if selected {
                "▌ "@
            } else {
                "  "@
            })
        }),
{
}

/// The heading of a group counts its rows, and the group of long ones names the fence.
pub proof fn a_heading_counts_its_group(s: Audit, g: int)
    requires
        0 <= g < 3,
    ensures
        s.heading_text(g).len() == 2,
        g == 0 ==> s.heading_text(g)[0].1 == "IMPLAUSIBLY LONG"@ + " "@ + decimal(
            of_group(s.rows@, 0).len(),
        ) && s.heading_text(g)[1].1 == "   "@ + ("over ~"@ + decimal(s.long_fence_hours as nat)
            + "h (your long fence) · t trim · a looks right"@),
        g == 1 ==> s.heading_text(g)[0].1 == "ZERO / NEAR-ZERO"@ + " "@ + decimal(
            of_group(s.rows@, 1).len(),
        ),
        g == 2 ==> s.heading_text(g)[0].1 == "MISSING METADATA"@ + " "@ + decimal(
            of_group(s.rows@, 2).len(),
        ),
{
}

/// What was read reaches the audit as it came, a failure in its words, a refused session the
/// sign-in; knobs that could not be read are passed over.
pub proof fn a_read_reaches_the_audit(
    read: Result<Box<AuditRead>, (Fault, String)>,
    knobs: Result<Box<TimerSettings>, Fault>,
    ack: Result<Box<AuditAcknowledged>, Fault>,
    a: Action,
    b: Option<Action>,
    c: Action,
)
    requires
        call_ensures(audit_read, (read,), a),
        call_ensures(knobs_read, (knobs,), b),
        call_ensures(acknowledgement, (ack,), c),
    ensures
        read matches Ok(r) ==> a == Action::AuditLoaded(r),
        read is Err && read->Err_0.0.kind is Unauthorized ==> a is SessionExpired,
        read is Err && !(read->Err_0.0.kind is Unauthorized) ==> a == Action::AuditLoadFailed(
            read->Err_0.1,
        ),
        knobs matches Ok(k) ==> b == Some(Action::SettingsLoaded(k)),
        knobs is Err ==> b is None,
        ack matches Ok(k) ==> c == Action::AuditAcknowledged(k),
        ack is Err ==> (c matches Action::Notify { level, text } && level == Level::Error && text@
            == "acknowledge failed: "@ + ack->Err_0.shown@),
{
}

/// A fresh list, and one that an acknowledgement shortened, keep the cursor on its row where
/// that row is there, and else put it on the last one.
pub proof fn the_cursor_keeps_its_row(pre: Audit, action: Action, post: Audit, out: Outcome)
    requires
        action is AuditLoaded || action is AuditAcknowledged,
        post.rows@.len() <= usize::MAX,
        Audit::handled(pre, action, post, out),
    ensures
        pre.selected < post.rows@.len() ==> post.selected == pre.selected,
        pre.selected >= post.rows@.len() && post.rows@.len() > 0 ==> post.selected
            == post.rows@.len() - 1,
        post.rows@.len() == 0 ==> post.selected == 0,
{
    if let Action::AuditLoaded(read) = action {
        lemma_by_group(read.segments@);
    }
}

/// What is said of an acknowledgement is whether anything is left to fix.
pub proof fn an_acknowledgement_says_what_is_left(
    pre: Audit,
    ack: AuditAcknowledged,
    post: Audit,
    out: Outcome,
)
    requires
        Audit::handled(pre, Action::AuditAcknowledged(Box::new(ack)), post, out),
    ensures
        out.note is Some,
        ack.flags@.len() == 0 ==> (out.note->0).1@ == "looks right — flags cleared for good"@,
        ack.flags@.len() > 0 ==> (out.note->0).1@
            == "duration flags cleared — metadata still needs a fix"@,
        out.effects@.len() == 0,
{
}

/// A reload reads the audit.
pub proof fn a_reload_reads_the_audit(pre: Audit, post: Audit, out: Outcome)
    requires
        Audit::handled(pre, Action::AuditReload, post, out),
    ensures
        out.effects@ == seq![Effect::Call(Request::LoadAudit)],
        post.rows == pre.rows,
        post.loading,
{
}

/// The title counts the flags while there are any.
pub proof fn the_title_counts_the_flags(s: Audit)
    ensures
        s.audit_count == 0 ==> s.title_text() == "Segment audit"@,
        s.audit_count > 0 ==> s.title_text() == "Segment audit · "@ + decimal(
            s.audit_count as nat,
        ) + " flagged"@,
{
}

/// Every field keeps its value but through the actions that are about it.
pub proof fn what_an_action_leaves_alone(
    pre: Audit,
    action: Action,
    post: Audit,
    out: Outcome,
)
    requires
        Audit::handled(pre, action, post, out),
    ensures
        post.audit_count == pre.audit_count || action is AuditLoaded || action is AuditAcknowledged,
        post.rows == pre.rows || action is AuditLoaded || action is AuditAcknowledged,
        post.selected == pre.selected || action is AuditLoaded || action is AuditMove
            || action is AuditAcknowledged,
        post.loading == pre.loading || action is AuditLoaded || action is AuditLoadFailed
            || action is AuditReload,
        post.failure == pre.failure || action is AuditLoaded || action is AuditLoadFailed,
        post.long_fence_hours == pre.long_fence_hours || action is SettingsLoaded,
{
}

/// Only these actions say something, and only these send something; a read under way is
/// marked until it is answered.
pub proof fn which_actions_are_heard(
    pre: Audit,
    action: Action,
    post: Audit,
    out: Outcome,
)
    requires
        Audit::handled(pre, action, post, out),
    ensures
        out.note is None || action is AuditAcknowledged || action is AuditTrim
            || action is AuditDelete || action is AuditFix,
        out.effects@.len() == 0 || action is AuditReload || action is AuditAcknowledge
            || action is AuditTrim || action is AuditDelete || action is AuditFix,
        out.effects@.len() <= 1,
        action is AuditReload ==> post.loading,
        (action is AuditLoaded || action is AuditLoadFailed) ==> !post.loading,
{
}

/// What a gesture on a row says: why it is not trimmed, what the second press would
/// delete, and where a fix is made.
pub proof fn what_a_gesture_on_a_row_is_told(
    pre: Audit,
    trim: Outcome,
    del: Outcome,
    fix: Outcome,
    a: Audit,
    b: Audit,
    c: Audit,
)
    requires
        pre.selected < pre.rows@.len(),
        Audit::handled(pre, Action::AuditTrim, a, trim),
        Audit::handled(pre, Action::AuditDelete, b, del),
        Audit::handled(pre, Action::AuditFix, c, fix),
    ensures
        pre.long_fence_hours == 0 ==> trim.note is Some && (trim.note->0).0 == Level::Warning && (
        trim.note->0).1@ == "trim needs the audit fence — settings still loading"@,
        pre.long_fence_hours > 0 && !flagged(
            pre.rows@[pre.selected as int].flags@,
            "too_long"@,
        ) ==> trim.note is Some && (trim.note->0).0 == Level::Warning && (trim.note->0).1@
            == "trim is for implausibly long segments — this row isn't one"@,
        pre.delete_armed != Some(pre.rows@[pre.selected as int].id) ==> del.note is Some && (
        del.note->0).0 == Level::Warning && (del.note->0).1@ == "delete this "@ + or_empty(
            pre.rows@[pre.selected as int].formatted_duration,
        ) + " segment? `d` again to confirm"@,
        fix.note is Some,
        (fix.note->0).0 == Level::Info,
        pre.rows@[pre.selected as int].activity_title matches Some(t) ==> (fix.note->0).1@
            == "fix routes to Activities — find \""@ + t@ + "\" and press e"@,
        fix.effects@ == seq![Effect::Send(Action::Goto(ScreenKind::Activities))],
        c.rows == pre.rows,
{
}

/// The screen starts empty, with nothing armed and the fence not known.
pub proof fn how_the_screen_starts(s: Audit)
    requires
        call_ensures(Audit::default, (), s),
    ensures
        s.audit_count == 0,
        s.rows@.len() == 0,
        s.selected == 0,
        !s.loading,
        s.failure is None,
        s.delete_armed is None,
        s.long_fence_hours == 0,
{
}

} // verus!
