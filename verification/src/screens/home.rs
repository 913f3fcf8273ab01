//! Home: the day at a glance.

use crate::action::{Action, Effect, Outcome, Request};
use crate::clock::{clock_face, face_text, live_elapsed, live_seconds};
use crate::dates::{day_text, day_text_of, format_minutes, minutes_text, month_day, month_day_of};
use crate::line::{no_lines, page, push_line, Line, Tone};
use crate::model::{
    BookStatus, Fault, FaultKind, PanelFailure, PlanItem, ReadingBook, Task, Timer, Today,
};
use crate::panel::{PanelModel, PanelState};
use crate::screens::inbox::{expires_soon, soon};
use crate::text::{
    cat2, cat3, cat4, cat5, cat6, chars_of, decimal, or_empty, own, pad, padded, same, show, spell,
    text_or_empty, uppercase, uppercase_of,
};
use vstd::prelude::*;

verus! {

/// The home screen.
#[derive(Debug)]
pub struct Home {
    pub today: Option<Today>,
    /// When the day was read, on the monotonic clock in milliseconds.
    pub loaded_at: Option<u64>,
    pub loading: bool,
    pub inbox_pending: usize,
    pub inbox_expiring: bool,
    pub failure: Option<PanelFailure>,
}

impl Default for Home {
    fn default() -> (res: Self)
        ensures
            res.fresh(),
    {
        Home {
            today: None,
            loaded_at: None,
            loading: false,
            inbox_pending: 0,
            inbox_expiring: false,
            failure: None,
        }
    }
}

/// The two reads that fill the screen.
pub open spec fn reads() -> Seq<Effect> {
    seq![Effect::Call(Request::LoadToday), Effect::Call(Request::CountDrafts)]
}

fn read_effects() -> (res: Vec<Effect>)
    ensures
        res@ == reads(),
{
    let mut out: Vec<Effect> = Vec::new();
    out.push(Effect::Call(Request::LoadToday));
    out.push(Effect::Call(Request::CountDrafts));
    assert(out@ =~= reads());
    out
}

impl Home {
    /// A screen that has read nothing.
    pub open spec fn fresh(self) -> bool {
        &&& self.today is None
        &&& self.loaded_at is None
        &&& !self.loading
        &&& self.inbox_pending == 0
        &&& !self.inbox_expiring
        &&& self.failure is None
    }

    /// How the screen answers an action at `millis`.
    pub open spec fn handled(
        pre: Self,
        action: Action,
        millis: u64,
        post: Self,
        out: Outcome,
    ) -> bool {
        match action {
            Action::TodayLoaded(today) => {
                &&& post == Home {
                    today: Some(*today),
                    loaded_at: Some(millis),
                    loading: false,
                    failure: None,
                    ..pre
                }
                &&& out.quiet()
            },
            Action::HomeLoadFailed(reason) => {
                &&& post == Home { loading: false, failure: post.failure, ..pre }
                &&& post.failure is Some
                &&& post.failure->0.of("today"@, reason)
                &&& out.quiet()
            },
            Action::HomeInboxLoaded { pending, expiring } => {
                &&& post == Home { inbox_pending: pending, inbox_expiring: expiring, ..pre }
                &&& out.quiet()
            },
            Action::RefreshHome => {
                &&& post == Home { loading: true, ..pre }
                &&& out.asks(reads())
            },
            _ => post == pre && out.quiet(),
        }
    }

    /// Entering the screen reads the day and counts the drafts.
    pub fn on_enter(&mut self) -> (out: Vec<Effect>)
        ensures
            *final(self) == (Home { loading: true, ..*old(self) }),
            out@ == reads(),
    {
        self.loading = true;
        read_effects()
    }

    /// How the screen answers an action at `millis`.
    pub fn handle(&mut self, action: Action, millis: u64) -> (out: Outcome)
        ensures
            Self::handled(*old(self), action, millis, *final(self), out),
    {
        match action {
            Action::TodayLoaded(today) => {
                self.today = Some(*today);
                self.loaded_at = Some(millis);
                self.loading = false;
                self.failure = None;
            },
            Action::HomeLoadFailed(reason) => {
                self.loading = false;
                self.failure = Some(PanelFailure::new("today", reason));
            },
            Action::HomeInboxLoaded { pending, expiring } => {
                self.inbox_pending = pending;
                self.inbox_expiring = expiring;
            },
            Action::RefreshHome => {
                self.loading = true;
                return Outcome { note: None, effects: read_effects() };
            },
            _ => {},
        }
        Outcome::none()
    }

    // ---- what the panels say ----

    /// Why there is no day to show; none where there is.
    pub open spec fn panel_model(self) -> Option<PanelModel> {
        if self.today is Some {
            None
        } else {
            Some(
                match self.failure {
                    Some(f) => PanelModel::Failed(f),
                    None => PanelModel::Loading,
                },
            )
        }
    }

    /// Why there is no day to show; none where there is.
    pub fn panel_state(&self) -> (res: Option<PanelState>)
        ensures
            res is Some <==> self.panel_model() is Some,
            res matches Some(s) ==> s@ == self.panel_model()->0,
    {
        if self.today.is_some() {
            return None;
        }
        match &self.failure {
            Some(f) => Some(PanelState::Failed(f)),
            None => Some(PanelState::Loading),
        }
    }

    /// The chip that counts the drafts; none where there are none. A draft near
    /// its expiry makes it louder.
    pub open spec fn chip_text(self) -> Option<Seq<(Tone, Seq<char>)>> {
        if self.inbox_pending == 0 {
            None
        } else {
            let (glyph, tone) = if self.inbox_expiring {
                ("▾ "@, Tone::WarnBold)
            } else {
                ("◧ "@, Tone::Muted)
            };
            Some(
                seq![
                    (tone, glyph),
                    (tone, "inbox "@ + decimal(self.inbox_pending as nat)),
                    (Tone::Focused, "  i →"@),
                ],
            )
        }
    }

    /// The chip that counts the drafts.
    pub fn chip(&self) -> (res: Option<Line>)
        ensures
            match self.chip_text() {
                Some(t) => res is Some && res->0@ == t,
                None => res is None,
            },
    {
        if self.inbox_pending == 0 {
            return None;
        }
        let (glyph, tone) = if self.inbox_expiring {
            ("▾ ", Tone::WarnBold)
        } else {
            ("◧ ", Tone::Muted)
        };
        let count = show(self.inbox_pending as u64);
        let line = Line::of(tone, own(glyph)).with(tone, cat2("inbox ", count.as_str())).with(
            Tone::Focused,
            own("  i →"),
        );
        assert(line@ =~= self.chip_text()->0);
        Some(line)
    }
}

/// The line of the lead band where no timer runs.
pub open spec fn no_timer_text() -> Seq<(Tone, Seq<char>)> {
    seq![(Tone::Muted, "○ "@), (Tone::MutedBold, "no timer"@), (Tone::Muted, "   ⎵ t start"@)]
}

/// The line of the lead band where no timer runs.
pub fn no_timer_line() -> (res: Line)
    ensures
        res@ == no_timer_text(),
{
    let line = Line::of(Tone::Muted, own("○ ")).with(Tone::MutedBold, own("no timer")).with(
        Tone::Muted,
        own("   ⎵ t start"),
    );
    assert(line@ =~= no_timer_text());
    line
}

/// The first line of the lead band at `now`: the timer's clock as the header shows
/// it, ticked on from when the day was read, or that no timer runs.
pub open spec fn lead_text(timer: Timer, loaded_at: Option<u64>, now: u64) -> Seq<
    (Tone, Seq<char>),
> {
    match face_text(timer, live_seconds(timer, loaded_at, now), false, false) {
        Some(t) => t,
        None => no_timer_text(),
    }
}

/// The first line of the lead band at `now`.
pub fn lead_line(timer: &Timer, loaded_at: Option<u64>, now: u64) -> (res: Line)
    ensures
        res@ == lead_text(*timer, loaded_at, now),
{
    match clock_face(timer, live_elapsed(timer, loaded_at, now), false, false) {
        Some(face) => face,
        None => no_timer_line(),
    }
}

/// How the week stands: on pace, or the target furthest behind.
pub open spec fn pace_text(today: Today) -> Seq<(Tone, Seq<char>)> {
    match today.pace {
        None => seq![
            (Tone::Success, "✓ "@),
            (Tone::SuccessBold, "This week · on pace"@),
            (Tone::Muted, "   nothing behind — the quiet state"@),
        ],
        Some(p) => seq![
            (Tone::Muted, padded(p.scope_name@, 10)),
            (Tone::OnWarn, " behind "@ + p.hours@ + "h "@),
            (
                Tone::Muted,
                "   worst of "@ + decimal(p.behind_count as nat) + " targets trailing"@,
            ),
            (Tone::Focused, "   g p → Progress"@),
        ],
    }
}

/// How the week stands.
pub fn pace_line(today: &Today) -> (res: Line)
    ensures
        res@ == pace_text(*today),
{
    match &today.pace {
        None => {
            let line = Line::of(Tone::Success, own("✓ ")).with(
                Tone::SuccessBold,
                own("This week · on pace"),
            ).with(Tone::Muted, own("   nothing behind — the quiet state"));
            assert(line@ =~= pace_text(*today));
            line
        },
        Some(p) => {
            let count = show(p.behind_count as u64);
            let line = Line::of(Tone::Muted, pad(p.scope_name.as_str(), 10)).with(
                Tone::OnWarn,
                cat3(" behind ", p.hours.as_str(), "h "),
            ).with(
                Tone::Muted,
                cat3("   worst of ", count.as_str(), " targets trailing"),
            ).with(Tone::Focused, own("   g p → Progress"));
            assert(line@ =~= pace_text(*today));
            line
        },
    }
}

/// A text with its first letter in upper case.
pub open spec fn titled(s: Seq<char>) -> Seq<char> {
    if s.len() == 0 {
        s
    } else {
        uppercase_of(s[0]) + s.skip(1)
    }
}

/// A text with its first letter in upper case.
pub fn title_case(s: &str) -> (res: String)
    ensures
        res@ == titled(s@),
{
    let v = chars_of(s);
    if v.len() == 0 {
        assert(s@ =~= Seq::<char>::empty());
        return String::new();
    }
    let n: usize = v.len();
    let rest = spell(&v, 1, n);
    assert(s@.skip(1) =~= v@.subrange(1, n as int));
    cat2(uppercase(v[0]).as_str(), rest.as_str())
}

/// The day in words: the weekday, the date and the week.
pub open spec fn date_text(today: Today) -> Seq<char> {
    titled(today.weekday@) + " · "@ + day_text_of(today.day, "%b"@) + " "@ + decimal(
        month_day_of(today.day) as nat,
    ) + " · "@ + today.week@
}

/// The day in words.
pub fn date_line(today: &Today) -> (res: String)
    ensures
        res@ == date_text(*today),
{
    let weekday = title_case(today.weekday.as_str());
    let month = day_text(today.day, "%b");
    let day = show(month_day(today.day) as u64);
    let head = cat4(weekday.as_str(), " · ", month.as_str(), " ");
    cat4(head.as_str(), day.as_str(), " · ", today.week.as_str())
}

// ---- the plan ----

/// How many items are in a state.
pub open spec fn in_state(items: Seq<PlanItem>, state: Seq<char>) -> nat
    decreases items.len(),
{
    if items.len() == 0 {
        0
    } else {
        in_state(items.drop_last(), state) + (if items.last().state@ == state {
            1nat
        } else {
            0nat
        })
    }
}

/// The minutes logged on the items.
pub open spec fn logged(items: Seq<PlanItem>) -> nat
    decreases items.len(),
{
    if items.len() == 0 {
        0
    } else {
        logged(items.drop_last()) + items.last().logged_minutes as nat
    }
}

/// The minutes the items were planned for.
pub open spec fn planned(items: Seq<PlanItem>) -> nat
    decreases items.len(),
{
    if items.len() == 0 {
        0
    } else {
        planned(items.drop_last()) + items.last().size_minutes as nat
    }
}

/// Whether the minutes of a plan can be summed.
pub open spec fn summable(today: Today) -> bool {
    logged(today.plan@) <= u32::MAX && planned(today.plan@) <= u32::MAX
}

proof fn lemma_sums_grow(items: Seq<PlanItem>, i: int)
    requires
        0 <= i <= items.len(),
    ensures
        logged(items.take(i)) <= logged(items),
        planned(items.take(i)) <= planned(items),
    decreases items.len() - i,
{
    if i < items.len() {
        assert(items.take(i + 1).drop_last() =~= items.take(i));
        lemma_sums_grow(items, i + 1);
    } else {
        assert(items.take(i) =~= items);
    }
}

/// Whether the minutes of a plan can be summed.
pub fn sums_fit(today: &Today) -> (res: bool)
    ensures
        res == summable(*today),
{
    let mut done: u32 = 0;
    let mut size: u32 = 0;
    let mut i: usize = 0;
    while i < today.plan.len()
        invariant
            i <= today.plan.len(),
            done == logged(today.plan@.take(i as int)),
            size == planned(today.plan@.take(i as int)),
        decreases today.plan.len() - i,
    {
        proof {
            let here = today.plan@.take(i as int + 1);
            assert(here.drop_last() =~= today.plan@.take(i as int));
            assert(here.last() == today.plan@[i as int]);
            lemma_sums_grow(today.plan@, i as int + 1);
        }
        let l: u32 = today.plan[i].logged_minutes;
        let s: u32 = today.plan[i].size_minutes;
        if l > u32::MAX - done || s > u32::MAX - size {
            return false;
        }
        done = done + l;
        size = size + s;
        i = i + 1;
    }
    assert(today.plan@.take(today.plan@.len() as int) =~= today.plan@);
    true
}

fn count_state(items: &Vec<PlanItem>, state: &str) -> (res: usize)
    ensures
        res == in_state(items@, state@),
{
    let mut n: usize = 0;
    let mut i: usize = 0;
    while i < items.len()
        invariant
            n <= i <= items.len(),
            n == in_state(items@.take(i as int), state@),
        decreases items.len() - i,
    {
        proof {
            let here = items@.take(i as int + 1);
            assert(here.drop_last() =~= items@.take(i as int));
            assert(here.last() == items@[i as int]);
        }
        if same(items[i].state.as_str(), state) {
            n = n + 1;
        }
        i = i + 1;
    }
    assert(items@.take(items@.len() as int) =~= items@);
    n
}

fn sums(today: &Today) -> (res: (u32, u32))
    requires
        summable(*today),
    ensures
        res.0 == logged(today.plan@),
        res.1 == planned(today.plan@),
{
    let mut done: u32 = 0;
    let mut size: u32 = 0;
    let mut i: usize = 0;
    while i < today.plan.len()
        invariant
            i <= today.plan.len(),
            summable(*today),
            done == logged(today.plan@.take(i as int)),
            size == planned(today.plan@.take(i as int)),
        decreases today.plan.len() - i,
    {
        proof {
            let here = today.plan@.take(i as int + 1);
            assert(here.drop_last() =~= today.plan@.take(i as int));
            assert(here.last() == today.plan@[i as int]);
            lemma_sums_grow(today.plan@, i as int + 1);
        }
        done = done + today.plan[i].logged_minutes;
        size = size + today.plan[i].size_minutes;
        i = i + 1;
    }
    assert(today.plan@.take(today.plan@.len() as int) =~= today.plan@);
    (done, size)
}

/// The plan's title: how many items are done, live and left, and the minutes.
pub open spec fn plan_title_text(today: Today) -> Seq<char> {
    if today.plan@.len() == 0 {
        "Today's plan"@
    } else {
        "Today's plan · "@ + decimal(in_state(today.plan@, "done"@)) + " done · "@ + decimal(
            in_state(today.plan@, "live"@),
        ) + " live · "@ + decimal(today.left_count as nat) + " left · "@ + decimal(
            logged(today.plan@),
        ) + "m logged / "@ + decimal(planned(today.plan@)) + "m planned"@
    }
}

/// The plan's title.
pub fn plan_title(today: &Today) -> (res: String)
    requires
        summable(*today),
    ensures
        res@ == plan_title_text(*today),
{
    if today.plan.len() == 0 {
        return own("Today's plan");
    }
    let done = show(count_state(&today.plan, "done") as u64);
    let live = show(count_state(&today.plan, "live") as u64);
    let left = show(today.left_count as u64);
    let (l, p) = sums(today);
    let logged = show(l as u64);
    let planned = show(p as u64);
    let head = cat5("Today's plan · ", done.as_str(), " done · ", live.as_str(), " live · ");
    cat6(
        head.as_str(),
        left.as_str(),
        " left · ",
        logged.as_str(),
        "m logged / ",
        cat2(planned.as_str(), "m planned").as_str(),
    )
}

/// What an empty plan invites to.
pub open spec fn open_day_page() -> Seq<Seq<(Tone, Seq<char>)>> {
    seq![
        seq![(Tone::Plain, "Nothing planned for today."@)],
        seq![(Tone::Muted, "the day is open — ⎵ p plan it, or ⎵ t just start a timer"@)],
    ]
}

/// What an empty plan invites to.
pub fn open_day_lines() -> (res: Vec<Line>)
    ensures
        page(res@) == open_day_page(),
{
    let mut lines = no_lines();
    push_line(&mut lines, Line::of(Tone::Plain, own("Nothing planned for today.")));
    push_line(
        &mut lines,
        Line::of(Tone::Muted, own("the day is open — ⎵ p plan it, or ⎵ t just start a timer")),
    );
    assert(page(lines@) =~= open_day_page());
    lines
}

/// The glyph of a state.
pub open spec fn glyph_text(state: Seq<char>) -> (Tone, Seq<char>) {
    if state == "done"@ {
        (Tone::Success, "✓"@)
    } else if state == "live"@ {
        (Tone::Success, "●"@)
    } else if state == "left"@ {
        (Tone::Warn, "·"@)
    } else {
        (Tone::Muted, "○"@)
    }
}

/// The glyph of a state.
pub fn state_glyph(state: &str) -> (res: (Tone, &'static str))
    ensures
        (res.0, res.1@) == glyph_text(state@),
{
    if same(state, "done") {
        (Tone::Success, "✓")
    } else if same(state, "live") {
        (Tone::Success, "●")
    } else if same(state, "left") {
        (Tone::Warn, "·")
    } else {
        (Tone::Muted, "○")
    }
}

/// A row of the plan, cell by cell: the glyph, the kind, the title with where it
/// was moved from, and the minutes.
pub open spec fn plan_cells(item: PlanItem) -> Seq<Seq<(Tone, Seq<char>)>> {
    seq![
        seq![glyph_text(item.state@)],
        seq![(Tone::Muted, or_empty(item.kind))],
        match item.moved_from {
            Some(from) => seq![
                (Tone::Plain, item.title@),
                (Tone::Muted, "  moved from "@ + from@),
            ],
            None => seq![(Tone::Plain, item.title@)],
        },
        seq![
            (
                Tone::Muted,
                decimal(item.logged_minutes as nat) + " / "@ + decimal(item.size_minutes as nat)
                    + "m"@,
            ),
        ],
    ]
}

/// A row of the plan, cell by cell.
pub fn plan_row(item: &PlanItem) -> (res: Vec<Line>)
    ensures
        page(res@) == plan_cells(*item),
{
    let (tone, glyph) = state_glyph(item.state.as_str());
    let mut cells = no_lines();
    push_line(&mut cells, Line::of(tone, own(glyph)));
    push_line(&mut cells, Line::of(Tone::Muted, text_or_empty(&item.kind)));
    let title = Line::of(Tone::Plain, item.title.clone());
    match &item.moved_from {
        Some(from) => push_line(
            &mut cells,
            title.with(Tone::Muted, cat2("  moved from ", from.as_str())),
        ),
        None => push_line(&mut cells, title),
    }
    let done = show(item.logged_minutes as u64);
    let size = show(item.size_minutes as u64);
    push_line(
        &mut cells,
        Line::of(Tone::Muted, cat4(done.as_str(), " / ", size.as_str(), "m")),
    );
    assert(page(cells@) =~~= plan_cells(*item));
    cells
}

// ---- the strip and the books ----

/// The strip of numbers: what was logged, what is due for review, what is left.
pub open spec fn stats_text(today: Today) -> Seq<(Tone, Seq<char>)> {
    seq![
        (Tone::Muted, "logged today  "@),
        (Tone::Bold, minutes_text(today.logged_minutes as nat)),
        (Tone::Muted, "   ·   "@),
        (Tone::Muted, "review  "@),
        (Tone::Bold, decimal(today.due_count as nat) + " due"@),
        (Tone::Warn, " · "@ + decimal(today.stale_count as nat) + " stale"@),
        (Tone::Muted, " · ~"@ + decimal(today.est_minutes as nat) + "m"@),
        (Tone::Focused, "  g r →"@),
        (Tone::Muted, "   ·   "@),
        (Tone::Muted, "left to plan  "@),
        (Tone::Bold, decimal(today.left_count as nat) + " items"@),
    ]
}

/// The strip of numbers.
pub fn stats_line(today: &Today) -> (res: Line)
    ensures
        res@ == stats_text(*today),
{
    let due = show(today.due_count as u64);
    let stale = show(today.stale_count as u64);
    let est = show(today.est_minutes as u64);
    let left = show(today.left_count as u64);
    let line = Line::of(Tone::Muted, own("logged today  ")).with(
        Tone::Bold,
        format_minutes(today.logged_minutes),
    ).with(Tone::Muted, own("   ·   ")).with(Tone::Muted, own("review  ")).with(
        Tone::Bold,
        cat2(due.as_str(), " due"),
    ).with(Tone::Warn, cat3(" · ", stale.as_str(), " stale")).with(
        Tone::Muted,
        cat3(" · ~", est.as_str(), "m"),
    ).with(Tone::Focused, own("  g r →")).with(Tone::Muted, own("   ·   ")).with(
        Tone::Muted,
        own("left to plan  "),
    ).with(Tone::Bold, cat2(left.as_str(), " items"));
    assert(line@ =~= stats_text(*today));
    line
}

/// The title of the books in progress.
pub fn reading_title(today: &Today) -> (res: String)
    ensures
        res@ == "Mid-chapter · "@ + decimal(today.reading@.len()) + " books"@,
{
    cat3("Mid-chapter · ", show(today.reading.len() as u64).as_str(), " books")
}

/// The heading of a book in progress: the pill, the title, the author, and the
/// chapter that comes next.
pub open spec fn book_text(b: ReadingBook) -> Seq<(Tone, Seq<char>)> {
    seq![
        (BookStatus::Reading.tone(), BookStatus::Reading.pill_text()),
        (Tone::Plain, "  "@),
        (Tone::Bold, b.title@),
    ] + (match b.author {
        Some(a) => seq![(Tone::Muted, "  · "@ + a@)],
        None => Seq::empty(),
    }) + (match b.next_chapter {
        Some(c) => seq![
            (Tone::Muted, "    next ch."@ + decimal(c.number as nat) + " · "@ + c.title@),
        ],
        None => Seq::empty(),
    })
}

/// The heading of a book in progress.
pub fn book_line(b: &ReadingBook) -> (res: Line)
    ensures
        res@ == book_text(*b),
{
    let mut line = Line::of(
        BookStatus::Reading.pill_tone(),
        own(BookStatus::Reading.pill()),
    ).with(Tone::Plain, own("  ")).with(Tone::Bold, b.title.clone());
    if let Some(a) = &b.author {
        line = line.with(Tone::Muted, cat2("  · ", a.as_str()));
    }
    if let Some(c) = &b.next_chapter {
        let n = show(c.number as u64);
        line = line.with(Tone::Muted, cat4("    next ch.", n.as_str(), " · ", c.title.as_str()));
    }
    assert(line@ =~= book_text(*b));
    line
}

/// How many chapters are read: all before the next unread, all where there is
/// none.
pub open spec fn chapters_read(b: ReadingBook, total: u32) -> int {
    match b.next_chapter {
        Some(c) => if c.number == 0 {
            0
        } else {
            c.number - 1
        },
        None => total as int,
    }
}

/// The count of chapters behind a book's bar; none where the total is unknown.
pub fn chapters_text(b: &ReadingBook) -> (res: Option<String>)
    ensures
        match b.chapters_total {
            Some(total) => {
                &&& res is Some
                &&& res->0@ == "   ·   "@ + decimal(chapters_read(*b, total) as nat) + " / "@
                    + decimal(total as nat) + " ch"@
            },
            None => res is None,
        },
{
    let total: u32 = match b.chapters_total {
        Some(t) => t,
        None => {
            return None;
        },
    };
    let read: u32 = match &b.next_chapter {
        Some(c) => if c.number == 0 {
            0
        } else {
            c.number - 1
        },
        None => total,
    };
    let r = show(read as u64);
    let t = show(total as u64);
    Some(cat5("   ·   ", r.as_str(), " / ", t.as_str(), " ch"))
}

// ---- what the calls answer ----

/// What the read of the day sends back. A refused session is no failure of the
/// day. `reason` is the failure as the panel words it.
pub fn today_read(reply: Result<Box<Today>, (Fault, String)>) -> (res: Action)
    ensures
        match reply {
            Ok(today) => res == Action::TodayLoaded(today),
            Err((e, reason)) => if e.kind is Unauthorized {
                res == Action::SessionExpired
            } else {
                res == Action::HomeLoadFailed(reason)
            },
        },
{
    match reply {
        Ok(today) => Action::TodayLoaded(today),
        Err((e, reason)) => match e.kind {
            FaultKind::Unauthorized => Action::SessionExpired,
            _ => Action::HomeLoadFailed(reason),
        },
    }
}

/// Whether one of the drafts is near its expiry at `now`.
pub open spec fn any_soon(tasks: Seq<Task>, now: int) -> bool {
    exists|i: int| 0 <= i < tasks.len() && soon(#[trigger] tasks[i], now)
}

/// What the count of the drafts sends back at `now`: nothing where the read
/// failed.
pub fn drafts_counted(reply: Result<Vec<Task>, Fault>, now: i64) -> (res: Option<Action>)
    ensures
        match reply {
            Ok(tasks) => res == Some(
                Action::HomeInboxLoaded {
                    pending: tasks@.len() as usize,
                    expiring: any_soon(tasks@, now as int),
                },
            ),
            Err(_) => res is None,
        },
{
    let tasks = match reply {
        Ok(t) => t,
        Err(_) => {
            return None;
        },
    };
    let pending: usize = tasks.len();
    let mut i: usize = 0;
    while i < tasks.len()
        invariant
            i <= tasks.len(),
            pending == tasks@.len(),
            reply == Ok::<Vec<Task>, Fault>(tasks),
            forall|j: int| 0 <= j < i ==> !soon(#[trigger] tasks@[j], now as int),
        decreases tasks.len() - i,
    {
        if expires_soon(&tasks[i], now) {
            assert(soon(tasks@[i as int], now as int));
            return Some(Action::HomeInboxLoaded { pending, expiring: true });
        }
        i = i + 1;
    }
    Some(Action::HomeInboxLoaded { pending, expiring: false })
}

// ---- laws ----

/// A failed read is loud until a good one clears it, and keeps the day that was
/// read before.
pub proof fn a_good_read_clears_a_failure(
    a: Home,
    reason: String,
    b: Home,
    x: Outcome,
    today: Box<Today>,
    c: Home,
    y: Outcome,
    t: u64,
    u: u64,
)
    requires
        Home::handled(a, Action::HomeLoadFailed(reason), t, b, x),
        Home::handled(b, Action::TodayLoaded(today), u, c, y),
    ensures
        b.today == a.today,
        a.today is None ==> b.panel_model() == Some(PanelModel::Failed(b.failure->0)),
        c.panel_model() is None,
        c.failure is None,
{
}

/// The chip is there exactly while drafts wait.
pub proof fn the_chip_hides_at_zero(h: Home)
    ensures
        h.chip_text() is None <==> h.inbox_pending == 0,
{
}

/// A day that came in is shown as it came, from the instant it came in.
pub proof fn a_day_is_shown_as_it_came(
    pre: Home,
    today: Box<Today>,
    at: u64,
    post: Home,
    out: Outcome,
)
    requires
        Home::handled(pre, Action::TodayLoaded(today), at, post, out),
    ensures
        post.today == Some(*today),
        post.loaded_at == Some(at),
        !post.loading,
        post.inbox_pending == pre.inbox_pending,
        out.effects@.len() == 0,
{
}

/// The count of the drafts is shown as it came, and leaves the day alone.
pub proof fn the_drafts_are_counted(
    pre: Home,
    pending: usize,
    expiring: bool,
    at: u64,
    post: Home,
    out: Outcome,
)
    requires
        Home::handled(pre, Action::HomeInboxLoaded { pending, expiring }, at, post, out),
    ensures
        post.inbox_pending == pending,
        post.inbox_expiring == expiring,
        post.today == pre.today,
        post.failure == pre.failure,
{
}

/// A refresh reads the day and counts the drafts.
pub proof fn a_refresh_reads_day_and_drafts(pre: Home, at: u64, post: Home, out: Outcome)
    requires
        Home::handled(pre, Action::RefreshHome, at, post, out),
    ensures
        out.effects@.len() == 2,
        out.effects@.contains(Effect::Call(Request::LoadToday)),
        out.effects@.contains(Effect::Call(Request::CountDrafts)),
        post.loading,
        post.today == pre.today,
{
    let first = out.effects@[0];
    let second = out.effects@[1];
    assert(out.effects@.contains(first));
    assert(out.effects@.contains(second));
}

/// The sums of a plan are the sums of its items, and its counts count them.
pub proof fn the_plan_adds_up(items: Seq<PlanItem>, item: PlanItem, state: Seq<char>)
    ensures
        logged(Seq::empty()) == 0,
        planned(Seq::empty()) == 0,
        in_state(Seq::empty(), state) == 0,
        logged(items.push(item)) == logged(items) + item.logged_minutes,
        planned(items.push(item)) == planned(items) + item.size_minutes,
        in_state(items.push(item), state) == in_state(items, state) + (if item.state@ == state {
            1int
        } else {
            0
        }),
{
    assert(items.push(item).drop_last() =~= items);
}

/// The chapters read are those before the next unread one, and all of them where none
/// is left.
pub proof fn the_chapters_behind_the_next_are_read(b: ReadingBook, total: u32)
    ensures
        b.next_chapter is None ==> chapters_read(b, total) == total,
        b.next_chapter matches Some(c) && c.number > 0 ==> chapters_read(b, total) + 1
            == b.next_chapter->0.number,
        chapters_read(b, total) >= 0,
{
}

/// A refused session is answered by the sign-in, any other failure by a loud panel, and
/// neither by a day.
pub proof fn a_refused_session_is_no_failure_of_the_day(
    reply: Result<Box<Today>, (Fault, String)>,
    res: Action,
)
    requires
        call_ensures(today_read, (reply,), res),
    ensures
        reply matches Ok(today) ==> res == Action::TodayLoaded(today),
        reply matches Err((e, reason)) && e.kind is Unauthorized ==> res is SessionExpired,
        reply matches Err((e, reason)) && !(e.kind is Unauthorized) ==> res
            == Action::HomeLoadFailed(reply->Err_0.1),
{
}

/// The drafts that wait are all counted, and the count is loud exactly where one of them
/// expires within two days.
pub proof fn the_count_is_loud_where_one_expires_soon(
    tasks: Vec<Task>,
    now: i64,
    res: Option<Action>,
)
    requires
        call_ensures(drafts_counted, (Ok(tasks), now), res),
    ensures
        res matches Some(Action::HomeInboxLoaded { pending, expiring }) && pending
            == tasks@.len() as usize && (expiring <==> exists|i: int|
            0 <= i < tasks@.len() && ((#[trigger] tasks@[i]).expires_at matches Some(e) && e - now
                < 48 * 3600)),
{
    if any_soon(tasks@, now as int) {
        let i = choose|i: int| 0 <= i < tasks@.len() && soon(#[trigger] tasks@[i], now as int);
        assert(tasks@[i].expires_at matches Some(e) && e - now < 48 * 3600);
    }
    if exists|i: int|
        0 <= i < tasks@.len() && ((#[trigger] tasks@[i]).expires_at matches Some(e) && e - now < 48
            * 3600) {
        let i = choose|i: int|
            0 <= i < tasks@.len() && ((#[trigger] tasks@[i]).expires_at matches Some(e) && e - now
                < 48 * 3600);
        assert(soon(tasks@[i], now as int));
    }
}

/// The week is called on pace exactly where no target trails; else the worst one is named
/// with its gap and how many trail.
pub proof fn the_fold_names_the_worst(t: Today)
    ensures
        t.pace is None ==> pace_text(t)[1].1 == "This week · on pace"@,
        t.pace matches Some(p) ==> pace_text(t)[0].1 == padded(p.scope_name@, 10) && pace_text(
            t,
        )[1].1 == " behind "@ + p.hours@ + "h "@ && pace_text(t)[2].1 == "   worst of "@ + decimal(
            p.behind_count as nat,
        ) + " targets trailing"@,
{
}

/// A row of the plan shows its own item: the glyph of its state, the kind, the title, where
/// it moved from, and the minutes logged of those planned.
pub proof fn a_row_shows_its_item(i: PlanItem)
    ensures
        plan_cells(i).len() == 4,
        plan_cells(i)[0][0] == glyph_text(i.state@),
        plan_cells(i)[1][0].1 == or_empty(i.kind),
        plan_cells(i)[2][0].1 == i.title@,
        i.moved_from matches Some(from) ==> plan_cells(i)[2].len() == 2 && plan_cells(i)[2][1].1
            == "  moved from "@ + from@,
        i.moved_from is None ==> plan_cells(i)[2].len() == 1,
        plan_cells(i)[3][0].1 == decimal(i.logged_minutes as nat) + " / "@ + decimal(
            i.size_minutes as nat,
        ) + "m"@,
{
}

/// The glyphs of the states.
pub proof fn the_glyphs_of_the_states()
    ensures
        glyph_text("done"@).1 == "✓"@,
        glyph_text("live"@).1 == "●"@,
        glyph_text("left"@).1 == "·"@,
        glyph_text("planned"@).1 == "○"@,
{
    reveal_strlit("done");
    reveal_strlit("live");
    reveal_strlit("left");
    reveal_strlit("planned");
    assert("done"@[0] == 'd' && "live"@[1] == 'i' && "left"@[1] == 'e' && "planned"@.len() == 7);
    assert("live"@.len() == 4 && "left"@.len() == 4 && "done"@.len() == 4);
    assert("live"@[0] == 'l' && "left"@[0] == 'l');
}

/// The strip shows the numbers of the day: what was logged, what is due and stale, how long
/// that takes, and what is left to plan.
pub proof fn the_strip_shows_the_days_numbers(t: Today)
    ensures
        stats_text(t)[1].1 == minutes_text(t.logged_minutes as nat),
        stats_text(t)[4].1 == decimal(t.due_count as nat) + " due"@,
        stats_text(t)[5].1 == " · "@ + decimal(t.stale_count as nat) + " stale"@,
        stats_text(t)[6].1 == " · ~"@ + decimal(t.est_minutes as nat) + "m"@,
        stats_text(t)[10].1 == decimal(t.left_count as nat) + " items"@,
{
}

/// The chip counts the drafts that wait, and is louder where one expires soon.
pub proof fn the_chip_counts_the_drafts(h: Home)
    requires
        h.inbox_pending > 0,
    ensures
        h.chip_text() is Some,
        h.chip_text()->0[1].1 == "inbox "@ + decimal(h.inbox_pending as nat),
        h.inbox_expiring <==> h.chip_text()->0[1].0 == Tone::WarnBold,
{
}

/// A book in progress shows its title, its author and its next chapter.
pub proof fn a_book_shows_its_next_chapter(b: ReadingBook)
    ensures
        book_text(b)[2].1 == b.title@,
        b.author matches Some(a) ==> book_text(b)[3].1 == "  · "@ + a@,
        b.author is Some && b.next_chapter is Some ==> book_text(b)[4].1 == "    next ch."@
            + decimal(b.next_chapter->0.number as nat) + " · "@ + b.next_chapter->0.title@,
        b.author is None && b.next_chapter is Some ==> book_text(b)[3].1 == "    next ch."@
            + decimal(b.next_chapter->0.number as nat) + " · "@ + b.next_chapter->0.title@,
{
}

/// The plan's title counts what is done, what runs and what is left, and sets the minutes
/// logged against those planned.
pub proof fn the_title_sums_the_plan(today: Today, title: String)
    requires
        summable(today),
        call_ensures(plan_title, (&today,), title),
    ensures
        today.plan@.len() == 0 ==> title@ == "Today's plan"@,
        today.plan@.len() > 0 ==> title@ == "Today's plan · "@ + decimal(
            in_state(today.plan@, "done"@),
        ) + " done · "@ + decimal(in_state(today.plan@, "live"@)) + " live · "@ + decimal(
            today.left_count as nat,
        ) + " left · "@ + decimal(logged(today.plan@)) + "m logged / "@ + decimal(
            planned(today.plan@),
        ) + "m planned"@,
{
}

/// The lead line is the running clock ticked on from when the day was read; without a
/// running timer it says so.
pub proof fn the_lead_ticks_with_the_clock(timer: Timer, since: u64, seconds: u64)
    requires
        since + 1000 * seconds <= u64::MAX,
        timer.elapsed_seconds + seconds <= i64::MAX,
    ensures
        timer.running && !timer.paused ==> Some(
            lead_text(timer, Some(since), (since + 1000 * seconds) as u64),
        ) == face_text(timer, timer.elapsed_seconds + seconds, false, false),
        !timer.running ==> lead_text(timer, Some(since), since)[1].1 == "no timer"@,
{
}

/// The day is told by its weekday, its month and day, and its week.
pub proof fn the_day_in_words(today: Today, line: String)
    requires
        call_ensures(date_line, (&today,), line),
    ensures
        line@ == titled(today.weekday@) + " · "@ + day_text_of(today.day, "%b"@) + " "@ + decimal(
            month_day_of(today.day) as nat,
        ) + " · "@ + today.week@,
        today.weekday@.len() > 0 ==> titled(today.weekday@) == uppercase_of(today.weekday@[0])
            + today.weekday@.subrange(1, today.weekday@.len() as int),
        today.weekday@.len() == 0 ==> titled(today.weekday@).len() == 0,
{
}

/// Every field keeps its value but through the actions that are about it.
pub proof fn what_an_action_leaves_alone(
    pre: Home,
    action: Action,
    millis: u64,
    post: Home,
    out: Outcome,
)
    requires
        Home::handled(pre, action, millis, post, out),
    ensures
        post.today == pre.today || action is TodayLoaded,
        post.loaded_at == pre.loaded_at || action is TodayLoaded,
        post.loading == pre.loading || action is TodayLoaded || action is HomeLoadFailed
            || action is RefreshHome,
        post.inbox_pending == pre.inbox_pending || action is HomeInboxLoaded,
        post.inbox_expiring == pre.inbox_expiring || action is HomeInboxLoaded,
        post.failure == pre.failure || action is TodayLoaded || action is HomeLoadFailed,
{
}

/// Only these actions say something, and only these send something; a read under way is
/// marked until it is answered.
pub proof fn which_actions_are_heard(
    pre: Home,
    action: Action,
    millis: u64,
    post: Home,
    out: Outcome,
)
    requires
        Home::handled(pre, action, millis, post, out),
    ensures
        out.note is None,
        out.effects@.len() == 0 || action is RefreshHome,
        out.effects@.len() <= 2,
        action is RefreshHome ==> post.loading,
        (action is TodayLoaded || action is HomeLoadFailed) ==> !post.loading,
{
}

/// The screen starts without a day and without drafts.
pub proof fn how_the_screen_starts(s: Home)
    requires
        call_ensures(Home::default, (), s),
    ensures
        s.today is None,
        s.loaded_at is None,
        !s.loading,
        s.inbox_pending == 0,
        !s.inbox_expiring,
        s.failure is None,
{
}

} // verus!
