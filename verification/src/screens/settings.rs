//! Timer settings, to look at: the knobs are edited elsewhere.

use crate::action::{Action, Effect, Outcome, Request};
use crate::line::{no_lines, page, push_line, Footer, Line, Tone};
use crate::model::{Fault, FaultKind, PanelFailure, TimerSettings};
use crate::panel::{panel_lines, panel_page, PanelModel, PanelState};
use crate::text::{cat2, cat4, cat5, cat6, decimal, own, pad, padded, show};
use vstd::prelude::*;

verus! {

/// The settings screen.
#[derive(Debug)]
pub struct Settings {
    pub settings: Option<TimerSettings>,
    pub loading: bool,
    pub failure: Option<PanelFailure>,
}

impl Default for Settings {
    fn default() -> (res: Self)
        ensures
            res.settings is None,
            !res.loading,
            res.failure is None,
    {
        Settings { settings: None, loading: false, failure: None }
    }
}

impl Settings {
    /// How the screen answers an action.
    pub open spec fn handled(pre: Self, action: Action, post: Self, out: Outcome) -> bool {
        match action {
            Action::SettingsLoaded(s) => {
                &&& post == Settings { loading: false, failure: None, settings: Some(*s) }
                &&& out.quiet()
            },
            Action::SettingsLoadFailed(reason) => {
                &&& post == Settings { loading: false, failure: post.failure, ..pre }
                &&& post.failure is Some
                &&& post.failure->0.of("settings"@, reason)
                &&& out.quiet()
            },
            Action::SettingsReload => {
                &&& post == Settings { loading: true, ..pre }
                &&& out.asks(seq![Effect::Call(Request::LoadSettings)])
            },
            _ => post == pre && out.quiet(),
        }
    }

    /// Entering the screen reads the knobs.
    pub fn on_enter(&mut self) -> (out: Vec<Effect>)
        ensures
            *final(self) == (Settings { loading: true, ..*old(self) }),
            out@ == seq![Effect::Call(Request::LoadSettings)],
    {
        self.loading = true;
        Outcome::call(Request::LoadSettings).effects
    }

    /// How the screen answers an action.
    pub fn handle(&mut self, action: Action) -> (out: Outcome)
        ensures
            Self::handled(*old(self), action, *final(self), out),
    {
        match action {
            Action::SettingsLoaded(s) => {
                self.loading = false;
                self.failure = None;
                self.settings = Some(*s);
            },
            Action::SettingsLoadFailed(reason) => {
                self.loading = false;
                self.failure = Some(PanelFailure::new("settings", reason));
            },
            Action::SettingsReload => {
                self.loading = true;
                return Outcome::call(Request::LoadSettings);
            },
            _ => {},
        }
        Outcome::none()
    }

    // ---- what the panel says ----

    /// A knob's row.
    pub open spec fn row_text(label: Seq<char>, value: Seq<char>) -> Seq<(Tone, Seq<char>)> {
        seq![(Tone::Muted, "  "@ + padded(label, 34)), (Tone::Bold, value)]
    }

    fn row(label: &str, value: String) -> (res: Line)
        ensures
            res@ == Self::row_text(label@, value@),
    {
        let shown = pad(label, 34);
        let line = Line::of(Tone::Muted, cat2("  ", shown.as_str())).with(Tone::Bold, value);
        assert(line@ =~= Self::row_text(label@, value@));
        line
    }

    /// A switch in words.
    pub open spec fn switch_text(b: bool) -> Seq<char> {
        if b {
            "on"@
        } else {
            "off"@
        }
    }

    fn switch(b: bool) -> (res: &'static str)
        ensures
            res@ == Self::switch_text(b),
    {
        if b {
            "on"
        } else {
            "off"
        }
    }

    /// The first half of the knobs: the mode, the focus and the idle guard.
    pub open spec fn focus_page(s: TimerSettings) -> Seq<Seq<(Tone, Seq<char>)>> {
        seq![
            Seq::empty(),
            Self::row_text("default mode"@, s.timer_mode@),
            Self::row_text(
                "focus · work / short / long break"@,
                decimal(s.focus_work_minutes as nat) + "m · "@ + decimal(
                    s.focus_short_break_minutes as nat,
                ) + "m · "@ + decimal(s.focus_long_break_minutes as nat) + "m"@,
            ),
            Self::row_text(
                "focus · long break every"@,
                decimal(s.focus_long_break_every as nat) + "th break"@,
            ),
            Self::row_text(
                "idle guard · threshold"@,
                Self::switch_text(s.idle_guard_enabled) + " · "@ + decimal(
                    s.idle_threshold_minutes as nat,
                ) + "m without input"@,
            ),
            Self::row_text("default reclaim action"@, s.idle_default_reclaim@),
        ]
    }

    /// The second half: the audit and the ping, and where to edit.
    pub open spec fn audit_page(s: TimerSettings) -> Seq<Seq<(Tone, Seq<char>)>> {
        seq![
            Self::row_text(
                "audit fences · long / short"@,
                "≥ "@ + decimal(s.audit_long_hours as nat) + "h · < "@ + decimal(
                    s.audit_short_seconds as nat,
                ) + "s"@,
            ),
            Self::row_text("audit badge"@, Self::switch_text(s.audit_badge_enabled)),
            Self::row_text("overrun ping"@, Self::switch_text(s.overrun_ping_enabled)),
            Seq::empty(),
            seq![
                (
                    Tone::Muted,
                    "  These values drive every timer surface here. Editing lives on the web:"@,
                ),
            ],
            seq![(Tone::Muted, "  engineer › Settings"@)],
        ]
    }

    /// The panel's lines: every knob, or why there is none. A failed read is
    /// loud, and differs from one under way.
    pub open spec fn panel_text(self) -> Seq<Seq<(Tone, Seq<char>)>> {
        match self.settings {
            Some(s) => Self::focus_page(s) + Self::audit_page(s),
            None => match self.failure {
                Some(f) => panel_page(PanelModel::Failed(f)),
                None => panel_page(PanelModel::Loading),
            },
        }
    }

    fn focus_lines(s: &TimerSettings) -> (res: Vec<Line>)
        ensures
            page(res@) == Self::focus_page(*s),
    {
        let mut lines = no_lines();
        push_line(&mut lines, Line::empty());
        push_line(&mut lines, Self::row("default mode", s.timer_mode.clone()));
        let work = show(s.focus_work_minutes as u64);
        let short = show(s.focus_short_break_minutes as u64);
        let long = show(s.focus_long_break_minutes as u64);
        push_line(
            &mut lines,
            Self::row(
                "focus · work / short / long break",
                cat6(work.as_str(), "m · ", short.as_str(), "m · ", long.as_str(), "m"),
            ),
        );
        let every = show(s.focus_long_break_every as u64);
        push_line(
            &mut lines,
            Self::row("focus · long break every", cat2(every.as_str(), "th break")),
        );
        let threshold = show(s.idle_threshold_minutes as u64);
        push_line(
            &mut lines,
            Self::row(
                "idle guard · threshold",
                cat4(
                    Self::switch(s.idle_guard_enabled),
                    " · ",
                    threshold.as_str(),
                    "m without input",
                ),
            ),
        );
        push_line(&mut lines, Self::row("default reclaim action", s.idle_default_reclaim.clone()));
        assert(page(lines@) =~= Self::focus_page(*s));
        lines
    }

    fn audit_lines(s: &TimerSettings) -> (res: Vec<Line>)
        ensures
            page(res@) == Self::audit_page(*s),
    {
        let mut lines = no_lines();
        let long = show(s.audit_long_hours as u64);
        let short = show(s.audit_short_seconds as u64);
        push_line(
            &mut lines,
            Self::row(
                "audit fences · long / short",
                cat5("≥ ", long.as_str(), "h · < ", short.as_str(), "s"),
            ),
        );
        push_line(
            &mut lines,
            Self::row("audit badge", own(Self::switch(s.audit_badge_enabled))),
        );
        push_line(
            &mut lines,
            Self::row("overrun ping", own(Self::switch(s.overrun_ping_enabled))),
        );
        push_line(&mut lines, Line::empty());
        push_line(
            &mut lines,
            Line::of(
                Tone::Muted,
                own("  These values drive every timer surface here. Editing lives on the web:"),
            ),
        );
        push_line(&mut lines, Line::of(Tone::Muted, own("  engineer › Settings")));
        assert(page(lines@) =~= Self::audit_page(*s));
        lines
    }

    /// The panel's title.
    pub fn panel_title(&self) -> (res: &'static str)
        ensures
            res@ == "Your timer · read-only — edit on the web"@,
    {
        "Your timer · read-only — edit on the web"
    }

    /// The panel's lines.
    pub fn lines(&self) -> (res: Vec<Line>)
        ensures
            page(res@) == self.panel_text(),
    {
        match &self.settings {
            Some(s) => {
                let mut lines = Self::focus_lines(s);
                let mut rest = Self::audit_lines(s);
                let ghost a = lines@;
                let ghost b = rest@;
                lines.append(&mut rest);
                assert(page(lines@) =~= page(a) + page(b));
                lines
            },
            None => match &self.failure {
                Some(f) => panel_lines(&PanelState::Failed(f)),
                None => panel_lines(&PanelState::Loading),
            },
        }
    }

    /// What the footer offers.
    pub open spec fn offered(self, f: Footer) -> bool {
        f.offers(seq![("r", "refresh"), ("h", "home")])
    }

    /// What the footer offers.
    pub fn hints(&self) -> (res: Footer)
        ensures
            self.offered(res),
    {
        Footer::Keys(vec![("r", "refresh"), ("h", "home")])
    }
}

/// What the read of the knobs sends back. A refused session is no failure of
/// theirs. `reason` is the failure as the panel words it.
pub fn settings_read(reply: Result<Box<TimerSettings>, (Fault, String)>) -> (res: Action)
    ensures
        match reply {
            Ok(s) => res == Action::SettingsLoaded(s),
            Err((e, reason)) => if e.kind is Unauthorized {
                res == Action::SessionExpired
            } else {
                res == Action::SettingsLoadFailed(reason)
            },
        },
{
    match reply {
        Ok(s) => Action::SettingsLoaded(s),
        Err((e, reason)) => match e.kind {
            FaultKind::Unauthorized => Action::SessionExpired,
            _ => Action::SettingsLoadFailed(reason),
        },
    }
}

/// A failed read keeps the knobs that were read before, and invents none.
pub proof fn a_failure_invents_no_knobs(pre: Settings, reason: String, post: Settings, out: Outcome)
    requires
        Settings::handled(pre, Action::SettingsLoadFailed(reason), post, out),
    ensures
        post.settings == pre.settings,
        post.settings is None ==> post.panel_text() == panel_page(
            PanelModel::Failed(post.failure->0),
        ),
{
}

/// The knobs are shown as they came, and a reload reads them.
pub proof fn the_knobs_are_shown_as_they_came(
    pre: Settings,
    action: Action,
    post: Settings,
    out: Outcome,
)
    requires
        Settings::handled(pre, action, post, out),
    ensures
        action matches Action::SettingsLoaded(s) ==> post.settings == Some(*s) && post.failure
            is None && !post.loading,
        action is SettingsReload ==> out.effects@ == seq![Effect::Call(Request::LoadSettings)]
            && post.settings == pre.settings,
        !(action is SettingsLoaded) ==> post.settings == pre.settings,
        !(action is SettingsReload) ==> out.effects@.len() == 0,
{
}

/// Every knob is shown with its own value.
pub proof fn every_knob_is_shown_with_its_value(s: Settings, k: TimerSettings)
    requires
        s.settings == Some(k),
    ensures
        s.panel_text()[1][1].1 == k.timer_mode@,
        s.panel_text()[2][1].1 == decimal(k.focus_work_minutes as nat) + "m · "@ + decimal(
            k.focus_short_break_minutes as nat,
        ) + "m · "@ + decimal(k.focus_long_break_minutes as nat) + "m"@,
        s.panel_text()[3][1].1 == decimal(k.focus_long_break_every as nat) + "th break"@,
        s.panel_text()[4][1].1 == (if k.idle_guard_enabled {
            "on"@
        } else {
            "off"@
        }) + " · "@ + decimal(k.idle_threshold_minutes as nat) + "m without input"@,
        s.panel_text()[5][1].1 == k.idle_default_reclaim@,
        s.panel_text()[6][1].1 == "≥ "@ + decimal(k.audit_long_hours as nat) + "h · < "@ + decimal(
            k.audit_short_seconds as nat,
        ) + "s"@,
        s.panel_text()[7][1].1 == (if k.audit_badge_enabled {
            "on"@
        } else {
            "off"@
        }),
        s.panel_text()[8][1].1 == (if k.overrun_ping_enabled {
            "on"@
        } else {
            "off"@
        }),
{
}

/// What was read reaches the screen as it came, a failure in its words, and a refused session
/// the sign-in.
pub proof fn a_read_reaches_the_settings(
    reply: Result<Box<TimerSettings>, (Fault, String)>,
    sent: Action,
)
    requires
        call_ensures(settings_read, (reply,), sent),
    ensures
        reply matches Ok(s) ==> sent == Action::SettingsLoaded(s),
        reply is Err && reply->Err_0.0.kind is Unauthorized ==> sent is SessionExpired,
        reply is Err && !(reply->Err_0.0.kind is Unauthorized) ==> sent
            == Action::SettingsLoadFailed(reply->Err_0.1),
{
}

/// Every field keeps its value but through the actions that are about it.
pub proof fn what_an_action_leaves_alone(
    pre: Settings,
    action: Action,
    post: Settings,
    out: Outcome,
)
    requires
        Settings::handled(pre, action, post, out),
    ensures
        post.settings == pre.settings || action is SettingsLoaded,
        post.loading == pre.loading || action is SettingsLoaded || action is SettingsLoadFailed
            || action is SettingsReload,
        post.failure == pre.failure || action is SettingsLoaded || action is SettingsLoadFailed,
{
}

/// Only these actions say something, and only these send something; a read under way is
/// marked until it is answered.
pub proof fn which_actions_are_heard(
    pre: Settings,
    action: Action,
    post: Settings,
    out: Outcome,
)
    requires
        Settings::handled(pre, action, post, out),
    ensures
        out.note is None,
        out.effects@.len() == 0 || action is SettingsReload,
        out.effects@.len() <= 1,
        action is SettingsReload ==> post.loading,
        (action is SettingsLoaded || action is SettingsLoadFailed) ==> !post.loading,
{
}

/// The screen starts without the knobs.
pub proof fn how_the_screen_starts(s: Settings)
    requires
        call_ensures(Settings::default, (), s),
    ensures
        s.settings is None,
        !s.loading,
        s.failure is None,
{
}

} // verus!
