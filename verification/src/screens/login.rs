//! Signing in: the prompt, and the screens that block until it works again.

use crate::action::{Action, Effect, Outcome};
use crate::line::{no_lines, page, push_line, Footer, Line, Tone};
use crate::text::{cat2, own};
use vstd::prelude::*;

verus! {

/// Where signing in stands.
#[derive(Debug)]
pub enum State {
    Idle,
    Pending,
    ServerError(String),
    Expired,
}

/// The sign-in screen.
#[derive(Debug)]
pub struct Login {
    pub state: State,
}

impl Default for Login {
    fn default() -> (res: Self)
        ensures
            res.state is Idle,
    {
        Login { state: State::Idle }
    }
}

impl Login {
    /// Entering the screen asks for nothing.
    pub fn on_enter(&mut self) -> (out: Vec<Effect>)
        ensures
            *final(self) == *old(self),
            out@ == Seq::<Effect>::empty(),
    {
        Vec::new()
    }

    /// The browser has the floor.
    pub fn set_pending(&mut self)
        ensures
            final(self).state is Pending,
    {
        self.state = State::Pending;
    }

    /// Back to the prompt.
    pub fn set_idle(&mut self)
        ensures
            final(self).state is Idle,
    {
        self.state = State::Idle;
    }

    /// The flow could not start.
    pub fn set_server_error(&mut self, reason: String)
        ensures
            final(self).state == State::ServerError(reason),
    {
        self.state = State::ServerError(reason);
    }

    /// The session is no longer valid.
    pub fn set_expired(&mut self)
        ensures
            final(self).state is Expired,
    {
        self.state = State::Expired;
    }

    /// How the screen answers an action: the shell sets its state instead.
    pub open spec fn handled(pre: Self, action: Action, post: Self, out: Outcome) -> bool {
        post == pre && out.quiet()
    }

    /// How the screen answers an action.
    pub fn handle(&mut self, _action: Action) -> (out: Outcome)
        ensures
            Self::handled(*old(self), _action, *final(self), out),
    {
        Outcome::none()
    }

    // ---- what the panel says ----

    /// A blocking screen: the headline, what is known, and the way out.
    pub open spec fn blocking_page(
        headline: Seq<char>,
        detail: Seq<Seq<char>>,
        recovery: Seq<char>,
    ) -> Seq<Seq<(Tone, Seq<char>)>> {
        seq![seq![(Tone::DangerBold, "✖ "@ + headline)]] + detail.map_values(
            |d: Seq<char>| seq![(Tone::Muted, d)],
        ) + seq![seq![(Tone::Focused, "⏎ "@), (Tone::Plain, recovery)]]
    }

    /// The panel's lines.
    pub open spec fn panel_text(self) -> Seq<Seq<(Tone, Seq<char>)>> {
        match self.state {
            State::ServerError(reason) => Self::blocking_page(
                "can't reach the identity server"@,
                seq![reason@, "the sign-in flow can't start — nothing was changed."@],
                "retry"@,
            ),
            State::Expired => Self::blocking_page(
                "session expired"@,
                seq!["your session is no longer valid — sign in again."@],
                "sign in"@,
            ),
            State::Pending => seq![
                Seq::empty(),
                seq![(Tone::Focused, "Waiting for the browser…"@)],
                seq![(Tone::Muted, "Complete the login in your browser, then return here."@)],
            ],
            State::Idle => seq![
                Seq::empty(),
                seq![(Tone::Plain, "You're not signed in."@)],
                Seq::empty(),
                seq![
                    (Tone::Plain, "Press "@),
                    (Tone::Focused, "Enter"@),
                    (Tone::Plain, " to log in."@),
                ],
            ],
        }
    }

    /// Whether the screen blocks: it fills the terminal, and says what is wrong.
    pub fn blocks(&self) -> (res: bool)
        ensures
            res == (self.state is ServerError || self.state is Expired),
    {
        matches!(self.state, State::ServerError(_) | State::Expired)
    }

    fn push_recovery(lines: &mut Vec<Line>, recovery: &str)
        ensures
            page(final(lines)@) == page(old(lines)@).push(
                seq![(Tone::Focused, "⏎ "@), (Tone::Plain, recovery@)],
            ),
    {
        let line = Line::of(Tone::Focused, own("⏎ ")).with(Tone::Plain, own(recovery));
        assert(line@ =~= seq![(Tone::Focused, "⏎ "@), (Tone::Plain, recovery@)]);
        push_line(lines, line);
    }

    /// The panel's lines.
    pub fn lines(&self) -> (res: Vec<Line>)
        ensures
            page(res@) == self.panel_text(),
    {
        let mut lines = no_lines();
        match &self.state {
            State::ServerError(reason) => {
                push_line(
                    &mut lines,
                    Line::of(Tone::DangerBold, cat2("✖ ", "can't reach the identity server")),
                );
                push_line(&mut lines, Line::of(Tone::Muted, reason.clone()));
                push_line(
                    &mut lines,
                    Line::of(
                        Tone::Muted,
                        own("the sign-in flow can't start — nothing was changed."),
                    ),
                );
                Self::push_recovery(&mut lines, "retry");
            },
            State::Expired => {
                push_line(&mut lines, Line::of(Tone::DangerBold, cat2("✖ ", "session expired")));
                push_line(
                    &mut lines,
                    Line::of(
                        Tone::Muted,
                        own("your session is no longer valid — sign in again."),
                    ),
                );
                Self::push_recovery(&mut lines, "sign in");
            },
            State::Pending => {
                push_line(&mut lines, Line::empty());
                push_line(&mut lines, Line::of(Tone::Focused, own("Waiting for the browser…")));
                push_line(
                    &mut lines,
                    Line::of(
                        Tone::Muted,
                        own("Complete the login in your browser, then return here."),
                    ),
                );
            },
            State::Idle => {
                push_line(&mut lines, Line::empty());
                push_line(&mut lines, Line::of(Tone::Plain, own("You're not signed in.")));
                push_line(&mut lines, Line::empty());
                push_line(
                    &mut lines,
                    Line::of(Tone::Plain, own("Press ")).with(Tone::Focused, own("Enter")).with(
                        Tone::Plain,
                        own(" to log in."),
                    ),
                );
            },
        }
        assert(page(lines@) =~~= self.panel_text());
        lines
    }

    /// What the footer offers.
    pub open spec fn offered(self, f: Footer) -> bool {
        match self.state {
            State::Pending => f.offers(seq![("q", "quit")]),
            State::ServerError(_) => f.offers(seq![("⏎", "retry"), ("q", "quit")]),
            State::Expired => f.offers(seq![("⏎", "sign in"), ("q", "quit")]),
            State::Idle => f.offers(seq![("⏎", "log in"), ("q", "quit")]),
        }
    }

    /// What the footer offers.
    pub fn hints(&self) -> (res: Footer)
        ensures
            self.offered(res),
    {
        match self.state {
            State::Pending => Footer::Keys(vec![("q", "quit")]),
            State::ServerError(_) => Footer::Keys(vec![("⏎", "retry"), ("q", "quit")]),
            State::Expired => Footer::Keys(vec![("⏎", "sign in"), ("q", "quit")]),
            State::Idle => Footer::Keys(vec![("⏎", "log in"), ("q", "quit")]),
        }
    }
}

/// Each state shows its own panel: what went wrong where something did, with the reason
/// that was given, and the way out in the last line.
pub proof fn each_state_shows_its_panel(l: Login, reason: String, lines: Vec<Line>)
    requires
        call_ensures(Login::lines, (&l,), lines),
    ensures
        l.state == State::ServerError(reason) ==> lines.len() == 4 && lines[0]@ == seq![
            (Tone::DangerBold, "✖ "@ + "can't reach the identity server"@),
        ] && lines[1]@ == seq![(Tone::Muted, reason@)] && lines[3]@ == seq![
            (Tone::Focused, "⏎ "@),
            (Tone::Plain, "retry"@),
        ],
        l.state is Expired ==> lines.len() == 3 && lines[0]@ == seq![
            (Tone::DangerBold, "✖ "@ + "session expired"@),
        ] && lines[2]@ == seq![(Tone::Focused, "⏎ "@), (Tone::Plain, "sign in"@)],
        l.state is Pending ==> lines.len() == 3 && lines[1]@ == seq![
            (Tone::Focused, "Waiting for the browser…"@),
        ],
        l.state is Idle ==> lines.len() == 4 && lines[1]@ == seq![
            (Tone::Plain, "You're not signed in."@),
        ] && lines[3]@ == seq![
            (Tone::Plain, "Press "@),
            (Tone::Focused, "Enter"@),
            (Tone::Plain, " to log in."@),
        ],
{
    assert(page(lines@) == l.panel_text());
    assert(page(lines@).len() == lines.len());
    assert forall|i: int| 0 <= i < lines.len() implies #[trigger] lines@[i]@ == page(lines@)[i] by {
    }
}

/// A sign-in can be begun in every state but while the browser has the floor, and the
/// screen fills the terminal exactly where something is wrong.
pub proof fn the_keys_of_each_state(l: Login, footer: Footer, blocks: bool)
    requires
        call_ensures(Login::hints, (&l,), footer),
        call_ensures(Login::blocks, (&l,), blocks),
    ensures
        l.state is Pending <==> footer.offers(seq![("q", "quit")]),
        l.state is ServerError ==> footer.offers(seq![("⏎", "retry"), ("q", "quit")]) && blocks,
        l.state is Expired ==> footer.offers(seq![("⏎", "sign in"), ("q", "quit")]) && blocks,
        l.state is Idle ==> footer.offers(seq![("⏎", "log in"), ("q", "quit")]) && !blocks,
        l.state is Pending ==> !blocks,
{
}

/// An action leaves the sign-in alone, and the panel goes with the state that the shell
/// sets.
pub proof fn the_shell_sets_the_state(pre: Login, action: Action, post: Login, out: Outcome)
    requires
        Login::handled(pre, action, post, out),
    ensures
        post == pre,
        out.effects@.len() == 0,
{
}

/// The screen starts at the prompt.
pub proof fn how_the_screen_starts(s: Login)
    requires
        call_ensures(Login::default, (), s),
    ensures
        s.state is Idle,
{
}

} // verus!
