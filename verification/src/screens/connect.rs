//! Connect: the sources that drafts are captured from, and the verbs that
//! connect, disconnect and sync one. What a source reads is stated before
//! anything connects.

use crate::action::{notice, notifies, two, Action, Effect, Outcome, Request, SourceVerb};
use crate::cursor::{clamp, clamped, step, stepped};
use crate::keys::{KeyCode, KeyEvent};
use crate::line::{no_lines, page, push_line, Footer, Line, Tone};
use crate::model::{CaptureSource, Fault, FaultKind};
use crate::notify::Level;
use crate::text::{cat2, cat3, own, pad, padded};
use vstd::prelude::*;

verus! {

/// A question open over the list.
#[derive(Debug)]
pub enum Prompt {
    /// What the source reads, and whether to connect it. A source that takes a
    /// feed asks for its URL.
    Connect { source: CaptureSource, feed: Option<String> },
    /// What stands in the way of connecting; there is nothing to confirm.
    Requirement { source: CaptureSource },
    /// Whether to disconnect.
    Disconnect { source: CaptureSource },
}

/// The connect screen.
#[derive(Debug)]
pub struct Connect {
    pub sources: Vec<CaptureSource>,
    pub selected: usize,
    pub loading: bool,
    pub error: Option<String>,
    pub prompt: Option<Prompt>,
    /// A verb is on its way: no second one is sent before the list is read again.
    pub in_flight: bool,
}

impl Default for Connect {
    fn default() -> (res: Self)
        ensures
            res.fresh(),
    {
        Connect {
            sources: Vec::new(),
            selected: 0,
            loading: false,
            error: None,
            prompt: None,
            in_flight: false,
        }
    }
}

impl Connect {
    /// A screen that has read nothing.
    pub open spec fn fresh(self) -> bool {
        &&& self.sources@ == Seq::<CaptureSource>::empty()
        &&& self.selected == 0
        &&& !self.loading
        &&& self.error is None
        &&& self.prompt is None
        &&& !self.in_flight
    }

    /// The source under the cursor.
    pub open spec fn chosen(self) -> Option<CaptureSource> {
        if self.selected < self.sources@.len() {
            Some(self.sources@[self.selected as int])
        } else {
            None
        }
    }

    /// A verb is sent, unless one is on its way already.
    pub open spec fn fires(pre: Self, verb: SourceVerb, post: Self, out: Outcome) -> bool {
        &&& post == Connect { in_flight: true, ..pre }
        &&& if pre.in_flight {
            out.quiet()
        } else {
            out.asks(seq![Effect::Call(Request::Source(verb))])
        }
    }

    /// The prompt that the connect key opens for a source that is not connected.
    pub open spec fn asked(source: CaptureSource, prompt: Option<Prompt>) -> bool {
        if !source.connectable {
            prompt matches Some(Prompt::Requirement { source: s }) && s.alike(source)
        } else {
            prompt matches Some(Prompt::Connect { source: s, feed }) && {
                &&& s.alike(source)
                &&& feed is Some <==> source.takes_feed()
                &&& feed is Some ==> feed->0@ == Seq::<char>::empty()
            }
        }
    }

    /// The feed URL being typed.
    pub open spec fn feed(self) -> Option<String> {
        match self.prompt {
            Some(Prompt::Connect { source: _, feed }) => feed,
            _ => None,
        }
    }

    /// The screen with another feed URL.
    pub open spec fn refed(pre: Self, text: Seq<char>, post: Self) -> bool {
        &&& post == Connect { prompt: post.prompt, ..pre }
        &&& pre.prompt matches Some(Prompt::Connect { source, feed: _ })
            && post.prompt matches Some(Prompt::Connect { source: s, feed: f })
            && s == source && f is Some && f->0@ == text
    }

    /// How the screen answers an action.
    pub open spec fn handled(pre: Self, action: Action, post: Self, out: Outcome) -> bool {
        match action {
            Action::ConnectLoaded(sources) => {
                &&& post == Connect {
                    sources,
                    loading: false,
                    error: None,
                    in_flight: false,
                    selected: clamped(pre.selected as int, sources@.len() as int) as usize,
                    ..pre
                }
                &&& out.quiet()
            },
            Action::ConnectLoadFailed(e) => {
                &&& post == Connect { loading: false, error: Some(e), ..pre }
                &&& out.says(Level::Error, e@)
            },
            Action::RefreshConnect => {
                &&& post == Connect { loading: true, prompt: None, in_flight: false, ..pre }
                &&& out.asks(seq![Effect::Call(Request::ListSources)])
            },
            Action::ConnectMove(d) => {
                &&& post == Connect {
                    selected: if pre.prompt is None && pre.sources@.len() > 0 {
                        stepped(pre.selected as int, d as int, pre.sources@.len() as int) as usize
                    } else {
                        pre.selected
                    },
                    ..pre
                }
                &&& out.quiet()
            },
            Action::ConnectBegin => match (pre.prompt, pre.chosen()) {
                (None, Some(source)) => if source.connected {
                    &&& post == pre
                    &&& out.says(
                        Level::Info,
                        source.name@ + " is already connected · d to disconnect"@,
                    )
                } else {
                    &&& post == Connect { prompt: post.prompt, ..pre }
                    &&& Self::asked(source, post.prompt)
                    &&& out.quiet()
                },
                _ => post == pre && out.quiet(),
            },
            Action::ConnectDisconnectBegin => match (pre.prompt, pre.chosen()) {
                (None, Some(source)) => if source.connected {
                    &&& post == Connect { prompt: post.prompt, ..pre }
                    &&& post.prompt matches Some(Prompt::Disconnect { source: s }) && s.alike(
                        source,
                    )
                    &&& out.quiet()
                } else {
                    post == pre && out.says(Level::Info, source.name@ + " isn't connected"@)
                },
                _ => post == pre && out.quiet(),
            },
            Action::ConnectSync => match (pre.prompt, pre.chosen()) {
                (None, Some(source)) => if source.connected {
                    Self::fires(pre, SourceVerb::Sync { key: source.key }, post, out)
                } else {
                    &&& post == pre
                    &&& out.says(Level::Info, "connect "@ + source.name@ + " before syncing it"@)
                },
                _ => post == pre && out.quiet(),
            },
            Action::ConnectPromptSubmit => match pre.prompt {
                Some(Prompt::Connect { source, feed }) => Self::fires(
                    Connect { prompt: None, ..pre },
                    SourceVerb::Connect { key: source.key, feed },
                    post,
                    out,
                ),
                Some(Prompt::Disconnect { source }) => Self::fires(
                    Connect { prompt: None, ..pre },
                    SourceVerb::Disconnect { key: source.key },
                    post,
                    out,
                ),
                _ => post == pre && out.quiet(),
            },
            Action::ConnectPromptCancel => post == Connect { prompt: None, ..pre } && out.quiet(),
            Action::ConnectFeedInput(c) => {
                &&& match pre.feed() {
                    Some(s) => Self::refed(pre, s@.push(c), post),
                    None => post == pre,
                }
                &&& out.quiet()
            },
            Action::ConnectFeedBackspace => {
                &&& match pre.feed() {
                    Some(s) => Self::refed(
                        pre,
                        if s@.len() > 0 {
                            s@.drop_last()
                        } else {
                            s@
                        },
                        post,
                    ),
                    None => post == pre,
                }
                &&& out.quiet()
            },
            Action::ConnectActionFailed => {
                post == Connect { in_flight: false, ..pre } && out.quiet()
            },
            _ => post == pre && out.quiet(),
        }
    }

    /// Entering the screen reads the sources.
    pub fn on_enter(&mut self) -> (out: Vec<Effect>)
        ensures
            *final(self) == (Connect { loading: true, ..*old(self) }),
            out@ == seq![Effect::Call(Request::ListSources)],
    {
        self.loading = true;
        Outcome::call(Request::ListSources).effects
    }

    fn current(&self) -> (res: Option<&CaptureSource>)
        ensures
            match self.chosen() {
                Some(s) => res is Some && *res->0 == s,
                None => res is None,
            },
    {
        if self.selected < self.sources.len() {
            Some(&self.sources[self.selected])
        } else {
            None
        }
    }

    fn fire(&mut self, verb: SourceVerb) -> (out: Outcome)
        ensures
            Self::fires(*old(self), verb, *final(self), out),
    {
        if self.in_flight {
            return Outcome::none();
        }
        self.in_flight = true;
        Outcome::call(Request::Source(verb))
    }

    fn begin(&mut self) -> (out: Outcome)
        ensures
            Self::handled(*old(self), Action::ConnectBegin, *final(self), out),
    {
        if self.prompt.is_some() {
            return Outcome::none();
        }
        let source = match self.current() {
            Some(s) => s.clone(),
            None => {
                return Outcome::none();
            },
        };
        if source.connected {
            return Outcome::say(
                Level::Info,
                cat2(source.name.as_str(), " is already connected · d to disconnect"),
            );
        }
        if !source.connectable {
            self.prompt = Some(Prompt::Requirement { source });
        } else {
            let feed = if source.wants_feed_url() {
                Some(String::new())
            } else {
                None
            };
            self.prompt = Some(Prompt::Connect { source, feed });
        }
        Outcome::none()
    }

    fn begin_disconnect(&mut self) -> (out: Outcome)
        ensures
            Self::handled(*old(self), Action::ConnectDisconnectBegin, *final(self), out),
    {
        if self.prompt.is_some() {
            return Outcome::none();
        }
        let source = match self.current() {
            Some(s) => s.clone(),
            None => {
                return Outcome::none();
            },
        };
        if source.connected {
            self.prompt = Some(Prompt::Disconnect { source });
            Outcome::none()
        } else {
            Outcome::say(Level::Info, cat2(source.name.as_str(), " isn't connected"))
        }
    }

    fn sync(&mut self) -> (out: Outcome)
        ensures
            Self::handled(*old(self), Action::ConnectSync, *final(self), out),
    {
        if self.prompt.is_some() {
            return Outcome::none();
        }
        let source = match self.current() {
            Some(s) => s.clone(),
            None => {
                return Outcome::none();
            },
        };
        if source.connected {
            self.fire(SourceVerb::Sync { key: source.key })
        } else {
            Outcome::say(
                Level::Info,
                cat3("connect ", source.name.as_str(), " before syncing it"),
            )
        }
    }

    fn submit(&mut self) -> (out: Outcome)
        ensures
            Self::handled(*old(self), Action::ConnectPromptSubmit, *final(self), out),
    {
        match self.prompt.take() {
            Some(Prompt::Connect { source, feed }) => self.fire(
                SourceVerb::Connect { key: source.key, feed },
            ),
            Some(Prompt::Disconnect { source }) => self.fire(
                SourceVerb::Disconnect { key: source.key },
            ),
            other => {
                self.prompt = other;
                Outcome::none()
            },
        }
    }

    /// How the screen answers an action.
    #[verifier::rlimit(40)]
    pub fn handle(&mut self, action: Action) -> (out: Outcome)
        ensures
            Self::handled(*old(self), action, *final(self), out),
    {
        match action {
            Action::ConnectLoaded(sources) => {
                self.sources = sources;
                self.loading = false;
                self.error = None;
                self.in_flight = false;
                let n: usize = self.sources.len();
                self.selected = clamp(self.selected, n);
            },
            Action::ConnectLoadFailed(e) => {
                let shown = e.clone();
                self.loading = false;
                self.error = Some(e);
                return Outcome::say(Level::Error, shown);
            },
            Action::RefreshConnect => {
                self.loading = true;
                self.prompt = None;
                self.in_flight = false;
                return Outcome::call(Request::ListSources);
            },
            Action::ConnectMove(d) => {
                let n: usize = self.sources.len();
                if self.prompt.is_none() && n > 0 {
                    self.selected = step(self.selected, d, n);
                }
            },
            Action::ConnectBegin => {
                return self.begin();
            },
            Action::ConnectDisconnectBegin => {
                return self.begin_disconnect();
            },
            Action::ConnectSync => {
                return self.sync();
            },
            Action::ConnectPromptSubmit => {
                return self.submit();
            },
            Action::ConnectPromptCancel => self.prompt = None,
            Action::ConnectFeedInput(c) => {
                if let Some(Prompt::Connect { source: _, feed: Some(s) }) = &mut self.prompt {
                    s.push(c);
                }
            },
            Action::ConnectFeedBackspace => {
                if let Some(Prompt::Connect { source: _, feed: Some(s) }) = &mut self.prompt {
                    let _ = s.pop();
                }
            },
            Action::ConnectActionFailed => self.in_flight = false,
            _ => {},
        }
        Outcome::none()
    }

    /// What an open prompt makes of a key. The feed URL takes every letter.
    pub open spec fn intercepted(self, key: KeyEvent) -> Option<Action> {
        match self.prompt {
            None => None,
            Some(Prompt::Connect { source: _, feed: Some(_) }) => match key.code {
                KeyCode::Enter => Some(Action::ConnectPromptSubmit),
                KeyCode::Esc => Some(Action::ConnectPromptCancel),
                KeyCode::Backspace => Some(Action::ConnectFeedBackspace),
                KeyCode::Char(c) => Some(Action::ConnectFeedInput(c)),
                _ => None,
            },
            Some(Prompt::Requirement { source: _ }) => match key.code {
                KeyCode::Enter => Some(Action::ConnectPromptCancel),
                KeyCode::Esc => Some(Action::ConnectPromptCancel),
                KeyCode::Char(c) => if c == 'h' {
                    Some(Action::ConnectPromptCancel)
                } else {
                    None
                },
                _ => None,
            },
            _ => match key.code {
                KeyCode::Enter => Some(Action::ConnectPromptSubmit),
                KeyCode::Esc => Some(Action::ConnectPromptCancel),
                KeyCode::Char(c) => if c == 'y' {
                    Some(Action::ConnectPromptSubmit)
                } else if c == 'n' {
                    Some(Action::ConnectPromptCancel)
                } else {
                    None
                },
                _ => None,
            },
        }
    }

    /// An open prompt owns its keys before the global keymap.
    pub fn intercept_key(&mut self, key: KeyEvent) -> (res: Option<Action>)
        ensures
            *final(self) == *old(self),
            res == old(self).intercepted(key),
    {
        match &self.prompt {
            None => None,
            Some(Prompt::Connect { source: _, feed: Some(_) }) => match key.code {
                KeyCode::Enter => Some(Action::ConnectPromptSubmit),
                KeyCode::Esc => Some(Action::ConnectPromptCancel),
                KeyCode::Backspace => Some(Action::ConnectFeedBackspace),
                KeyCode::Char(c) => Some(Action::ConnectFeedInput(c)),
                _ => None,
            },
            Some(Prompt::Requirement { source: _ }) => match key.code {
                KeyCode::Enter | KeyCode::Esc | KeyCode::Char('h') => Some(
                    Action::ConnectPromptCancel,
                ),
                _ => None,
            },
            _ => match key.code {
                KeyCode::Enter | KeyCode::Char('y') => Some(Action::ConnectPromptSubmit),
                KeyCode::Esc | KeyCode::Char('n') => Some(Action::ConnectPromptCancel),
                _ => None,
            },
        }
    }

    // ---- what the panel says ----

    /// What a list without sources says.
    pub open spec fn empty_text(self) -> Seq<char> {
        if self.error is Some {
            self.error->0@
        } else if self.loading {
            "loading…"@
        } else {
            "no capture sources"@
        }
    }

    /// What a list without sources says.
    pub fn empty_body(&self) -> (res: String)
        ensures
            res@ == self.empty_text(),
    {
        match &self.error {
            Some(e) => e.clone(),
            None => if self.loading {
                own("loading…")
            } else {
                own("no capture sources")
            },
        }
    }

    /// A row of the list: the state, the name, and what is read or what stands
    /// in the way.
    pub open spec fn row_text(s: CaptureSource) -> Seq<(Tone, Seq<char>)> {
        seq![
            if s.connected {
                (Tone::OnSuccess, " connected "@)
            } else if !s.connectable {
                (Tone::OnWarn, " needs GitHub "@)
            } else {
                (Tone::Muted, "not connected"@)
            },
            (Tone::Plain, s.name@),
            (
                Tone::Muted,
                match s.requirement {
                    Some(r) => r.detail@,
                    None => s.trust.reads@,
                },
            ),
        ]
    }

    /// A row of the list.
    pub fn source_row(s: &CaptureSource) -> (res: Line)
        ensures
            res@ == Self::row_text(*s),
    {
        let state = if s.connected {
            Line::of(Tone::OnSuccess, own(" connected "))
        } else if !s.connectable {
            Line::of(Tone::OnWarn, own(" needs GitHub "))
        } else {
            Line::of(Tone::Muted, own("not connected"))
        };
        let reads = match &s.requirement {
            Some(r) => r.detail.clone(),
            None => s.trust.reads.clone(),
        };
        let line = state.with(Tone::Plain, s.name.clone()).with(Tone::Muted, reads);
        assert(line@ =~= Self::row_text(*s));
        line
    }

    /// What the source reads and never reads, word for word.
    pub open spec fn trust_page(s: CaptureSource) -> Seq<Seq<(Tone, Seq<char>)>> {
        seq![
            seq![(Tone::Header, "What this reads — and never reads"@)],
            Seq::empty(),
            seq![(Tone::Muted, padded("reads"@, 12)), (Tone::Plain, s.trust.reads@)],
            seq![(Tone::Muted, padded("never reads"@, 12)), (Tone::Plain, s.trust.never_reads@)],
            seq![(Tone::Muted, padded("promise"@, 12)), (Tone::Plain, s.trust.promise@)],
        ]
    }

    fn trust_row(label: &str, value: &String) -> (res: Line)
        ensures
            res@ == seq![(Tone::Muted, padded(label@, 12)), (Tone::Plain, value@)],
    {
        let line = Line::of(Tone::Muted, pad(label, 12)).with(Tone::Plain, value.clone());
        assert(line@ =~= seq![(Tone::Muted, padded(label@, 12)), (Tone::Plain, value@)]);
        line
    }

    fn trust_lines(s: &CaptureSource) -> (res: Vec<Line>)
        ensures
            page(res@) == Self::trust_page(*s),
    {
        let mut lines = no_lines();
        push_line(&mut lines, Line::of(Tone::Header, own("What this reads — and never reads")));
        push_line(&mut lines, Line::empty());
        push_line(&mut lines, Self::trust_row("reads", &s.trust.reads));
        push_line(&mut lines, Self::trust_row("never reads", &s.trust.never_reads));
        push_line(&mut lines, Self::trust_row("promise", &s.trust.promise));
        assert(page(lines@) =~= Self::trust_page(*s));
        lines
    }

    /// What the connect prompt asks below the trust statement.
    pub open spec fn question_page(s: CaptureSource, feed: Option<String>) -> Seq<
        Seq<(Tone, Seq<char>)>,
    > {
        match feed {
            Some(url) => seq![
                seq![(Tone::Muted, "calendar feed url"@)],
                seq![(Tone::Plain, url@), (Tone::Muted, "█"@)],
                Seq::empty(),
                seq![
                    (
                        Tone::Muted,
                        "⏎ connects with this feed · Esc cancels — nothing connects until you say so"@,
                    ),
                ],
            ],
            None => seq![
                seq![
                    (Tone::AccentBold, "Connect "@ + s.name@ + "?"@),
                    (
                        Tone::Muted,
                        "  y/⏎ to connect · Esc to cancel — nothing connects until you say so."@,
                    ),
                ],
            ],
        }
    }

    /// What stands in the way of connecting, and where to clear it.
    pub open spec fn requirement_page(s: CaptureSource) -> Seq<Seq<(Tone, Seq<char>)>> {
        seq![
            seq![(Tone::WarnBold, s.name@ + " needs GitHub connected first"@)],
            Seq::empty(),
        ] + (match s.requirement {
            Some(r) => seq![seq![(Tone::Plain, r.detail@)]] + (match r.url {
                Some(url) => seq![
                    Seq::empty(),
                    seq![(Tone::Muted, "connect it on the web  "@), (Tone::Accent, url@)],
                ],
                None => Seq::empty(),
            }),
            None => Seq::empty(),
        }) + seq![
            Seq::empty(),
            seq![
                (
                    Tone::Muted,
                    "GitHub sign-in happens in the browser — the CLI never asks for it here. Esc to go back."@,
                ),
            ],
        ]
    }

    /// The question whether to disconnect: what was captured is kept.
    pub open spec fn disconnect_page(s: CaptureSource) -> Seq<Seq<(Tone, Seq<char>)>> {
        seq![
            seq![(Tone::DangerBold, "Disconnect "@ + s.name@ + "?"@)],
            Seq::empty(),
            seq![
                (
                    Tone::Muted,
                    "It stops producing new drafts. Drafts already in your inbox are kept —"@,
                ),
            ],
            seq![
                (
                    Tone::Muted,
                    "disconnect turns the source off, it doesn't delete what it captured."@,
                ),
            ],
            Seq::empty(),
            seq![(Tone::Muted, "y/⏎ to disconnect · Esc to keep it connected."@)],
        ]
    }

    /// The lines of an open prompt.
    pub open spec fn prompt_page(prompt: Prompt) -> Seq<Seq<(Tone, Seq<char>)>> {
        match prompt {
            Prompt::Connect { source, feed } => Self::trust_page(source).push(Seq::empty())
                + Self::question_page(source, feed),
            Prompt::Requirement { source } => Self::requirement_page(source),
            Prompt::Disconnect { source } => Self::disconnect_page(source),
        }
    }

    fn connect_lines(source: &CaptureSource, feed: &Option<String>) -> (res: Vec<Line>)
        ensures
            page(res@) == Self::trust_page(*source).push(Seq::empty()) + Self::question_page(
                *source,
                *feed,
            ),
    {
        let mut lines = Self::trust_lines(source);
        push_line(&mut lines, Line::empty());
        let ghost start = page(lines@);
        match feed {
            Some(url) => {
                push_line(&mut lines, Line::of(Tone::Muted, own("calendar feed url")));
                push_line(
                    &mut lines,
                    Line::of(Tone::Plain, url.clone()).with(Tone::Muted, own("█")),
                );
                push_line(&mut lines, Line::empty());
                push_line(
                    &mut lines,
                    Line::of(
                        Tone::Muted,
                        own(
                            "⏎ connects with this feed · Esc cancels — nothing connects until you say so",
                        ),
                    ),
                );
            },
            None => push_line(
                &mut lines,
                Line::of(Tone::AccentBold, cat3("Connect ", source.name.as_str(), "?")).with(
                    Tone::Muted,
                    own("  y/⏎ to connect · Esc to cancel — nothing connects until you say so."),
                ),
            ),
        }
        assert(page(lines@) =~~= start + Self::question_page(*source, *feed));
        lines
    }

    fn requirement_lines(source: &CaptureSource) -> (res: Vec<Line>)
        ensures
            page(res@) == Self::requirement_page(*source),
    {
        let mut lines = no_lines();
        push_line(
            &mut lines,
            Line::of(Tone::WarnBold, cat2(source.name.as_str(), " needs GitHub connected first")),
        );
        push_line(&mut lines, Line::empty());
        if let Some(req) = &source.requirement {
            push_line(&mut lines, Line::of(Tone::Plain, req.detail.clone()));
            if let Some(url) = &req.url {
                push_line(&mut lines, Line::empty());
                push_line(
                    &mut lines,
                    Line::of(Tone::Muted, own("connect it on the web  ")).with(
                        Tone::Accent,
                        url.clone(),
                    ),
                );
            }
        }
        push_line(&mut lines, Line::empty());
        push_line(
            &mut lines,
            Line::of(
                Tone::Muted,
                own(
                    "GitHub sign-in happens in the browser — the CLI never asks for it here. Esc to go back.",
                ),
            ),
        );
        assert(page(lines@) =~~= Self::requirement_page(*source));
        lines
    }

    fn disconnect_lines(source: &CaptureSource) -> (res: Vec<Line>)
        ensures
            page(res@) == Self::disconnect_page(*source),
    {
        let mut lines = no_lines();
        push_line(
            &mut lines,
            Line::of(Tone::DangerBold, cat3("Disconnect ", source.name.as_str(), "?")),
        );
        push_line(&mut lines, Line::empty());
        push_line(
            &mut lines,
            Line::of(
                Tone::Muted,
                own("It stops producing new drafts. Drafts already in your inbox are kept —"),
            ),
        );
        push_line(
            &mut lines,
            Line::of(
                Tone::Muted,
                own("disconnect turns the source off, it doesn't delete what it captured."),
            ),
        );
        push_line(&mut lines, Line::empty());
        push_line(
            &mut lines,
            Line::of(Tone::Muted, own("y/⏎ to disconnect · Esc to keep it connected.")),
        );
        assert(page(lines@) =~= Self::disconnect_page(*source));
        lines
    }

    /// The lines of an open prompt.
    pub fn prompt_lines(prompt: &Prompt) -> (res: Vec<Line>)
        ensures
            page(res@) == Self::prompt_page(*prompt),
    {
        match prompt {
            Prompt::Connect { source, feed } => Self::connect_lines(source, feed),
            Prompt::Requirement { source } => Self::requirement_lines(source),
            Prompt::Disconnect { source } => Self::disconnect_lines(source),
        }
    }

    /// The panel's title.
    pub open spec fn title_text(self) -> Seq<char> {
        match self.prompt {
            Some(Prompt::Connect { source, feed: _ }) => "Connect · "@ + source.name@,
            Some(Prompt::Requirement { source }) => "Connect · "@ + source.name@,
            Some(Prompt::Disconnect { source: _ }) => "Connect · disconnect"@,
            None => "Connect · sources"@,
        }
    }

    /// The panel's title.
    pub fn panel_title(&self) -> (res: String)
        ensures
            res@ == self.title_text(),
    {
        match &self.prompt {
            Some(Prompt::Connect { source, feed: _ }) => cat2("Connect · ", source.name.as_str()),
            Some(Prompt::Requirement { source }) => cat2("Connect · ", source.name.as_str()),
            Some(Prompt::Disconnect { source: _ }) => own("Connect · disconnect"),
            None => own("Connect · sources"),
        }
    }

    /// What the footer offers.
    pub open spec fn offered(self, f: Footer) -> bool {
        match self.prompt {
            Some(Prompt::Connect { source: _, feed: Some(_) }) => f.offers(
                seq![("⏎", "connect"), ("Esc", "cancel")],
            ),
            Some(Prompt::Connect { source: _, feed: None }) => f.offers(
                seq![("y/⏎", "connect"), ("Esc", "cancel")],
            ),
            Some(Prompt::Requirement { source: _ }) => f.offers(seq![("Esc", "back")]),
            Some(Prompt::Disconnect { source: _ }) => f.offers(
                seq![("y/⏎", "disconnect"), ("Esc", "cancel")],
            ),
            None => f.offers(
                seq![
                    ("j/k", "move"),
                    ("c", "connect"),
                    ("d", "disconnect"),
                    ("s", "sync"),
                    ("h", "back"),
                ],
            ),
        }
    }

    /// What the footer offers.
    pub fn hints(&self) -> (res: Footer)
        ensures
            self.offered(res),
    {
        match &self.prompt {
            Some(Prompt::Connect { source: _, feed: Some(_) }) => Footer::Keys(
                vec![("⏎", "connect"), ("Esc", "cancel")],
            ),
            Some(Prompt::Connect { source: _, feed: None }) => Footer::Keys(
                vec![("y/⏎", "connect"), ("Esc", "cancel")],
            ),
            Some(Prompt::Requirement { source: _ }) => Footer::Keys(vec![("Esc", "back")]),
            Some(Prompt::Disconnect { source: _ }) => Footer::Keys(
                vec![("y/⏎", "disconnect"), ("Esc", "cancel")],
            ),
            None => Footer::Keys(
                vec![
                    ("j/k", "move"),
                    ("c", "connect"),
                    ("d", "disconnect"),
                    ("s", "sync"),
                    ("h", "back"),
                ],
            ),
        }
    }
}

// ---- what the calls answer ----

/// What the read of the sources sends back.
pub fn sources_read(reply: Result<Vec<CaptureSource>, Fault>) -> (res: Action)
    ensures
        match reply {
            Ok(sources) => res == Action::ConnectLoaded(sources),
            Err(e) => res matches Action::ConnectLoadFailed(t) && t@ == "sources load failed: "@
                + e.shown@,
        },
{
    match reply {
        Ok(sources) => Action::ConnectLoaded(sources),
        Err(e) => Action::ConnectLoadFailed(cat2("sources load failed: ", e.shown.as_str())),
    }
}

/// The refusal in words: the server's own where it gave one.
pub open spec fn refusal(fault: Fault) -> Seq<char> {
    match fault.kind {
        FaultKind::Unauthorized => "not authenticated — run `engineer login`"@,
        FaultKind::Problem { status: _, title, detail, code: _ } => "refused · "@ + (if detail@.len()
            > 0 {
            detail@
        } else {
            title@
        }),
        _ => fault.shown@,
    }
}

/// The refusal in words.
pub fn problem_text(fault: &Fault) -> (res: String)
    ensures
        res@ == refusal(*fault),
{
    match &fault.kind {
        FaultKind::Unauthorized => own("not authenticated — run `engineer login`"),
        FaultKind::Problem { status: _, title, detail, code: _ } => if !detail.as_str().is_empty() {
            cat2("refused · ", detail.as_str())
        } else {
            cat2("refused · ", title.as_str())
        },
        _ => fault.shown.clone(),
    }
}

/// The word on a verb that went through. `name` is the source's name as the
/// server answered it; a sync answers with the source's key.
pub open spec fn verb_done(verb: SourceVerb, name: Seq<char>) -> Seq<char> {
    match verb {
        SourceVerb::Connect { key: _, feed: _ } => "connected · "@ + name
            + " — drafts flow into your inbox"@,
        SourceVerb::Disconnect { key: _ } => "disconnected · "@ + name + " — captured drafts kept"@,
        SourceVerb::Sync { key: _ } => "sync queued · "@ + name,
    }
}

/// What a verb sends back: the word and a fresh read once it went through. The
/// verbs need the server: without it they are refused, not queued.
pub open spec fn verb_settled(verb: SourceVerb, reply: Result<String, Fault>, res: Seq<Action>) -> bool {
    &&& res.len() == 2
    &&& match reply {
        Ok(name) => {
            &&& notifies(res[0], Level::Success, verb_done(verb, name@))
            &&& res[1] == Action::RefreshConnect
        },
        Err(e) => {
            &&& notifies(
                res[0],
                Level::Error,
                if e.kind is Transport {
                    "offline — connecting needs the server; retry online"@
                } else {
                    refusal(e)
                },
            )
            &&& res[1] == Action::ConnectActionFailed
        },
    }
}

/// What a verb sends back.
pub fn verb_answered(verb: &SourceVerb, reply: Result<String, Fault>) -> (res: Vec<Action>)
    ensures
        verb_settled(*verb, reply, res@),
{
    match reply {
        Ok(name) => {
            let text = match verb {
                SourceVerb::Connect { key: _, feed: _ } => cat3(
                    "connected · ",
                    name.as_str(),
                    " — drafts flow into your inbox",
                ),
                SourceVerb::Disconnect { key: _ } => cat3(
                    "disconnected · ",
                    name.as_str(),
                    " — captured drafts kept",
                ),
                SourceVerb::Sync { key: _ } => cat2("sync queued · ", name.as_str()),
            };
            two(notice(Level::Success, text), Action::RefreshConnect)
        },
        Err(e) => {
            let text = match &e.kind {
                FaultKind::Transport => own("offline — connecting needs the server; retry online"),
                _ => problem_text(&e),
            };
            two(notice(Level::Error, text), Action::ConnectActionFailed)
        },
    }
}

// ---- laws ----

/// Nothing connects before the trust statement was on display: the verb that
/// connects is sent from the prompt that shows it, and from nowhere else.
pub proof fn the_trust_statement_comes_first(
    pre: Connect,
    action: Action,
    post: Connect,
    out: Outcome,
    key: String,
    feed: Option<String>,
)
    requires
        Connect::handled(pre, action, post, out),
        out.effects@.len() == 1,
        out.effects@[0] == Effect::Call(Request::Source(SourceVerb::Connect { key, feed })),
    ensures
        action is ConnectPromptSubmit,
        pre.prompt matches Some(Prompt::Connect { source, feed: f }) && source.key == key && f
            == feed && Connect::prompt_page(pre.prompt->0).take(5) == Connect::trust_page(source),
{
    if let Some(Prompt::Connect { source, feed: f }) = pre.prompt {
        assert(Connect::prompt_page(pre.prompt->0).take(5) =~= Connect::trust_page(source));
    }
}

/// A source with something in its way offers no connect: its prompt can only be
/// dismissed.
pub proof fn a_requirement_offers_no_connect(
    a: Connect,
    source: CaptureSource,
    b: Connect,
    x: Outcome,
    c: Connect,
    y: Outcome,
)
    requires
        a.prompt is None,
        a.chosen() == Some(source),
        !source.connected,
        !source.connectable,
        Connect::handled(a, Action::ConnectBegin, b, x),
        Connect::handled(b, Action::ConnectPromptSubmit, c, y),
    ensures
        b.prompt is Some,
        b.prompt->0 is Requirement,
        c == b,
        y.quiet(),
{
}

/// While a verb is on its way no other one is sent.
pub proof fn one_verb_at_a_time(pre: Connect, action: Action, post: Connect, out: Outcome, verb: SourceVerb)
    requires
        pre.in_flight,
        Connect::handled(pre, action, post, out),
    ensures
        forall|i: int|
            0 <= i < out.effects@.len() ==> #[trigger] out.effects@[i] != Effect::Call(
                Request::Source(verb),
            ),
{
}

/// A verb that was refused frees the screen for the next one; one that went
/// through does so with the fresh read.
pub proof fn every_answer_frees_the_screen(
    verb: SourceVerb,
    reply: Result<String, Fault>,
    sent: Seq<Action>,
    pre: Connect,
    post: Connect,
    out: Outcome,
)
    requires
        verb_settled(verb, reply, sent),
        Connect::handled(pre, sent[1], post, out),
    ensures
        !post.in_flight,
{
}

/// While a feed URL is typed every letter goes into it.
pub proof fn the_feed_takes_every_letter(s: Connect, c: char, key: KeyEvent)
    requires
        s.feed() is Some,
        key.code == KeyCode::Char(c),
    ensures
        s.intercepted(key) == Some(Action::ConnectFeedInput(c)),
{
}

/// A sync goes to the source under the cursor, whichever row that is, where it is
/// connected; where it is not, nothing is sent.
pub proof fn a_sync_goes_to_the_selected_source(pre: Connect, post: Connect, out: Outcome)
    requires
        pre.prompt is None,
        !pre.in_flight,
        pre.selected < pre.sources@.len(),
        Connect::handled(pre, Action::ConnectSync, post, out),
    ensures
        pre.sources@[pre.selected as int].connected ==> out.effects@ == seq![
            Effect::Call(
                Request::Source(SourceVerb::Sync { key: pre.sources@[pre.selected as int].key }),
            ),
        ] && post.in_flight,
        !pre.sources@[pre.selected as int].connected ==> out.effects@.len() == 0 && post == pre
            && out.note is Some,
        post.sources == pre.sources,
        post.selected == pre.selected,
{
}

/// Connecting goes to the source that the prompt was opened on: its own key, and no
/// feed where it takes none.
pub proof fn connecting_goes_to_the_source_it_was_begun_on(
    a: Connect,
    b: Connect,
    c: Connect,
    x: Outcome,
    y: Outcome,
)
    requires
        a.prompt is None,
        !a.in_flight,
        a.selected < a.sources@.len(),
        !a.sources@[a.selected as int].connected,
        a.sources@[a.selected as int].connectable,
        Connect::handled(a, Action::ConnectBegin, b, x),
        Connect::handled(b, Action::ConnectPromptSubmit, c, y),
    ensures
        x.effects@.len() == 0,
        y.effects@.len() == 1,
        y.effects@[0] matches Effect::Call(Request::Source(SourceVerb::Connect { key, feed }))
            && key@ == a.sources@[a.selected as int].key@ && (feed is Some
            <==> a.sources@[a.selected as int].takes_feed()),
        c.prompt is None,
        c.in_flight,
{
}

/// Disconnecting goes to the source that the confirmation was opened on, and only a
/// connected one is asked about.
pub proof fn disconnecting_goes_to_the_source_it_was_begun_on(
    a: Connect,
    b: Connect,
    c: Connect,
    x: Outcome,
    y: Outcome,
)
    requires
        a.prompt is None,
        !a.in_flight,
        a.selected < a.sources@.len(),
        Connect::handled(a, Action::ConnectDisconnectBegin, b, x),
        Connect::handled(b, Action::ConnectPromptSubmit, c, y),
    ensures
        x.effects@.len() == 0,
        a.sources@[a.selected as int].connected ==> y.effects@.len() == 1 && (
        y.effects@[0] matches Effect::Call(Request::Source(SourceVerb::Disconnect { key })) && key@
            == a.sources@[a.selected as int].key@),
        !a.sources@[a.selected as int].connected ==> b == a && y.effects@.len() == 0,
{
}

/// A source that is connected already is not connected again.
pub proof fn a_connected_source_is_not_connected_again(pre: Connect, post: Connect, out: Outcome)
    requires
        pre.prompt is None,
        pre.selected < pre.sources@.len(),
        pre.sources@[pre.selected as int].connected,
        Connect::handled(pre, Action::ConnectBegin, post, out),
    ensures
        post == pre,
        out.effects@.len() == 0,
        out.note is Some,
{
}

/// What is typed into the feed field is the feed, letter by letter, and which source
/// it is for does not change.
pub proof fn typing_words_the_feed(
    states: Seq<Connect>,
    typed: Seq<char>,
    outs: Seq<Outcome>,
    n: int,
)
    requires
        0 <= n <= typed.len(),
        states.len() == typed.len() + 1,
        states[0].prompt is Some,
        states[0].prompt->0 is Connect,
        states[0].feed() is Some,
        forall|i: int|
            #![trigger states[i]]
            0 <= i < typed.len() ==> Connect::handled(
                states[i],
                Action::ConnectFeedInput(typed[i]),
                states[i + 1],
                outs[i],
            ),
    ensures
        states[n].prompt matches Some(Prompt::Connect { source, feed }) && feed is Some && feed->0@
            == states[0].feed()->0@ + typed.take(n) && (
        states[0].prompt matches Some(Prompt::Connect { source: s, feed: _ }) && source == s),
        states[n].in_flight == states[0].in_flight,
    decreases n,
{
    if n > 0 {
        typing_words_the_feed(states, typed, outs, n - 1);
        assert(Connect::handled(
            states[n - 1],
            Action::ConnectFeedInput(typed[n - 1]),
            states[n],
            outs[n - 1],
        ));
        assert(typed.take(n) =~= typed.take(n - 1).push(typed[n - 1]));
        assert((states[0].feed()->0@ + typed.take(n - 1)).push(typed[n - 1])
            =~= states[0].feed()->0@ + typed.take(n));
    } else {
        assert(states[0].feed()->0@ + typed.take(0) =~= states[0].feed()->0@);
    }
}

/// Begin on a source that takes a feed, type one, submit: that source is connected
/// with exactly what was typed.
pub proof fn the_typed_feed_is_sent(
    pre: Connect,
    begun: Outcome,
    states: Seq<Connect>,
    typed: Seq<char>,
    outs: Seq<Outcome>,
    post: Connect,
    out: Outcome,
)
    requires
        pre.prompt is None,
        !pre.in_flight,
        pre.selected < pre.sources@.len(),
        !pre.sources@[pre.selected as int].connected,
        pre.sources@[pre.selected as int].connectable,
        pre.sources@[pre.selected as int].takes_feed(),
        Connect::handled(pre, Action::ConnectBegin, states[0], begun),
        states.len() == typed.len() + 1,
        forall|i: int|
            #![trigger states[i]]
            0 <= i < typed.len() ==> Connect::handled(
                states[i],
                Action::ConnectFeedInput(typed[i]),
                states[i + 1],
                outs[i],
            ),
        Connect::handled(states.last(), Action::ConnectPromptSubmit, post, out),
    ensures
        out.effects@.len() == 1,
        out.effects@[0] matches Effect::Call(Request::Source(SourceVerb::Connect { key, feed }))
            && key@ == pre.sources@[pre.selected as int].key@ && feed is Some && feed->0@ == typed,
{
    typing_words_the_feed(states, typed, outs, typed.len() as int);
    assert(typed.take(typed.len() as int) =~= typed);
    assert(Seq::<char>::empty() + typed =~= typed);
}

/// A cancelled prompt sends nothing, and changes no source.
pub proof fn a_cancelled_prompt_sends_nothing(pre: Connect, post: Connect, out: Outcome)
    requires
        Connect::handled(pre, Action::ConnectPromptCancel, post, out),
    ensures
        post.prompt is None,
        post.sources == pre.sources,
        post.in_flight == pre.in_flight,
        out.effects@.len() == 0,
{
}

/// `Enter` on a connect prompt submits it and `Esc` drops it; on the confirmations
/// `y` submits and `n` drops as well.
pub proof fn the_prompts_keys(s: Connect, key: KeyEvent)
    requires
        s.prompt is Some,
    ensures
        key.code == KeyCode::Esc ==> s.intercepted(key) == Some(Action::ConnectPromptCancel),
        key.code == KeyCode::Enter && !(s.prompt->0 is Requirement) ==> s.intercepted(key) == Some(
            Action::ConnectPromptSubmit,
        ),
        s.prompt->0 is Disconnect && key.code == KeyCode::Char('y') ==> s.intercepted(key) == Some(
            Action::ConnectPromptSubmit,
        ),
        s.prompt->0 is Disconnect && key.code == KeyCode::Char('n') ==> s.intercepted(key) == Some(
            Action::ConnectPromptCancel,
        ),
        s.prompt->0 is Requirement ==> s.intercepted(key) != Some(Action::ConnectPromptSubmit),
{
}

/// A step lands on the source that far away, or on an end; an open prompt holds the
/// cursor where it is.
pub proof fn a_step_walks_the_sources(pre: Connect, d: i32, post: Connect, out: Outcome)
    requires
        pre.selected < pre.sources@.len() <= usize::MAX,
        Connect::handled(pre, Action::ConnectMove(d), post, out),
    ensures
        pre.prompt is Some ==> post == pre,
        pre.prompt is None && 0 <= pre.selected + d < pre.sources@.len() ==> post.selected
            == pre.selected + d,
        pre.prompt is None && pre.selected + d < 0 ==> post.selected == 0,
        pre.prompt is None && pre.selected + d >= pre.sources@.len() ==> post.selected
            == pre.sources@.len() - 1,
        post.sources == pre.sources,
        out.effects@.len() == 0,
{
}

/// The sources are shown as they came, and a failed read keeps the ones before it.
pub proof fn the_sources_are_shown_as_they_came(
    pre: Connect,
    action: Action,
    post: Connect,
    out: Outcome,
)
    requires
        Connect::handled(pre, action, post, out),
    ensures
        action matches Action::ConnectLoaded(sources) ==> post.sources == sources && !post.in_flight
            && post.error is None,
        !(action is ConnectLoaded) ==> post.sources == pre.sources,
        action matches Action::ConnectLoadFailed(e) ==> post.error == Some(e) && out.note is Some
            && (out.note->0).0 == Level::Error && (out.note->0).1@ == e@,
{
}

/// Only a verb that went through reads the sources anew, and it says so; one that
/// failed says so too.
pub proof fn only_a_settled_verb_rereads(
    verb: SourceVerb,
    reply: Result<String, Fault>,
    sent: Seq<Action>,
)
    requires
        verb_settled(verb, reply, sent),
    ensures
        sent.len() == 2,
        reply is Ok <==> sent[1] is RefreshConnect,
        reply is Err <==> sent[1] is ConnectActionFailed,
        sent[0] matches Action::Notify { level, .. } && level == (if reply is Ok {
            Level::Success
        } else {
            Level::Error
        }),
{
}

/// A feed is asked for exactly by a source that names it among its parameters.
pub proof fn a_feed_is_asked_for_by_its_parameter(
    pre: Connect,
    post: Connect,
    out: Outcome,
)
    requires
        pre.prompt is None,
        pre.selected < pre.sources@.len(),
        !pre.sources@[pre.selected as int].connected,
        pre.sources@[pre.selected as int].connectable,
        Connect::handled(pre, Action::ConnectBegin, post, out),
    ensures
        post.prompt matches Some(Prompt::Connect { source, feed }) && source.key@
            == pre.sources@[pre.selected as int].key@ && (feed is Some <==> exists|i: int|
            0 <= i < pre.sources@[pre.selected as int].params@.len()
                && #[trigger] pre.sources@[pre.selected as int].params@[i]@ == "feed_url"@),
        out.effects@.len() == 0,
{
}

/// A row shows its own source: whether it is connected, its name, and what it reads or
/// what stands in its way.
pub proof fn a_row_shows_its_source(s: CaptureSource)
    ensures
        Connect::row_text(s).len() == 3,
        s.connected ==> Connect::row_text(s)[0].1 == " connected "@,
        !s.connected && !s.connectable ==> Connect::row_text(s)[0].1 == " needs GitHub "@,
        !s.connected && s.connectable ==> Connect::row_text(s)[0].1 == "not connected"@,
        Connect::row_text(s)[1].1 == s.name@,
        s.requirement is None ==> Connect::row_text(s)[2].1 == s.trust.reads@,
        s.requirement matches Some(r) ==> Connect::row_text(s)[2].1 == r.detail@,
{
}

/// The trust statement is shown word for word: what is read, what never is, and the
/// promise.
pub proof fn the_trust_statement_is_word_for_word(s: CaptureSource, feed: Option<String>)
    ensures
        ({
            let page = Connect::prompt_page(Prompt::Connect { source: s, feed });
            &&& page.len() > 6
            &&& page[2][1].1 == s.trust.reads@
            &&& page[3][1].1 == s.trust.never_reads@
            &&& page[4][1].1 == s.trust.promise@
            &&& feed matches Some(url) ==> page[7][0].1 == url@
            &&& feed is None ==> page[6][0].1 == "Connect "@ + s.name@ + "?"@
        }),
{
}

/// The other prompts name their source, and a requirement shows the way out word for word.
pub proof fn the_prompts_name_their_source(s: CaptureSource)
    ensures
        Connect::prompt_page(Prompt::Disconnect { source: s })[0][0].1 == "Disconnect "@ + s.name@
            + "?"@,
        Connect::prompt_page(Prompt::Requirement { source: s })[0][0].1 == s.name@
            + " needs GitHub connected first"@,
        s.requirement matches Some(r) ==> Connect::prompt_page(Prompt::Requirement { source: s })[2][0].1
            == r.detail@,
        s.requirement matches Some(r) && r.url is Some ==> Connect::prompt_page(
            Prompt::Requirement { source: s },
        )[4][1].1 == s.requirement->0.url->0@,
{
}

/// A verb that went through is said with what it did and to which source.
pub proof fn a_verb_is_said_with_its_source(verb: SourceVerb, name: Seq<char>)
    ensures
        verb is Connect ==> verb_done(verb, name) == "connected · "@ + name
            + " — drafts flow into your inbox"@,
        verb is Disconnect ==> verb_done(verb, name) == "disconnected · "@ + name
            + " — captured drafts kept"@,
        verb is Sync ==> verb_done(verb, name) == "sync queued · "@ + name,
{
}

/// What was read reaches the screen as it came, and a failure in its words.
pub proof fn a_read_reaches_the_sources(reply: Result<Vec<CaptureSource>, Fault>, sent: Action)
    requires
        call_ensures(sources_read, (reply,), sent),
    ensures
        reply matches Ok(sources) ==> sent == Action::ConnectLoaded(sources),
        reply is Err ==> (sent matches Action::ConnectLoadFailed(t) && t@
            == "sources load failed: "@ + reply->Err_0.shown@),
{
}

/// A refusal is worded by the server where it gave a reason, by its title where it did not.
pub proof fn a_refusal_is_worded_by_the_server(e: Fault)
    ensures
        e.kind is Unauthorized ==> refusal(e) == "not authenticated — run `engineer login`"@,
        e.kind matches FaultKind::Problem { detail, .. } && detail@.len() > 0 ==> refusal(e)
            == "refused · "@ + e.kind->detail@,
        e.kind matches FaultKind::Problem { detail, .. } && detail@.len() == 0 ==> refusal(e)
            == "refused · "@ + e.kind->title@,
        !(e.kind is Unauthorized) && !(e.kind is Problem) ==> refusal(e) == e.shown@,
{
}

/// The title names the source a prompt is about, and a list without sources says the
/// failure first.
pub proof fn the_title_names_the_source(s: Connect)
    ensures
        s.prompt is None ==> s.title_text() == "Connect · sources"@,
        s.prompt matches Some(Prompt::Connect { source, feed }) ==> s.title_text()
            == "Connect · "@ + source.name@,
        s.prompt matches Some(Prompt::Requirement { source }) ==> s.title_text()
            == "Connect · "@ + source.name@,
        s.prompt matches Some(Prompt::Disconnect { source }) ==> s.title_text()
            == "Connect · disconnect"@,
        s.error matches Some(e) ==> s.empty_text() == e@,
        s.error is None && s.loading ==> s.empty_text() == "loading…"@,
        s.error is None && !s.loading ==> s.empty_text() == "no capture sources"@,
{
}

/// Every field keeps its value but through the actions that are about it.
pub proof fn what_an_action_leaves_alone(
    pre: Connect,
    action: Action,
    post: Connect,
    out: Outcome,
)
    requires
        Connect::handled(pre, action, post, out),
    ensures
        post.sources == pre.sources || action is ConnectLoaded,
        post.selected == pre.selected || action is ConnectLoaded || action is ConnectMove,
        post.loading == pre.loading || action is ConnectLoaded || action is ConnectLoadFailed
            || action is RefreshConnect,
        post.error == pre.error || action is ConnectLoaded || action is ConnectLoadFailed,
        post.prompt == pre.prompt || action is RefreshConnect || action is ConnectBegin
            || action is ConnectDisconnectBegin || action is ConnectPromptSubmit
            || action is ConnectPromptCancel || action is ConnectFeedInput
            || action is ConnectFeedBackspace,
        post.in_flight == pre.in_flight || action is ConnectLoaded || action is RefreshConnect
            || action is ConnectSync || action is ConnectPromptSubmit
            || action is ConnectActionFailed,
{
}

/// Only these actions say something, and only these send something; a read under way is
/// marked until it is answered.
pub proof fn which_actions_are_heard(
    pre: Connect,
    action: Action,
    post: Connect,
    out: Outcome,
)
    requires
        Connect::handled(pre, action, post, out),
    ensures
        out.note is None || action is ConnectLoadFailed || action is ConnectBegin
            || action is ConnectDisconnectBegin || action is ConnectSync,
        out.effects@.len() == 0 || action is RefreshConnect || action is ConnectSync
            || action is ConnectPromptSubmit,
        out.effects@.len() <= 1,
        action is RefreshConnect ==> post.loading,
        (action is ConnectLoaded || action is ConnectLoadFailed) ==> !post.loading,
{
}

/// A source that is already connected, or not yet, is named where the gesture does not
/// fit it.
pub proof fn what_a_gesture_on_a_source_is_told(
    pre: Connect,
    begin: Outcome,
    end: Outcome,
    sync: Outcome,
    a: Connect,
    b: Connect,
    c: Connect,
)
    requires
        pre.prompt is None,
        pre.selected < pre.sources@.len(),
        Connect::handled(pre, Action::ConnectBegin, a, begin),
        Connect::handled(pre, Action::ConnectDisconnectBegin, b, end),
        Connect::handled(pre, Action::ConnectSync, c, sync),
    ensures
        pre.sources@[pre.selected as int].connected ==> {
            &&& begin.note is Some
            &&& (begin.note->0).0 == Level::Info
            &&& (begin.note->0).1@ == pre.sources@[pre.selected as int].name@
                + " is already connected · d to disconnect"@
        },
        !pre.sources@[pre.selected as int].connected ==> {
            &&& end.note is Some
            &&& (end.note->0).0 == Level::Info
            &&& (end.note->0).1@ == pre.sources@[pre.selected as int].name@ + " isn't connected"@
            &&& sync.note is Some
            &&& (sync.note->0).0 == Level::Info
            &&& (sync.note->0).1@ == "connect "@ + pre.sources@[pre.selected as int].name@
                + " before syncing it"@
        },
{
}

/// The screen starts empty, with nothing read, asked or sent.
pub proof fn how_the_screen_starts(s: Connect)
    requires
        call_ensures(Connect::default, (), s),
    ensures
        s.sources@.len() == 0,
        s.selected == 0,
        !s.loading,
        s.error is None,
        s.prompt is None,
        !s.in_flight,
{
}

} // verus!
