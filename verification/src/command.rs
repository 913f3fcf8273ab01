//! The `:` command grammar: one table that parsing, completion and the hints
//! all read.

use crate::line::{Line, Tone};
use crate::screens::ScreenKind;
use crate::text::{
    blank, cat2, cat3, cat5, chars_of, gap, is_white, join, join_words, joined, own, same, spell,
    split_once, starts_with, texts, trim, trim_start, trimmed, trimmed_start, words,
};
use vstd::prelude::*;

verus! {

/// The verbs that the timer takes from the command line.
#[derive(Debug, Clone, Copy, PartialEq, Eq, Structural)]
pub enum TimerVerb {
    Start,
    Pause,
    Resume,
    Stop,
}

impl TimerVerb {
    /// The names of the timer's verbs, in table order.
    pub open spec fn name_texts() -> Seq<Seq<char>> {
        seq!["start"@, "pause"@, "resume"@, "stop"@]
    }

    /// The verb that a name stands for.
    pub open spec fn named(name: Seq<char>) -> Option<TimerVerb> {
        if name == "start"@ {
            Some(TimerVerb::Start)
        } else if name == "pause"@ {
            Some(TimerVerb::Pause)
        } else if name == "resume"@ {
            Some(TimerVerb::Resume)
        } else if name == "stop"@ {
            Some(TimerVerb::Stop)
        } else {
            None
        }
    }

    /// The names of the timer's verbs.
    pub fn names() -> (res: Vec<&'static str>)
        ensures
            words(res@) == Self::name_texts(),
    {
        let mut v: Vec<&'static str> = Vec::new();
        v.push("start");
        v.push("pause");
        v.push("resume");
        v.push("stop");
        assert(words(v@) =~= Self::name_texts());
        v
    }

    /// The verb that a name stands for.
    pub fn from_name(name: &str) -> (res: Option<TimerVerb>)
        ensures
            res == Self::named(name@),
    {
        if same(name, "start") {
            Some(TimerVerb::Start)
        } else if same(name, "pause") {
            Some(TimerVerb::Pause)
        } else if same(name, "resume") {
            Some(TimerVerb::Resume)
        } else if same(name, "stop") {
            Some(TimerVerb::Stop)
        } else {
            None
        }
    }
}

/// Under which heading `:help` lists a verb.
#[derive(Debug, Clone, Copy, PartialEq, Eq, Structural)]
pub enum Kind {
    Nav,
    Action,
    Housekeeping,
}

/// What a verb takes behind it.
#[derive(Debug)]
pub enum Arg {
    Nothing,
    Enum(Vec<&'static str>),
    Text,
}

/// What a verb dispatches. `Declare` is the `:target` verb's.
#[derive(Debug, Clone, Copy, PartialEq, Eq, Structural)]
pub enum Target {
    Nav(ScreenKind),
    Timer,
    Note,
    Log,
    Declare,
    Quit,
    Write,
    Logs,
    Logout,
    Help,
}

/// One verb of the table.
#[derive(Debug)]
pub struct Entry {
    pub verb: &'static str,
    pub aliases: Vec<&'static str>,
    pub kind: Kind,
    pub arg: Arg,
    pub help: &'static str,
    pub target: Target,
}

/// The model of [`Arg`].
pub enum ArgModel {
    Nothing,
    Enum(Seq<Seq<char>>),
    Text,
}

/// The model of [`Entry`].
pub struct Row {
    pub verb: Seq<char>,
    pub aliases: Seq<Seq<char>>,
    pub kind: Kind,
    pub arg: ArgModel,
    pub help: Seq<char>,
    pub target: Target,
}

impl View for Arg {
    type V = ArgModel;

    open spec fn view(&self) -> ArgModel {
        match self {
            Arg::Nothing => ArgModel::Nothing,
            Arg::Enum(names) => ArgModel::Enum(words(names@)),
            Arg::Text => ArgModel::Text,
        }
    }
}

impl View for Entry {
    type V = Row;

    open spec fn view(&self) -> Row {
        Row {
            verb: self.verb@,
            aliases: words(self.aliases@),
            kind: self.kind,
            arg: self.arg@,
            help: self.help@,
            target: self.target,
        }
    }
}

/// The models of a list of entries.
pub open spec fn rows(v: Seq<Entry>) -> Seq<Row> {
    v.map_values(|e: Entry| e@)
}

/// A verb without aliases that takes nothing and only goes somewhere.
pub open spec fn nav_row(verb: Seq<char>, help: Seq<char>, kind: ScreenKind) -> Row {
    plain_row(verb, Kind::Nav, help, Target::Nav(kind))
}

/// A verb without aliases that takes nothing.
pub open spec fn plain_row(verb: Seq<char>, kind: Kind, help: Seq<char>, target: Target) -> Row {
    Row { verb, aliases: Seq::empty(), kind, arg: ArgModel::Nothing, help, target }
}

/// The whole grammar, in `:help` display order.
pub open spec fn table() -> Seq<Row> {
    seq![
        nav_row("home"@, "go to Home"@, ScreenKind::Home),
        nav_row("books"@, "browse books"@, ScreenKind::Books),
        nav_row("activities"@, "the activities table"@, ScreenKind::Activities),
        nav_row("notes"@, "the notes browser"@, ScreenKind::Notes),
        nav_row("review"@, "the review dashboard"@, ScreenKind::Review),
        nav_row("progress"@, "pace meters"@, ScreenKind::Progress),
        nav_row("week"@, "the week board — planned vs done"@, ScreenKind::Week),
        nav_row("inbox"@, "triage the assisted-capture drafts"@, ScreenKind::Inbox),
        nav_row(
            "queue"@,
            "the offline write queue — inspect, retry, drop, reconcile"@,
            ScreenKind::Queue,
        ),
        nav_row("settings"@, "timer knobs (read-only)"@, ScreenKind::Settings),
        nav_row("audit"@, "flagged segments (Progress ▸ audit)"@, ScreenKind::Audit),
        Row {
            verb: "timer"@,
            aliases: seq!["t"@],
            kind: Kind::Nav,
            arg: ArgModel::Enum(TimerVerb::name_texts()),
            help: "timer screen · start|pause|resume|stop"@,
            target: Target::Timer,
        },
        Row {
            verb: "note"@,
            aliases: Seq::empty(),
            kind: Kind::Action,
            arg: ArgModel::Text,
            help: "quick-capture, prefilled with <text>"@,
            target: Target::Note,
        },
        plain_row("log"@, Kind::Action, "log a completed activity"@, Target::Log),
        plain_row("target"@, Kind::Action, "declare a weekly target (Progress)"@, Target::Declare),
        plain_row("logs"@, Kind::Housekeeping, "show the log directory"@, Target::Logs),
        Row {
            verb: "w"@,
            aliases: seq!["write"@],
            kind: Kind::Housekeeping,
            arg: ArgModel::Nothing,
            help: "submit the current form"@,
            target: Target::Write,
        },
        plain_row("logout"@, Kind::Housekeeping, "how to sign out"@, Target::Logout),
        Row {
            verb: "quit"@,
            aliases: seq!["q"@],
            kind: Kind::Housekeeping,
            arg: ArgModel::Nothing,
            help: "quit engineer"@,
            target: Target::Quit,
        },
        plain_row("help"@, Kind::Housekeeping, "list the commands"@, Target::Help),
    ]
}

/// The verbs the empty command line advertises.
pub open spec fn nav_verb_texts() -> Seq<Seq<char>> {
    seq![
        "home"@,
        "books"@,
        "activities"@,
        "notes"@,
        "review"@,
        "progress"@,
        "week"@,
        "inbox"@,
        "queue"@,
        "timer"@,
    ]
}

fn nav_entry(verb: &'static str, help: &'static str, kind: ScreenKind) -> (res: Entry)
    ensures
        res@ == nav_row(verb@, help@, kind),
{
    plain_entry(verb, Kind::Nav, help, Target::Nav(kind))
}

fn plain_entry(verb: &'static str, kind: Kind, help: &'static str, target: Target) -> (res: Entry)
    ensures
        res@ == plain_row(verb@, kind, help@, target),
{
    let e = Entry { verb, aliases: Vec::new(), kind, arg: Arg::Nothing, help, target };
    assert(e@.aliases =~= Seq::empty());
    e
}

fn aliased(alias: &'static str) -> (res: Vec<&'static str>)
    ensures
        words(res@) == seq![alias@],
{
    let mut v: Vec<&'static str> = Vec::new();
    v.push(alias);
    assert(words(v@) =~= seq![alias@]);
    v
}

/// The whole grammar, in `:help` display order.
pub fn entries() -> (res: Vec<Entry>)
    ensures
        rows(res@) == table(),
{
    let mut v: Vec<Entry> = Vec::new();
    v.push(nav_entry("home", "go to Home", ScreenKind::Home));
    v.push(nav_entry("books", "browse books", ScreenKind::Books));
    v.push(nav_entry("activities", "the activities table", ScreenKind::Activities));
    v.push(nav_entry("notes", "the notes browser", ScreenKind::Notes));
    v.push(nav_entry("review", "the review dashboard", ScreenKind::Review));
    v.push(nav_entry("progress", "pace meters", ScreenKind::Progress));
    v.push(nav_entry("week", "the week board — planned vs done", ScreenKind::Week));
    v.push(nav_entry("inbox", "triage the assisted-capture drafts", ScreenKind::Inbox));
    v.push(
        nav_entry(
            "queue",
            "the offline write queue — inspect, retry, drop, reconcile",
            ScreenKind::Queue,
        ),
    );
    v.push(nav_entry("settings", "timer knobs (read-only)", ScreenKind::Settings));
    v.push(nav_entry("audit", "flagged segments (Progress ▸ audit)", ScreenKind::Audit));
    v.push(
        Entry {
            verb: "timer",
            aliases: aliased("t"),
            kind: Kind::Nav,
            arg: Arg::Enum(TimerVerb::names()),
            help: "timer screen · start|pause|resume|stop",
            target: Target::Timer,
        },
    );
    v.push(
        Entry {
            verb: "note",
            aliases: Vec::new(),
            kind: Kind::Action,
            arg: Arg::Text,
            help: "quick-capture, prefilled with <text>",
            target: Target::Note,
        },
    );
    v.push(plain_entry("log", Kind::Action, "log a completed activity", Target::Log));
    v.push(
        plain_entry("target", Kind::Action, "declare a weekly target (Progress)", Target::Declare),
    );
    v.push(plain_entry("logs", Kind::Housekeeping, "show the log directory", Target::Logs));
    v.push(
        Entry {
            verb: "w",
            aliases: aliased("write"),
            kind: Kind::Housekeeping,
            arg: Arg::Nothing,
            help: "submit the current form",
            target: Target::Write,
        },
    );
    v.push(plain_entry("logout", Kind::Housekeeping, "how to sign out", Target::Logout));
    v.push(
        Entry {
            verb: "quit",
            aliases: aliased("q"),
            kind: Kind::Housekeeping,
            arg: Arg::Nothing,
            help: "quit engineer",
            target: Target::Quit,
        },
    );
    v.push(plain_entry("help", Kind::Housekeeping, "list the commands", Target::Help));
    assert(v@[12]@.aliases =~= Seq::empty());
    assert(rows(v@) =~= table());
    v
}

/// The verbs the empty command line advertises.
pub fn nav_verbs() -> (res: Vec<&'static str>)
    ensures
        words(res@) == nav_verb_texts(),
{
    let mut v: Vec<&'static str> = Vec::new();
    v.push("home");
    v.push("books");
    v.push("activities");
    v.push("notes");
    v.push("review");
    v.push("progress");
    v.push("week");
    v.push("inbox");
    v.push("queue");
    v.push("timer");
    assert(words(v@) =~= nav_verb_texts());
    v
}

/// What a command line runs.
#[derive(Debug, Clone, PartialEq, Eq)]
pub enum Command {
    Nav(ScreenKind),
    Timer(TimerVerb),
    Note(Option<String>),
    Log,
    Target,
    Quit,
    Write,
    Logs,
    Logout,
    Help,
}

/// What a command line means.
#[derive(Debug, Clone, PartialEq, Eq)]
pub enum Parse {
    Empty,
    Run(Command),
    Unknown(String),
    Ambiguous(Vec<&'static str>),
    BadArg { verb: &'static str, expected: Vec<&'static str>, got: String },
    AmbiguousArg { verb: &'static str, matches: Vec<&'static str> },
}

/// The model of [`Command`].
pub enum CommandModel {
    Nav(ScreenKind),
    Timer(TimerVerb),
    Note(Option<Seq<char>>),
    Log,
    Target,
    Quit,
    Write,
    Logs,
    Logout,
    Help,
}

/// The model of [`Parse`].
pub enum ParseModel {
    Empty,
    Run(CommandModel),
    Unknown(Seq<char>),
    Ambiguous(Seq<Seq<char>>),
    BadArg { verb: Seq<char>, expected: Seq<Seq<char>>, got: Seq<char> },
    AmbiguousArg { verb: Seq<char>, matches: Seq<Seq<char>> },
}

impl View for Command {
    type V = CommandModel;

    open spec fn view(&self) -> CommandModel {
        match self {
            Command::Nav(kind) => CommandModel::Nav(*kind),
            Command::Timer(verb) => CommandModel::Timer(*verb),
            Command::Note(None) => CommandModel::Note(None),
            Command::Note(Some(text)) => CommandModel::Note(Some(text@)),
            Command::Log => CommandModel::Log,
            Command::Target => CommandModel::Target,
            Command::Quit => CommandModel::Quit,
            Command::Write => CommandModel::Write,
            Command::Logs => CommandModel::Logs,
            Command::Logout => CommandModel::Logout,
            Command::Help => CommandModel::Help,
        }
    }
}

impl View for Parse {
    type V = ParseModel;

    open spec fn view(&self) -> ParseModel {
        match self {
            Parse::Empty => ParseModel::Empty,
            Parse::Run(command) => ParseModel::Run(command@),
            Parse::Unknown(verb) => ParseModel::Unknown(verb@),
            Parse::Ambiguous(verbs) => ParseModel::Ambiguous(words(verbs@)),
            Parse::BadArg { verb, expected, got } => ParseModel::BadArg {
                verb: verb@,
                expected: words(expected@),
                got: got@,
            },
            Parse::AmbiguousArg { verb, matches } => ParseModel::AmbiguousArg {
                verb: verb@,
                matches: words(matches@),
            },
        }
    }
}

// ---- resolving a verb ----

/// How a token is held against a row of the table.
#[derive(Debug, Clone, Copy, PartialEq, Eq, Structural)]
pub enum Match {
    /// The token is the verb or one of its aliases.
    Exact,
    /// The token begins the verb or one of its aliases.
    Prefix,
    /// The token begins the verb.
    VerbPrefix,
}

/// Whether the token begins one of the words.
pub open spec fn begins_one(tok: Seq<char>, names: Seq<Seq<char>>) -> bool {
    exists|i: int| 0 <= i < names.len() && tok.is_prefix_of(#[trigger] names[i])
}

/// Whether a row suits a token.
pub open spec fn suits(row: Row, tok: Seq<char>, how: Match) -> bool {
    match how {
        Match::Exact => row.verb == tok || row.aliases.contains(tok),
        Match::Prefix => tok.is_prefix_of(row.verb) || begins_one(tok, row.aliases),
        Match::VerbPrefix => tok.is_prefix_of(row.verb),
    }
}

/// The rows that suit a token, in table order.
pub open spec fn picked(all: Seq<Row>, tok: Seq<char>, how: Match) -> Seq<Row>
    decreases all.len(),
{
    if all.len() == 0 {
        Seq::empty()
    } else {
        let before = picked(all.drop_last(), tok, how);
        if suits(all.last(), tok, how) {
            before.push(all.last())
        } else {
            before
        }
    }
}

/// The verbs of some rows.
pub open spec fn verbs(some: Seq<Row>) -> Seq<Seq<char>> {
    some.map_values(|r: Row| r.verb)
}

/// What a token resolves to.
pub enum HitModel {
    One(Row),
    Many(Seq<Seq<char>>),
    Miss,
}

/// A token resolves to the row that it names exactly; failing that to the row
/// that it begins, where there is just one.
pub open spec fn resolved(tok: Seq<char>) -> HitModel {
    let exact = picked(table(), tok, Match::Exact);
    let begun = picked(table(), tok, Match::Prefix);
    if exact.len() > 0 {
        HitModel::One(exact[0])
    } else if begun.len() == 0 {
        HitModel::Miss
    } else if begun.len() == 1 {
        HitModel::One(begun[0])
    } else {
        HitModel::Many(verbs(begun))
    }
}

enum VerbHit {
    One(Entry),
    Many(Vec<&'static str>),
    Miss,
}

impl View for VerbHit {
    type V = HitModel;

    closed spec fn view(&self) -> HitModel {
        match self {
            VerbHit::One(e) => HitModel::One(e@),
            VerbHit::Many(v) => HitModel::Many(words(v@)),
            VerbHit::Miss => HitModel::Miss,
        }
    }
}

fn begins_any(tok: &str, names: &Vec<&'static str>) -> (res: bool)
    ensures
        res == begins_one(tok@, words(names@)),
{
    let mut i: usize = 0;
    while i < names.len()
        invariant
            i <= names.len(),
            forall|j: int| 0 <= j < i ==> !tok@.is_prefix_of(#[trigger] words(names@)[j]),
        decreases names.len() - i,
    {
        if starts_with(names[i], tok) {
            assert(tok@.is_prefix_of(words(names@)[i as int]));
            return true;
        }
        i = i + 1;
    }
    false
}

fn lists(names: &Vec<&'static str>, tok: &str) -> (res: bool)
    ensures
        res == words(names@).contains(tok@),
{
    let mut i: usize = 0;
    while i < names.len()
        invariant
            i <= names.len(),
            forall|j: int| 0 <= j < i ==> #[trigger] words(names@)[j] != tok@,
        decreases names.len() - i,
    {
        if same(names[i], tok) {
            assert(words(names@)[i as int] == tok@);
            return true;
        }
        i = i + 1;
    }
    false
}

fn matches_entry(e: &Entry, tok: &str, how: Match) -> (res: bool)
    ensures
        res == suits(e@, tok@, how),
{
    match how {
        Match::Exact => same(e.verb, tok) || lists(&e.aliases, tok),
        Match::Prefix => starts_with(e.verb, tok) || begins_any(tok, &e.aliases),
        Match::VerbPrefix => starts_with(e.verb, tok),
    }
}

fn pick(tok: &str, how: Match) -> (res: Vec<Entry>)
    ensures
        rows(res@) == picked(table(), tok@, how),
{
    let all = entries();
    let ghost seen = all@;
    let mut out: Vec<Entry> = Vec::new();
    assert(rows(out@) =~= Seq::<Row>::empty());
    for e in it: all
        invariant
            it.seq() == seen,
            rows(out@) == picked(rows(seen).take(it.index() as int), tok@, how),
    {
        proof {
            let here = rows(seen).take(it.index() as int + 1);
            assert(here.drop_last() =~= rows(seen).take(it.index() as int));
            assert(here.last() == e@);
        }
        if matches_entry(&e, tok, how) {
            let ghost before = out@;
            out.push(e);
            assert(rows(out@) =~= rows(before).push(e@));
        }
    }
    assert(rows(seen).take(rows(seen).len() as int) =~= rows(seen));
    out
}

fn verbs_of(some: &Vec<Entry>) -> (res: Vec<&'static str>)
    ensures
        words(res@) == verbs(rows(some@)),
{
    let mut out: Vec<&'static str> = Vec::new();
    let mut i: usize = 0;
    while i < some.len()
        invariant
            i <= some.len(),
            words(out@) =~= verbs(rows(some@)).take(i as int),
        decreases some.len() - i,
    {
        let ghost before = out@;
        out.push(some[i].verb);
        assert(words(out@) =~= words(before).push(some@[i as int].verb@));
        i = i + 1;
    }
    out
}

fn resolve_verb(tok: &str) -> (res: VerbHit)
    ensures
        res@ == resolved(tok@),
{
    let mut exact = pick(tok, Match::Exact);
    if exact.len() > 0 {
        assert(rows(exact@)[0] == exact@[0]@);
        return VerbHit::One(exact.remove(0));
    }
    let mut begun = pick(tok, Match::Prefix);
    if begun.len() == 0 {
        VerbHit::Miss
    } else if begun.len() == 1 {
        assert(rows(begun@)[0] == begun@[0]@);
        VerbHit::One(begun.remove(0))
    } else {
        VerbHit::Many(verbs_of(&begun))
    }
}

// ---- resolving an argument ----

/// The names that a token begins, in list order.
pub open spec fn begun_names(names: Seq<Seq<char>>, tok: Seq<char>) -> Seq<Seq<char>>
    decreases names.len(),
{
    if names.len() == 0 {
        Seq::empty()
    } else {
        let before = begun_names(names.drop_last(), tok);
        if tok.is_prefix_of(names.last()) {
            before.push(names.last())
        } else {
            before
        }
    }
}

/// What an argument resolves to among its names: itself where it is one of
/// them, else the names that it begins.
pub open spec fn arg_hits(names: Seq<Seq<char>>, tok: Seq<char>) -> Seq<Seq<char>> {
    if names.contains(tok) {
        seq![tok]
    } else {
        begun_names(names, tok)
    }
}

/// The names a token begins are all among the names.
pub proof fn lemma_begun_names(names: Seq<Seq<char>>, tok: Seq<char>)
    ensures
        begun_names(names, tok).len() <= names.len(),
        forall|i: int|
            0 <= i < begun_names(names, tok).len() ==> {
                &&& names.contains(#[trigger] begun_names(names, tok)[i])
                &&& tok.is_prefix_of(begun_names(names, tok)[i])
            },
    decreases names.len(),
{
    if names.len() > 0 {
        lemma_begun_names(names.drop_last(), tok);
        let hits = begun_names(names, tok);
        let before = begun_names(names.drop_last(), tok);
        assert forall|i: int| 0 <= i < hits.len() implies names.contains(#[trigger] hits[i])
            && tok.is_prefix_of(hits[i]) by {
            if i < before.len() {
                assert(names.drop_last().contains(before[i]));
                let k = choose|k: int|
                    0 <= k < names.drop_last().len() && names.drop_last()[k] == before[i];
                assert(names[k] == before[i]);
            } else {
                assert(names[names.len() - 1] == hits[i]);
            }
        }
    }
}

fn begun(names: &Vec<&'static str>, tok: &str) -> (res: Vec<&'static str>)
    ensures
        words(res@) == begun_names(words(names@), tok@),
{
    let mut out: Vec<&'static str> = Vec::new();
    assert(words(out@) =~= Seq::<Seq<char>>::empty());
    let mut i: usize = 0;
    while i < names.len()
        invariant
            i <= names.len(),
            words(out@) == begun_names(words(names@).take(i as int), tok@),
        decreases names.len() - i,
    {
        proof {
            let here = words(names@).take(i as int + 1);
            assert(here.drop_last() =~= words(names@).take(i as int));
            assert(here.last() == names@[i as int]@);
        }
        if starts_with(names[i], tok) {
            let ghost before = out@;
            out.push(names[i]);
            assert(words(out@) =~= words(before).push(names@[i as int]@));
        }
        i = i + 1;
    }
    assert(words(names@).take(names@.len() as int) =~= words(names@));
    out
}

fn resolve_arg(names: &Vec<&'static str>, tok: &str) -> (res: Vec<&'static str>)
    ensures
        words(res@) == arg_hits(words(names@), tok@),
{
    let mut i: usize = 0;
    while i < names.len()
        invariant
            i <= names.len(),
            forall|j: int| 0 <= j < i ==> #[trigger] words(names@)[j] != tok@,
        decreases names.len() - i,
    {
        if same(names[i], tok) {
            let mut out: Vec<&'static str> = Vec::new();
            out.push(names[i]);
            assert(words(names@)[i as int] == tok@);
            assert(words(out@) =~= seq![tok@]);
            return out;
        }
        i = i + 1;
    }
    begun(names, tok)
}

// ---- parsing ----

/// What a row makes of the argument behind its verb.
pub open spec fn built(row: Row, arg: Seq<char>) -> ParseModel {
    match row.target {
        Target::Nav(kind) => ParseModel::Run(CommandModel::Nav(kind)),
        Target::Timer => {
            let hits = arg_hits(TimerVerb::name_texts(), arg);
            if arg.len() == 0 {
                ParseModel::Run(CommandModel::Nav(ScreenKind::Timer))
            } else if hits.len() == 0 {
                ParseModel::BadArg {
                    verb: row.verb,
                    expected: TimerVerb::name_texts(),
                    got: arg,
                }
            } else if hits.len() == 1 {
                ParseModel::Run(CommandModel::Timer(TimerVerb::named(hits[0])->0))
            } else {
                ParseModel::AmbiguousArg { verb: row.verb, matches: hits }
            }
        },
        Target::Note => ParseModel::Run(
            CommandModel::Note(
                if arg.len() == 0 {
                    None
                } else {
                    Some(arg)
                },
            ),
        ),
        Target::Log => ParseModel::Run(CommandModel::Log),
        Target::Declare => ParseModel::Run(CommandModel::Target),
        Target::Quit => ParseModel::Run(CommandModel::Quit),
        Target::Write => ParseModel::Run(CommandModel::Write),
        Target::Logs => ParseModel::Run(CommandModel::Logs),
        Target::Logout => ParseModel::Run(CommandModel::Logout),
        Target::Help => ParseModel::Run(CommandModel::Help),
    }
}

/// The verb of a trimmed line: what stands before its first white space.
pub open spec fn line_verb(line: Seq<char>) -> Seq<char> {
    line.take(gap(line))
}

/// The argument of a trimmed line: the rest of it, trimmed.
pub open spec fn line_arg(line: Seq<char>) -> Seq<char> {
    if gap(line) < line.len() {
        trimmed(line.skip(gap(line) + 1))
    } else {
        Seq::empty()
    }
}

/// What a command line means.
pub open spec fn parsed(input: Seq<char>) -> ParseModel {
    let line = trimmed(input);
    if line.len() == 0 {
        ParseModel::Empty
    } else {
        match resolved(line_verb(line)) {
            HitModel::Miss => ParseModel::Unknown(line_verb(line)),
            HitModel::Many(verbs) => ParseModel::Ambiguous(verbs),
            HitModel::One(row) => built(row, line_arg(line)),
        }
    }
}

/// Every argument that resolves to one name of the timer's names a verb.
pub proof fn lemma_timer_hit(arg: Seq<char>)
    requires
        arg_hits(TimerVerb::name_texts(), arg).len() == 1,
    ensures
        TimerVerb::named(arg_hits(TimerVerb::name_texts(), arg)[0]) is Some,
{
    let names = TimerVerb::name_texts();
    let hit = arg_hits(names, arg)[0];
    lemma_begun_names(names, arg);
    assert(names.contains(hit));
    let k = choose|k: int| 0 <= k < names.len() && names[k] == hit;
    assert(k == 0 || k == 1 || k == 2 || k == 3);
}

/// What a command line means.
pub fn parse(input: &str) -> (res: Parse)
    ensures
        res@ == parsed(input@),
{
    let line = trim(input);
    if line.as_str().is_empty() {
        return Parse::Empty;
    }
    let (verb, arg) = match split_once(line.as_str()) {
        Some(halves) => (halves.head, trim(halves.tail.as_str())),
        None => {
            assert(line@.take(line@.len() as int) =~= line@);
            (line.clone(), String::new())
        },
    };
    proof {
        crate::text::lemma_gap_from(line@, 0);
    }
    match resolve_verb(verb.as_str()) {
        VerbHit::Miss => Parse::Unknown(verb),
        VerbHit::Many(candidates) => Parse::Ambiguous(candidates),
        VerbHit::One(entry) => build(&entry, arg.as_str()),
    }
}

fn build(entry: &Entry, arg: &str) -> (res: Parse)
    ensures
        res@ == built(entry@, arg@),
{
    match entry.target {
        Target::Nav(kind) => Parse::Run(Command::Nav(kind)),
        Target::Timer => {
            if arg.is_empty() {
                return Parse::Run(Command::Nav(ScreenKind::Timer));
            }
            let hits = resolve_arg(&TimerVerb::names(), arg);
            if hits.len() == 0 {
                assert(words(hits@).len() == 0);
                Parse::BadArg { verb: entry.verb, expected: TimerVerb::names(), got: own(arg) }
            } else if hits.len() == 1 {
                assert(words(hits@)[0] == hits@[0]@);
                proof {
                    lemma_timer_hit(arg@);
                }
                match TimerVerb::from_name(hits[0]) {
                    Some(verb) => Parse::Run(Command::Timer(verb)),
                    None => Parse::Empty,
                }
            } else {
                assert(words(hits@).len() == hits@.len());
                Parse::AmbiguousArg { verb: entry.verb, matches: hits }
            }
        },
        Target::Note => if arg.is_empty() {
            Parse::Run(Command::Note(None))
        } else {
            Parse::Run(Command::Note(Some(own(arg))))
        },
        Target::Log => Parse::Run(Command::Log),
        Target::Declare => Parse::Run(Command::Target),
        Target::Quit => Parse::Run(Command::Quit),
        Target::Write => Parse::Run(Command::Write),
        Target::Logs => Parse::Run(Command::Logs),
        Target::Logout => Parse::Run(Command::Logout),
        Target::Help => Parse::Run(Command::Help),
    }
}

// ---- completion ----

/// The text that two words begin with.
pub open spec fn shared(a: Seq<char>, b: Seq<char>) -> Seq<char>
    decreases a.len(),
{
    if a.is_prefix_of(b) {
        a
    } else {
        shared(a.drop_last(), b)
    }
}

/// The longest text that all the words begin with; empty for no words.
pub open spec fn common_prefix(items: Seq<Seq<char>>) -> Seq<char>
    decreases items.len(),
{
    if items.len() == 0 {
        Seq::empty()
    } else if items.len() == 1 {
        items[0]
    } else {
        shared(common_prefix(items.drop_last()), items.last())
    }
}

fn takes_arg(entry: &Entry) -> (res: bool)
    ensures
        res == !(entry@.arg is Nothing),
{
    match &entry.arg {
        Arg::Nothing => false,
        Arg::Enum(_) => true,
        Arg::Text => true,
    }
}

/// Nothing longer than what is shared begins both words.
pub proof fn lemma_shared(a: Seq<char>, b: Seq<char>)
    ensures
        shared(a, b).is_prefix_of(a),
        shared(a, b).is_prefix_of(b),
        forall|p: Seq<char>|
            #![trigger p.is_prefix_of(shared(a, b))]
            p.is_prefix_of(a) && p.is_prefix_of(b) ==> p.is_prefix_of(shared(a, b)),
    decreases a.len(),
{
    if a.is_prefix_of(b) {
        assert(a =~= a.subrange(0, a.len() as int));
    } else {
        if a.len() == 0 {
            assert(a =~= b.subrange(0, 0));
            assert(false);
        }
        let d = a.drop_last();
        lemma_shared(d, b);
        assert(shared(a, b).is_prefix_of(a)) by {
            let s = shared(d, b);
            assert(s =~= a.subrange(0, s.len() as int)) by {
                assert(s == d.subrange(0, s.len() as int));
            }
        }
        assert forall|p: Seq<char>| p.is_prefix_of(a) && p.is_prefix_of(b) implies #[trigger] p.is_prefix_of(shared(a, b)) by {
            if p.len() == a.len() {
                assert(p =~= a);
                assert(false);
            }
            assert(p =~= d.subrange(0, p.len() as int)) by {
                assert(p == a.subrange(0, p.len() as int));
            }
            assert(p.is_prefix_of(d));
        }
    }
}

fn shared_prefix(a: &Vec<char>, b: &Vec<char>) -> (res: usize)
    ensures
        res <= a@.len(),
        a@.take(res as int) == shared(a@, b@),
{
    let mut n: usize = 0;
    while n < a.len() && n < b.len() && a[n] == b[n]
        invariant
            n <= a.len(),
            n <= b.len(),
            forall|j: int| 0 <= j < n ==> a@[j] == b@[j],
        decreases a.len() - n,
    {
        n = n + 1;
    }
    proof {
        let p = a@.take(n as int);
        lemma_shared(a@, b@);
        assert(p =~= a@.subrange(0, p.len() as int));
        assert(p =~= b@.subrange(0, p.len() as int));
        let s = shared(a@, b@);
        assert(p.is_prefix_of(s));
        if s.len() > n {
            assert(s == a@.subrange(0, s.len() as int));
            assert(s == b@.subrange(0, s.len() as int));
            assert(s[n as int] == a@[n as int]);
            assert(s[n as int] == b@[n as int]);
            assert(false);
        }
        assert(p =~= s);
    }
    n
}

fn longest_common_prefix(items: &Vec<&'static str>) -> (res: String)
    ensures
        res@ == common_prefix(words(items@)),
{
    if items.len() == 0 {
        return String::new();
    }
    let mut first = chars_of(items[0]);
    let mut i: usize = 1;
    assert(words(items@).take(1) =~= seq![items@[0]@]);
    while i < items.len()
        invariant
            1 <= i <= items.len(),
            first@ == common_prefix(words(items@).take(i as int)),
        decreases items.len() - i,
    {
        proof {
            let here = words(items@).take(i as int + 1);
            assert(here.drop_last() =~= words(items@).take(i as int));
            assert(here.last() == items@[i as int]@);
        }
        let next = chars_of(items[i]);
        let n: usize = shared_prefix(&first, &next);
        first.truncate(n);
        i = i + 1;
    }
    assert(words(items@).take(items@.len() as int) =~= words(items@));
    assert(first@.subrange(0, first@.len() as int) =~= first@);
    spell(&first, 0, first.len())
}

/// The line that Tab makes of `input`: the verb (or the timer's argument)
/// extended as far as every candidate agrees.
pub open spec fn completed(input: Seq<char>) -> Seq<char> {
    if gap(input) < input.len() {
        match resolved(trimmed(line_verb(input))) {
            HitModel::One(row) => match row.arg {
                ArgModel::Enum(names) => {
                    let hits = begun_names(names, trimmed_start(input.skip(gap(input) + 1)));
                    if hits.len() > 0 {
                        row.verb + " "@ + common_prefix(hits)
                    } else {
                        input
                    }
                },
                _ => input,
            },
            _ => input,
        }
    } else {
        let hits = picked(table(), input, Match::VerbPrefix);
        if hits.len() == 0 {
            input
        } else if hits.len() == 1 && !(hits[0].arg is Nothing) {
            hits[0].verb + " "@
        } else {
            common_prefix(verbs(hits))
        }
    }
}

/// Tab completion to the longest common prefix, so that no state is kept
/// between keystrokes.
pub fn complete(input: &str) -> (res: String)
    ensures
        res@ == completed(input@),
{
    proof {
        crate::text::lemma_gap_from(input@, 0);
    }
    if let Some(halves) = split_once(input) {
        let arg = trim_start(halves.tail.as_str());
        if let VerbHit::One(entry) = resolve_verb(trim(halves.head.as_str()).as_str()) {
            if let Arg::Enum(names) = &entry.arg {
                let hits = begun(names, arg.as_str());
                assert(words(hits@).len() == hits@.len());
                if hits.len() > 0 {
                    let head = longest_common_prefix(&hits);
                    return cat3(entry.verb, " ", head.as_str());
                }
            }
        }
        return own(input);
    }
    let hits = pick(input, Match::VerbPrefix);
    assert(rows(hits@).len() == hits@.len());
    if hits.len() == 0 {
        own(input)
    } else {
        assert(rows(hits@)[0] == hits@[0]@);
        if hits.len() == 1 && takes_arg(&hits[0]) {
            cat2(hits[0].verb, " ")
        } else {
            longest_common_prefix(&verbs_of(&hits))
        }
    }
}

// ---- hints ----

/// What the command line says beside what was typed; `warn` marks a line that
/// would not run.
#[derive(Debug)]
pub struct Hint {
    pub text: String,
    pub warn: bool,
}

/// The model of [`Hint`].
pub struct HintModel {
    pub text: Seq<char>,
    pub warn: bool,
}

impl View for Hint {
    type V = HintModel;

    open spec fn view(&self) -> HintModel {
        HintModel { text: self.text@, warn: self.warn }
    }
}

/// A calm hint.
pub open spec fn calm(text: Seq<char>) -> HintModel {
    HintModel { text, warn: false }
}

/// A warning hint.
pub open spec fn wary(text: Seq<char>) -> HintModel {
    HintModel { text, warn: true }
}

fn plain(text: String) -> (res: Hint)
    ensures
        res@ == calm(text@),
{
    Hint { text, warn: false }
}

fn warn(text: String) -> (res: Hint)
    ensures
        res@ == wary(text@),
{
    Hint { text, warn: true }
}

/// What the empty line advertises.
pub open spec fn invitation() -> HintModel {
    calm(joined(nav_verb_texts(), " · "@) + " · :help · Tab completes"@)
}

/// What the line says once a verb and an argument are being typed.
pub open spec fn arg_hint(hit: HitModel, arg: Seq<char>) -> HintModel {
    match hit {
        HitModel::One(row) => match row.arg {
            ArgModel::Enum(names) => if arg.len() == 0 {
                calm(joined(names, " · "@))
            } else if begun_names(names, arg).len() == 0 {
                wary("? try "@ + joined(names, "|"@))
            } else {
                calm(joined(begun_names(names, arg), " · "@))
            },
            ArgModel::Text => calm("<text> — opens quick-capture prefilled"@),
            ArgModel::Nothing => calm(row.verb + " takes no argument"@),
        },
        _ => wary("unknown — try :help"@),
    }
}

/// What the line says while its verb is being typed.
pub open spec fn verb_hint(hit: HitModel, tok: Seq<char>) -> HintModel {
    match hit {
        HitModel::One(row) => if row.verb == tok {
            calm("→ "@ + row.help)
        } else {
            calm("→ "@ + row.verb + " — "@ + row.help)
        },
        HitModel::Many(verbs) => calm(joined(verbs, " · "@)),
        HitModel::Miss => wary("unknown — try :help"@),
    }
}

/// What the command line says beside what was typed.
pub open spec fn hinted(input: Seq<char>) -> HintModel {
    if blank(input) {
        invitation()
    } else if gap(input) < input.len() {
        let verb = trimmed(line_verb(input));
        if verb.len() == 0 {
            invitation()
        } else {
            arg_hint(resolved(verb), trimmed(input.skip(gap(input) + 1)))
        }
    } else {
        verb_hint(resolved(trimmed(input)), trimmed(input))
    }
}

fn invite() -> (res: Hint)
    ensures
        res@ == invitation(),
{
    let list = join_words(&nav_verbs(), " · ");
    plain(cat2(list.as_str(), " · :help · Tab completes"))
}

/// What the command line says beside what was typed.
pub fn hint(input: &str) -> (res: Hint)
    ensures
        res@ == hinted(input@),
{
    proof {
        crate::text::lemma_gap_from(input@, 0);
    }
    let tok = trim(input);
    if tok.as_str().is_empty() {
        return invite();
    }
    if let Some(halves) = split_once(input) {
        let verb = trim(halves.head.as_str());
        if verb.as_str().is_empty() {
            return invite();
        }
        let arg = trim(halves.tail.as_str());
        return match resolve_verb(verb.as_str()) {
            VerbHit::One(entry) => match &entry.arg {
                Arg::Enum(names) => {
                    let hits = begun(names, arg.as_str());
                    assert(words(hits@).len() == hits@.len());
                    if arg.as_str().is_empty() {
                        plain(join_words(names, " · "))
                    } else if hits.len() == 0 {
                        warn(cat2("? try ", join_words(names, "|").as_str()))
                    } else {
                        plain(join_words(&hits, " · "))
                    }
                },
                Arg::Text => plain(own("<text> — opens quick-capture prefilled")),
                Arg::Nothing => plain(cat2(entry.verb, " takes no argument")),
            },
            _ => warn(own("unknown — try :help")),
        };
    }
    match resolve_verb(tok.as_str()) {
        VerbHit::One(entry) => if same(entry.verb, tok.as_str()) {
            plain(cat2("→ ", entry.help))
        } else {
            plain(crate::text::cat4("→ ", entry.verb, " — ", entry.help))
        },
        VerbHit::Many(candidates) => plain(join_words(&candidates, " · ")),
        VerbHit::Miss => warn(own("unknown — try :help")),
    }
}

/// The command line as it is drawn: the prompt, what was typed, the cursor, and
/// the hint where there is one.
pub open spec fn drawn(input: Seq<char>) -> Seq<(Tone, Seq<char>)> {
    let typed = seq![(Tone::Focused, ":"@), (Tone::Plain, input), (Tone::Muted, "█"@)];
    let h = hinted(input);
    if h.text.len() == 0 {
        typed
    } else {
        typed.push(
            (
                if h.warn {
                    Tone::Warn
                } else {
                    Tone::Muted
                },
                "   "@ + h.text,
            ),
        )
    }
}

/// The command line as it is drawn.
pub fn render_line(input: &str) -> (res: Line)
    ensures
        res@ == drawn(input@),
{
    let line = Line::of(Tone::Focused, own(":")).with(Tone::Plain, own(input)).with(
        Tone::Muted,
        own("█"),
    );
    assert(line@ =~= seq![(Tone::Focused, ":"@), (Tone::Plain, input@), (Tone::Muted, "█"@)]);
    let h = hint(input);
    if h.text.as_str().is_empty() {
        return line;
    }
    let tone = if h.warn {
        Tone::Warn
    } else {
        Tone::Muted
    };
    line.with(tone, cat2("   ", h.text.as_str()))
}

// ---- help ----

/// A verb as `:help` lists it, with what it takes.
pub open spec fn help_token(row: Row) -> Seq<char> {
    match row.arg {
        ArgModel::Enum(names) => row.verb + "["@ + joined(names, "|"@) + "]"@,
        ArgModel::Text => row.verb + " <text>"@,
        ArgModel::Nothing => row.verb,
    }
}

/// The tokens of the rows of one kind, in table order.
pub open spec fn help_tokens(all: Seq<Row>, kind: Kind) -> Seq<Seq<char>>
    decreases all.len(),
{
    if all.len() == 0 {
        Seq::empty()
    } else {
        let before = help_tokens(all.drop_last(), kind);
        if all.last().kind == kind {
            before.push(help_token(all.last()))
        } else {
            before
        }
    }
}

/// The whole of `:help`.
pub open spec fn help_text() -> Seq<char> {
    "nav: "@ + joined(help_tokens(table(), Kind::Nav), " "@) + " · actions: "@ + joined(
        help_tokens(table(), Kind::Action),
        " "@,
    ) + " · misc: "@ + joined(help_tokens(table(), Kind::Housekeeping), " "@)
}

fn token_of(e: &Entry) -> (res: String)
    ensures
        res@ == help_token(e@),
{
    match &e.arg {
        Arg::Enum(names) => crate::text::cat4(e.verb, "[", join_words(names, "|").as_str(), "]"),
        Arg::Text => cat2(e.verb, " <text>"),
        Arg::Nothing => own(e.verb),
    }
}

/// The whole of `:help`, in one line.
pub fn help_summary() -> (res: String)
    ensures
        res@ == help_text(),
{
    let all = entries();
    let mut nav: Vec<String> = Vec::new();
    let mut action: Vec<String> = Vec::new();
    let mut misc: Vec<String> = Vec::new();
    assert(texts(nav@) =~= Seq::<Seq<char>>::empty());
    assert(texts(action@) =~= Seq::<Seq<char>>::empty());
    assert(texts(misc@) =~= Seq::<Seq<char>>::empty());
    let mut i: usize = 0;
    while i < all.len()
        invariant
            i <= all.len(),
            texts(nav@) == help_tokens(rows(all@).take(i as int), Kind::Nav),
            texts(action@) == help_tokens(rows(all@).take(i as int), Kind::Action),
            texts(misc@) == help_tokens(rows(all@).take(i as int), Kind::Housekeeping),
        decreases all.len() - i,
    {
        let tok = token_of(&all[i]);
        let ghost (n, a, m) = (nav@, action@, misc@);
        proof {
            let here = rows(all@).take(i as int + 1);
            assert(here.drop_last() =~= rows(all@).take(i as int));
            assert(here.last() == all@[i as int]@);
        }
        match all[i].kind {
            Kind::Nav => {
                nav.push(tok);
                assert(texts(nav@) =~= texts(n).push(tok@));
            },
            Kind::Action => {
                action.push(tok);
                assert(texts(action@) =~= texts(a).push(tok@));
            },
            Kind::Housekeeping => {
                misc.push(tok);
                assert(texts(misc@) =~= texts(m).push(tok@));
            },
        }
        i = i + 1;
    }
    assert(rows(all@).take(all@.len() as int) =~= rows(all@));
    let head = cat5(
        "nav: ",
        join(&nav, " ").as_str(),
        " · actions: ",
        join(&action, " ").as_str(),
        " · misc: ",
    );
    cat2(head.as_str(), join(&misc, " ").as_str())
}

// ---- laws ----

/// The rows picked for a token are rows of the table that suit it, and every
/// row that suits it is picked.
pub proof fn lemma_picked(all: Seq<Row>, tok: Seq<char>, how: Match)
    ensures
        forall|i: int|
            0 <= i < picked(all, tok, how).len() ==> {
                &&& all.contains(#[trigger] picked(all, tok, how)[i])
                &&& suits(picked(all, tok, how)[i], tok, how)
            },
        forall|k: int|
            0 <= k < all.len() && suits(#[trigger] all[k], tok, how) ==> picked(
                all,
                tok,
                how,
            ).contains(all[k]),
    decreases all.len(),
{
    if all.len() > 0 {
        let init = all.drop_last();
        let before = picked(init, tok, how);
        let hits = picked(all, tok, how);
        lemma_picked(init, tok, how);
        assert forall|i: int| 0 <= i < hits.len() implies all.contains(#[trigger] hits[i]) && suits(
            hits[i],
            tok,
            how,
        ) by {
            if i < before.len() {
                assert(init.contains(before[i]));
                let k = choose|k: int| 0 <= k < init.len() && init[k] == before[i];
                assert(all[k] == before[i]);
            } else {
                assert(all[all.len() - 1] == hits[i]);
            }
        }
        assert forall|k: int| 0 <= k < all.len() && suits(#[trigger] all[k], tok, how) implies hits.contains(
            all[k],
        ) by {
            if k < init.len() {
                assert(init[k] == all[k]);
                assert(before.contains(init[k]));
                let i = choose|i: int| 0 <= i < before.len() && before[i] == init[k];
                assert(hits[i] == all[k]);
            } else {
                assert(hits[hits.len() - 1] == all[k]);
            }
        }
    }
}

/// Whether every word begins with `head`.
pub open spec fn all_begin(head: Seq<char>, items: Seq<Seq<char>>) -> bool {
    forall|i: int| 0 <= i < items.len() ==> head.is_prefix_of(#[trigger] items[i])
}

/// What some words have in common begins each of them, and whatever begins each
/// of them begins what they have in common.
pub proof fn common_prefix_is_the_longest(items: Seq<Seq<char>>)
    requires
        items.len() > 0,
    ensures
        all_begin(common_prefix(items), items),
        forall|p: Seq<char>|
            #![trigger p.is_prefix_of(common_prefix(items))]
            all_begin(p, items) ==> p.is_prefix_of(common_prefix(items)),
    decreases items.len(),
{
    let c = common_prefix(items);
    if items.len() == 1 {
        assert(c =~= items[0].subrange(0, c.len() as int));
        assert forall|p: Seq<char>| all_begin(p, items) implies #[trigger] p.is_prefix_of(c) by {
            assert(p.is_prefix_of(items[0]));
        }
    } else {
        let init = items.drop_last();
        let d = common_prefix(init);
        common_prefix_is_the_longest(init);
        lemma_shared(d, items.last());
        assert forall|i: int| 0 <= i < items.len() implies c.is_prefix_of(#[trigger] items[i]) by {
            if i < init.len() {
                assert(d.is_prefix_of(init[i]));
                assert(c =~= items[i].subrange(0, c.len() as int)) by {
                    assert(c == d.subrange(0, c.len() as int));
                    assert(d == init[i].subrange(0, d.len() as int));
                }
            }
        }
        assert forall|p: Seq<char>| all_begin(p, items) implies #[trigger] p.is_prefix_of(c) by {
            assert forall|i: int| 0 <= i < init.len() implies p.is_prefix_of(#[trigger] init[i]) by {
                assert(p.is_prefix_of(items[i]));
            }
            assert(p.is_prefix_of(d));
            assert(p.is_prefix_of(items[items.len() - 1]));
        }
    }
}

/// While a verb is being typed, Tab only ever adds to it.
pub proof fn completion_extends_a_verb(input: Seq<char>)
    requires
        gap(input) == input.len(),
    ensures
        input.is_prefix_of(completed(input)),
{
    let hits = picked(table(), input, Match::VerbPrefix);
    lemma_picked(table(), input, Match::VerbPrefix);
    if hits.len() == 0 {
        assert(input =~= input.subrange(0, input.len() as int));
    } else {
        assert(suits(hits[0], input, Match::VerbPrefix));
        if hits.len() == 1 && !(hits[0].arg is Nothing) {
            assert(input =~= (hits[0].verb + " "@).subrange(0, input.len() as int));
        } else {
            assert(all_begin(input, verbs(hits)));
            common_prefix_is_the_longest(verbs(hits));
        }
    }
}

/// The rows a completed verb begins are the rows the typed one began.
proof fn lemma_completion_keeps_the_hits(all: Seq<Row>, a: Seq<char>, b: Seq<char>)
    requires
        a.is_prefix_of(b),
        forall|k: int|
            0 <= k < all.len() && a.is_prefix_of((#[trigger] all[k]).verb) ==> b.is_prefix_of(
                all[k].verb,
            ),
    ensures
        picked(all, a, Match::VerbPrefix) == picked(all, b, Match::VerbPrefix),
    decreases all.len(),
{
    if all.len() > 0 {
        let init = all.drop_last();
        assert forall|k: int| 0 <= k < init.len() && a.is_prefix_of((#[trigger] init[k]).verb) implies b.is_prefix_of(
            init[k].verb,
        ) by {
            assert(all[k] == init[k]);
        }
        lemma_completion_keeps_the_hits(init, a, b);
        let last = all[all.len() - 1].verb;
        if b.is_prefix_of(last) {
            assert(a =~= last.subrange(0, a.len() as int)) by {
                assert(a == b.subrange(0, a.len() as int));
                assert(b == last.subrange(0, b.len() as int));
            }
        }
    }
}

/// Whether a word holds no white space.
spec fn bare(w: Seq<char>) -> bool {
    forall|i: int| 0 <= i < w.len() ==> !is_white(#[trigger] w[i])
}

/// The verbs of the table hold no white space.
#[verifier::rlimit(40)]
proof fn lemma_verbs_bare(k: int)
    requires
        0 <= k < table().len(),
    ensures
        bare(table()[k].verb),
{
    reveal_strlit("home");
    assert forall|i: int| 0 <= i < "home"@.len() implies !is_white(#[trigger] "home"@[i]) by {
        assert(i == 0 || i == 1 || i == 2 || i == 3);
    }
    reveal_strlit("books");
    assert forall|i: int| 0 <= i < "books"@.len() implies !is_white(#[trigger] "books"@[i]) by {
        assert(i == 0 || i == 1 || i == 2 || i == 3 || i == 4);
    }
    reveal_strlit("activities");
    assert forall|i: int| 0 <= i < "activities"@.len() implies !is_white(#[trigger] "activities"@[i]) by {
        assert(i == 0 || i == 1 || i == 2 || i == 3 || i == 4 || i == 5 || i == 6 || i == 7 || i == 8 || i == 9);
    }
    reveal_strlit("notes");
    assert forall|i: int| 0 <= i < "notes"@.len() implies !is_white(#[trigger] "notes"@[i]) by {
        assert(i == 0 || i == 1 || i == 2 || i == 3 || i == 4);
    }
    reveal_strlit("review");
    assert forall|i: int| 0 <= i < "review"@.len() implies !is_white(#[trigger] "review"@[i]) by {
        assert(i == 0 || i == 1 || i == 2 || i == 3 || i == 4 || i == 5);
    }
    reveal_strlit("progress");
    assert forall|i: int| 0 <= i < "progress"@.len() implies !is_white(#[trigger] "progress"@[i]) by {
        assert(i == 0 || i == 1 || i == 2 || i == 3 || i == 4 || i == 5 || i == 6 || i == 7);
    }
    reveal_strlit("week");
    assert forall|i: int| 0 <= i < "week"@.len() implies !is_white(#[trigger] "week"@[i]) by {
        assert(i == 0 || i == 1 || i == 2 || i == 3);
    }
    reveal_strlit("inbox");
    assert forall|i: int| 0 <= i < "inbox"@.len() implies !is_white(#[trigger] "inbox"@[i]) by {
        assert(i == 0 || i == 1 || i == 2 || i == 3 || i == 4);
    }
    reveal_strlit("queue");
    assert forall|i: int| 0 <= i < "queue"@.len() implies !is_white(#[trigger] "queue"@[i]) by {
        assert(i == 0 || i == 1 || i == 2 || i == 3 || i == 4);
    }
    reveal_strlit("settings");
    assert forall|i: int| 0 <= i < "settings"@.len() implies !is_white(#[trigger] "settings"@[i]) by {
        assert(i == 0 || i == 1 || i == 2 || i == 3 || i == 4 || i == 5 || i == 6 || i == 7);
    }
    reveal_strlit("audit");
    assert forall|i: int| 0 <= i < "audit"@.len() implies !is_white(#[trigger] "audit"@[i]) by {
        assert(i == 0 || i == 1 || i == 2 || i == 3 || i == 4);
    }
    reveal_strlit("timer");
    assert forall|i: int| 0 <= i < "timer"@.len() implies !is_white(#[trigger] "timer"@[i]) by {
        assert(i == 0 || i == 1 || i == 2 || i == 3 || i == 4);
    }
    reveal_strlit("note");
    assert forall|i: int| 0 <= i < "note"@.len() implies !is_white(#[trigger] "note"@[i]) by {
        assert(i == 0 || i == 1 || i == 2 || i == 3);
    }
    reveal_strlit("log");
    assert forall|i: int| 0 <= i < "log"@.len() implies !is_white(#[trigger] "log"@[i]) by {
        assert(i == 0 || i == 1 || i == 2);
    }
    reveal_strlit("target");
    assert forall|i: int| 0 <= i < "target"@.len() implies !is_white(#[trigger] "target"@[i]) by {
        assert(i == 0 || i == 1 || i == 2 || i == 3 || i == 4 || i == 5);
    }
    reveal_strlit("logs");
    assert forall|i: int| 0 <= i < "logs"@.len() implies !is_white(#[trigger] "logs"@[i]) by {
        assert(i == 0 || i == 1 || i == 2 || i == 3);
    }
    reveal_strlit("w");
    assert forall|i: int| 0 <= i < "w"@.len() implies !is_white(#[trigger] "w"@[i]) by {
        assert(i == 0);
    }
    reveal_strlit("logout");
    assert forall|i: int| 0 <= i < "logout"@.len() implies !is_white(#[trigger] "logout"@[i]) by {
        assert(i == 0 || i == 1 || i == 2 || i == 3 || i == 4 || i == 5);
    }
    reveal_strlit("quit");
    assert forall|i: int| 0 <= i < "quit"@.len() implies !is_white(#[trigger] "quit"@[i]) by {
        assert(i == 0 || i == 1 || i == 2 || i == 3);
    }
    reveal_strlit("help");
    assert forall|i: int| 0 <= i < "help"@.len() implies !is_white(#[trigger] "help"@[i]) by {
        assert(i == 0 || i == 1 || i == 2 || i == 3);
    }
    if k == 0 {
        assert(table()[0].verb == "home"@);
    }
    if k == 1 {
        assert(table()[1].verb == "books"@);
    }
    if k == 2 {
        assert(table()[2].verb == "activities"@);
    }
    if k == 3 {
        assert(table()[3].verb == "notes"@);
    }
    if k == 4 {
        assert(table()[4].verb == "review"@);
    }
    if k == 5 {
        assert(table()[5].verb == "progress"@);
    }
    if k == 6 {
        assert(table()[6].verb == "week"@);
    }
    if k == 7 {
        assert(table()[7].verb == "inbox"@);
    }
    if k == 8 {
        assert(table()[8].verb == "queue"@);
    }
    if k == 9 {
        assert(table()[9].verb == "settings"@);
    }
    if k == 10 {
        assert(table()[10].verb == "audit"@);
    }
    if k == 11 {
        assert(table()[11].verb == "timer"@);
    }
    if k == 12 {
        assert(table()[12].verb == "note"@);
    }
    if k == 13 {
        assert(table()[13].verb == "log"@);
    }
    if k == 14 {
        assert(table()[14].verb == "target"@);
    }
    if k == 15 {
        assert(table()[15].verb == "logs"@);
    }
    if k == 16 {
        assert(table()[16].verb == "w"@);
    }
    if k == 17 {
        assert(table()[17].verb == "logout"@);
    }
    if k == 18 {
        assert(table()[18].verb == "quit"@);
    }
    if k == 19 {
        assert(table()[19].verb == "help"@);
    }
}

/// The timer's names hold no white space, and no letter begins them all.
proof fn lemma_names_bare()
    ensures
        forall|i: int|
            0 <= i < TimerVerb::name_texts().len() ==> bare(#[trigger] TimerVerb::name_texts()[i]),
        common_prefix(TimerVerb::name_texts()) == Seq::<char>::empty(),
{
    let names = TimerVerb::name_texts();
    reveal_strlit("start");
    assert forall|i: int| 0 <= i < "start"@.len() implies !is_white(#[trigger] "start"@[i]) by {
        assert(i == 0 || i == 1 || i == 2 || i == 3 || i == 4);
    }
    reveal_strlit("pause");
    assert forall|i: int| 0 <= i < "pause"@.len() implies !is_white(#[trigger] "pause"@[i]) by {
        assert(i == 0 || i == 1 || i == 2 || i == 3 || i == 4);
    }
    reveal_strlit("resume");
    assert forall|i: int| 0 <= i < "resume"@.len() implies !is_white(#[trigger] "resume"@[i]) by {
        assert(i == 0 || i == 1 || i == 2 || i == 3 || i == 4 || i == 5);
    }
    reveal_strlit("stop");
    assert forall|i: int| 0 <= i < "stop"@.len() implies !is_white(#[trigger] "stop"@[i]) by {
        assert(i == 0 || i == 1 || i == 2 || i == 3);
    }
    assert(names[0] == "start"@);
    assert(names[1] == "pause"@);
    assert(names[2] == "resume"@);
    assert(names[3] == "stop"@);
    common_prefix_is_the_longest(names);
    let c = common_prefix(names);
    assert(c.is_prefix_of(names[0]));
    assert(c.is_prefix_of(names[1]));
    if c.len() > 0 {
        assert(c[0] == names[0][0]);
        assert(c[0] == names[1][0]);
    }
    assert(c =~= Seq::empty());
}

/// Where the first white space of a bare word and a space stands.
proof fn lemma_gap_at(verb: Seq<char>, rest: Seq<char>)
    requires
        bare(verb),
    ensures
        gap(verb + " "@ + rest) == verb.len(),
        line_verb(verb + " "@ + rest) == verb,
        (verb + " "@ + rest).skip(verb.len() as int + 1) == rest,
{
    reveal_strlit(" ");
    let line = verb + " "@ + rest;
    let n = verb.len() as int;
    assert(line[n] == ' ');
    crate::text::lemma_gap_from(line, 0);
    let g = gap(line);
    if g < n {
        assert(line[g] == verb[g]);
    }
    if g > n {
        assert(!is_white(line[n]));
    }
    assert(line.take(n) =~= verb);
    assert(line.skip(n + 1) =~= rest);
}

/// A bare word has nothing to trim, and no gap.
proof fn lemma_bare(w: Seq<char>)
    requires
        bare(w),
    ensures
        trimmed(w) == w,
        trimmed_start(w) == w,
        gap(w) == w.len(),
{
    crate::text::lemma_gap_from(w, 0);
    if gap(w) < w.len() {
        assert(!is_white(w[gap(w)]));
    }
    if w.len() > 0 {
        assert(!is_white(w[0]));
        assert(!is_white(w[w.len() - 1]));
    }
}

/// What begins a bare word is bare.
proof fn lemma_bare_head(head: Seq<char>, w: Seq<char>)
    requires
        bare(w),
        head.is_prefix_of(w),
    ensures
        bare(head),
{
    assert forall|i: int| 0 <= i < head.len() implies !is_white(#[trigger] head[i]) by {
        assert(head[i] == w[i]);
    }
}

/// Every name that a token begins is among the names begun.
proof fn lemma_begun_has(names: Seq<Seq<char>>, tok: Seq<char>, k: int)
    requires
        0 <= k < names.len(),
        tok.is_prefix_of(names[k]),
    ensures
        begun_names(names, tok).contains(names[k]),
    decreases names.len(),
{
    let all = begun_names(names, tok);
    if k < names.len() - 1 {
        let init = names.drop_last();
        lemma_begun_has(init, tok, k);
        let before = begun_names(init, tok);
        let i = choose|i: int| 0 <= i < before.len() && before[i] == init[k];
        assert(all[i] == names[k]);
    } else {
        assert(all[all.len() - 1] == names[k]);
    }
}

/// The names a completed argument begins are the names the typed one began.
proof fn lemma_completion_keeps_the_names(names: Seq<Seq<char>>, a: Seq<char>, b: Seq<char>)
    requires
        a.is_prefix_of(b),
        forall|k: int|
            0 <= k < names.len() && a.is_prefix_of(#[trigger] names[k]) ==> b.is_prefix_of(
                names[k],
            ),
    ensures
        begun_names(names, a) == begun_names(names, b),
    decreases names.len(),
{
    if names.len() > 0 {
        let init = names.drop_last();
        assert forall|k: int| 0 <= k < init.len() && a.is_prefix_of(
            #[trigger] init[k],
        ) implies b.is_prefix_of(init[k]) by {
            assert(names[k] == init[k]);
        }
        lemma_completion_keeps_the_names(init, a, b);
        let last = names[names.len() - 1];
        if b.is_prefix_of(last) {
            assert(a =~= last.subrange(0, a.len() as int)) by {
                assert(a == b.subrange(0, a.len() as int));
                assert(b == last.subrange(0, b.len() as int));
            }
        }
    }
}

/// Tab behind a whole verb with names to choose from settles: it adds what the
/// names begun agree on, and nothing the second time.
proof fn lemma_names_settle(k: int, names: Seq<Seq<char>>, arg: Seq<char>)
    requires
        0 <= k < table().len(),
        table()[k].arg == ArgModel::Enum(names),
        begun_names(names, arg).len() > 0,
    ensures
        ({
            let line = table()[k].verb + " "@ + common_prefix(begun_names(names, arg));
            completed(line) == line
        }),
{
    let verb = table()[k].verb;
    let hits = begun_names(names, arg);
    let head = common_prefix(hits);
    let line = verb + " "@ + head;
    assert(k == 11 && names == TimerVerb::name_texts());
    lemma_verbs_bare(k);
    lemma_names_bare();
    lemma_gap_at(verb, head);
    lemma_bare(verb);
    exact_words_win(k);
    lemma_begun_names(names, arg);
    common_prefix_is_the_longest(hits);
    assert(head.is_prefix_of(hits[0]));
    let j = choose|j: int| 0 <= j < names.len() && names[j] == hits[0];
    assert(bare(names[j]));
    lemma_bare_head(head, hits[0]);
    lemma_bare(head);
    assert(all_begin(arg, hits));
    assert(arg.is_prefix_of(head));
    assert forall|m: int| 0 <= m < names.len() && arg.is_prefix_of(
        #[trigger] names[m],
    ) implies head.is_prefix_of(names[m]) by {
        lemma_begun_has(names, arg, m);
        let i = choose|i: int| 0 <= i < hits.len() && hits[i] == names[m];
        assert(head.is_prefix_of(hits[i]));
    }
    lemma_completion_keeps_the_names(names, arg, head);
    assert(gap(line) < line.len()) by {
        reveal_strlit(" ");
    }
}

/// Every name is begun by nothing typed.
proof fn lemma_nothing_begins_all(names: Seq<Seq<char>>)
    ensures
        begun_names(names, Seq::empty()) == names,
    decreases names.len(),
{
    if names.len() > 0 {
        let none = Seq::<char>::empty();
        lemma_nothing_begins_all(names.drop_last());
        assert(none =~= names.last().subrange(0, 0));
        assert(begun_names(names, none) =~= names);
    } else {
        assert(names =~= Seq::empty());
    }
}

/// Tab behind a verb that takes an argument settles at once.
proof fn lemma_verb_settles(k: int)
    requires
        0 <= k < table().len(),
        !(table()[k].arg is Nothing),
    ensures
        completed(table()[k].verb + " "@) == table()[k].verb + " "@,
{
    let verb = table()[k].verb;
    let none = Seq::<char>::empty();
    let line = verb + " "@;
    assert(line =~= verb + " "@ + none);
    if let ArgModel::Enum(names) = table()[k].arg {
        assert(k == 11 && names == TimerVerb::name_texts());
        lemma_nothing_begins_all(names);
        lemma_names_bare();
        lemma_names_settle(k, names, none);
    } else {
        lemma_verbs_bare(k);
        lemma_gap_at(verb, none);
        lemma_bare(verb);
        exact_words_win(k);
        assert(gap(line) < line.len()) by {
            reveal_strlit(" ");
        }
    }
}

/// A resolved row is one of the table.
proof fn lemma_resolved_row(tok: Seq<char>, row: Row) -> (k: int)
    requires
        resolved(tok) == HitModel::One(row),
    ensures
        0 <= k < table().len(),
        table()[k] == row,
{
    lemma_picked(table(), tok, Match::Exact);
    lemma_picked(table(), tok, Match::Prefix);
    let exact = picked(table(), tok, Match::Exact);
    let begun = picked(table(), tok, Match::Prefix);
    let hit = if exact.len() > 0 {
        exact[0]
    } else {
        begun[0]
    };
    assert(table().contains(hit));
    choose|k: int| 0 <= k < table().len() && table()[k] == hit
}

/// Tab pressed twice in a row does what it does once, on every line.
pub proof fn completion_settles(input: Seq<char>)
    ensures
        completed(completed(input)) == completed(input),
{
    crate::text::lemma_gap_from(input, 0);
    if gap(input) < input.len() {
        if let HitModel::One(row) = resolved(trimmed(line_verb(input))) {
            if let ArgModel::Enum(names) = row.arg {
                let arg = trimmed_start(input.skip(gap(input) + 1));
                if begun_names(names, arg).len() > 0 {
                    let k = lemma_resolved_row(trimmed(line_verb(input)), row);
                    lemma_names_settle(k, names, arg);
                }
            }
        }
    } else {
        let hits = picked(table(), input, Match::VerbPrefix);
        lemma_picked(table(), input, Match::VerbPrefix);
        if hits.len() > 0 {
            assert(table().contains(hits[0]));
            let k = choose|k: int| 0 <= k < table().len() && table()[k] == hits[0];
            if hits.len() == 1 && !(hits[0].arg is Nothing) {
                lemma_verb_settles(k);
            } else {
                lemma_verb_completion_settles(input, k);
            }
        }
    }
}

/// Tab on a verb that several rows begin with settles at what they agree on.
proof fn lemma_verb_completion_settles(input: Seq<char>, k: int)
    requires
        gap(input) == input.len(),
        0 <= k < table().len(),
        picked(table(), input, Match::VerbPrefix).len() > 0,
        picked(table(), input, Match::VerbPrefix)[0] == table()[k],
        !(picked(table(), input, Match::VerbPrefix).len() == 1 && !(table()[k].arg is Nothing)),
    ensures
        completed(completed(input)) == completed(input),
{
    let hits = picked(table(), input, Match::VerbPrefix);
    let c = completed(input);
    completion_extends_a_verb(input);
    lemma_picked(table(), input, Match::VerbPrefix);
    common_prefix_is_the_longest(verbs(hits));
    assert(c.is_prefix_of(verbs(hits)[0]));
    lemma_verbs_bare(k);
    lemma_bare_head(c, table()[k].verb);
    lemma_bare(c);
    assert forall|m: int| 0 <= m < table().len() && input.is_prefix_of(
        (#[trigger] table()[m]).verb,
    ) implies c.is_prefix_of(table()[m].verb) by {
        assert(suits(table()[m], input, Match::VerbPrefix));
        assert(hits.contains(table()[m]));
        let i = choose|i: int| 0 <= i < hits.len() && hits[i] == table()[m];
        assert(verbs(hits)[i] == table()[m].verb);
    }
    lemma_completion_keeps_the_hits(table(), input, c);
}

/// A word's length and first two letters in one number.
spec fn mark(w: Seq<char>) -> int {
    w.len() * 1000000 + (w[0] as u32) * 1000 + (if w.len() > 1 {
        w[1] as u32 as int
    } else {
        0
    })
}

/// The mark of the table's `k`th verb.
spec fn verb_mark(k: int) -> int {
    if k == 0 {
        4104111
    } else if k == 1 {
        5098111
    } else if k == 2 {
        10097099
    } else if k == 3 {
        5110111
    } else if k == 4 {
        6114101
    } else if k == 5 {
        8112114
    } else if k == 6 {
        4119101
    } else if k == 7 {
        5105110
    } else if k == 8 {
        5113117
    } else if k == 9 {
        8115101
    } else if k == 10 {
        5097117
    } else if k == 11 {
        5116105
    } else if k == 12 {
        4110111
    } else if k == 13 {
        3108111
    } else if k == 14 {
        6116097
    } else if k == 15 {
        4108111
    } else if k == 16 {
        1119000
    } else if k == 17 {
        6108111
    } else if k == 18 {
        4113117
    } else if k == 19 {
        4104101
    } else {
        0
    }
}

/// The mark of the `k`th row's alias, where it has one.
spec fn alias_mark(k: int) -> int {
    if k == 11 {
        1116000
    } else if k == 16 {
        5119114
    } else if k == 18 {
        1113000
    } else {
        0
    }
}

/// The words of the `k`th row and their marks.
proof fn lemma_row_marks(k: int)
    requires
        0 <= k < 20,
    ensures
        table().len() == 20,
        mark(table()[k].verb) == verb_mark(k),
        table()[k].aliases.len() == (if k == 11 || k == 16 || k == 18 {
            1int
        } else {
            0
        }),
        k == 11 || k == 16 || k == 18 ==> mark(table()[k].aliases[0]) == alias_mark(k),
{
    reveal_strlit("home");
    reveal_strlit("books");
    reveal_strlit("activities");
    reveal_strlit("notes");
    reveal_strlit("review");
    reveal_strlit("progress");
    reveal_strlit("week");
    reveal_strlit("inbox");
    reveal_strlit("queue");
    reveal_strlit("settings");
    reveal_strlit("audit");
    reveal_strlit("timer");
    reveal_strlit("note");
    reveal_strlit("log");
    reveal_strlit("target");
    reveal_strlit("logs");
    reveal_strlit("w");
    reveal_strlit("logout");
    reveal_strlit("quit");
    reveal_strlit("help");
    reveal_strlit("t");
    reveal_strlit("write");
    reveal_strlit("q");
    assert(mark("home"@) == 4104111);
    assert(mark("books"@) == 5098111);
    assert(mark("activities"@) == 10097099);
    assert(mark("notes"@) == 5110111);
    assert(mark("review"@) == 6114101);
    assert(mark("progress"@) == 8112114);
    assert(mark("week"@) == 4119101);
    assert(mark("inbox"@) == 5105110);
    assert(mark("queue"@) == 5113117);
    assert(mark("settings"@) == 8115101);
    assert(mark("audit"@) == 5097117);
    assert(mark("timer"@) == 5116105);
    assert(mark("note"@) == 4110111);
    assert(mark("log"@) == 3108111);
    assert(mark("target"@) == 6116097);
    assert(mark("logs"@) == 4108111);
    assert(mark("w"@) == 1119000);
    assert(mark("logout"@) == 6108111);
    assert(mark("quit"@) == 4113117);
    assert(mark("help"@) == 4104101);
    assert(mark("t"@) == 1116000);
    assert(mark("write"@) == 5119114);
    assert(mark("q"@) == 1113000);
    assert(table()[11].aliases == seq!["t"@]);
    assert(table()[16].aliases == seq!["write"@]);
    assert(table()[18].aliases == seq!["q"@]);
    if k == 0 {
        assert(table()[0].verb == "home"@);
    }
    if k == 1 {
        assert(table()[1].verb == "books"@);
    }
    if k == 2 {
        assert(table()[2].verb == "activities"@);
    }
    if k == 3 {
        assert(table()[3].verb == "notes"@);
    }
    if k == 4 {
        assert(table()[4].verb == "review"@);
    }
    if k == 5 {
        assert(table()[5].verb == "progress"@);
    }
    if k == 6 {
        assert(table()[6].verb == "week"@);
    }
    if k == 7 {
        assert(table()[7].verb == "inbox"@);
    }
    if k == 8 {
        assert(table()[8].verb == "queue"@);
    }
    if k == 9 {
        assert(table()[9].verb == "settings"@);
    }
    if k == 10 {
        assert(table()[10].verb == "audit"@);
    }
    if k == 11 {
        assert(table()[11].verb == "timer"@);
    }
    if k == 12 {
        assert(table()[12].verb == "note"@);
    }
    if k == 13 {
        assert(table()[13].verb == "log"@);
    }
    if k == 14 {
        assert(table()[14].verb == "target"@);
    }
    if k == 15 {
        assert(table()[15].verb == "logs"@);
    }
    if k == 16 {
        assert(table()[16].verb == "w"@);
    }
    if k == 17 {
        assert(table()[17].verb == "logout"@);
    }
    if k == 18 {
        assert(table()[18].verb == "quit"@);
    }
    if k == 19 {
        assert(table()[19].verb == "help"@);
    }
}

/// A word of the `k`th row suits no other row.
proof fn lemma_table_words(j: int, k: int, tok: Seq<char>)
    requires
        0 <= j < 20,
        0 <= k < 20,
        tok == table()[k].verb || table()[k].aliases.contains(tok),
        suits(table()[j], tok, Match::Exact),
    ensures
        j == k,
{
    lemma_row_marks(j);
    lemma_row_marks(k);
    assert(mark(tok) == verb_mark(k) || ((k == 11 || k == 16 || k == 18) && mark(tok)
        == alias_mark(k)));
    assert(mark(tok) == verb_mark(j) || ((j == 11 || j == 16 || j == 18) && mark(tok)
        == alias_mark(j)));
}

/// A verb typed in full, and an alias typed in full, resolve to their own row
/// whatever else they begin.
pub proof fn exact_words_win(k: int)
    requires
        0 <= k < table().len(),
    ensures
        resolved(table()[k].verb) == HitModel::One(table()[k]),
        forall|a: int|
            0 <= a < table()[k].aliases.len() ==> resolved(#[trigger] table()[k].aliases[a])
                == HitModel::One(table()[k]),
{
    lemma_exact(k, table()[k].verb);
    assert forall|a: int| 0 <= a < table()[k].aliases.len() implies resolved(
        #[trigger] table()[k].aliases[a],
    ) == HitModel::One(table()[k]) by {
        assert(table()[k].aliases.contains(table()[k].aliases[a]));
        lemma_exact(k, table()[k].aliases[a]);
    }
}

proof fn lemma_exact(k: int, tok: Seq<char>)
    requires
        0 <= k < table().len(),
        tok == table()[k].verb || table()[k].aliases.contains(tok),
    ensures
        resolved(tok) == HitModel::One(table()[k]),
{
    let exact = picked(table(), tok, Match::Exact);
    lemma_picked(table(), tok, Match::Exact);
    assert(exact.contains(table()[k]));
    assert(table().contains(exact[0]));
    let j = choose|j: int| 0 <= j < table().len() && table()[j] == exact[0];
    assert(suits(table()[j], tok, Match::Exact));
    lemma_table_words(j, k, tok);
}

/// What the empty line advertises are screens of the table.
pub proof fn the_invitation_lists_screens(i: int)
    requires
        0 <= i < nav_verb_texts().len(),
    ensures
        exists|k: int|
            0 <= k < table().len() && (#[trigger] table()[k]).verb == nav_verb_texts()[i]
                && table()[k].kind == Kind::Nav,
{
    let k: int = if i == 9 {
        11
    } else {
        i
    };
    assert(table()[k].verb == nav_verb_texts()[i]);
}

/// `:help` lists every verb of the table under its kind.
pub proof fn help_lists_every_verb(all: Seq<Row>, k: int)
    requires
        0 <= k < all.len(),
    ensures
        help_tokens(all, all[k].kind).contains(help_token(all[k])),
    decreases all.len(),
{
    let tokens = help_tokens(all, all[k].kind);
    if k < all.len() - 1 {
        let init = all.drop_last();
        help_lists_every_verb(init, k);
        let before = help_tokens(init, all[k].kind);
        let i = choose|i: int| 0 <= i < before.len() && before[i] == help_token(all[k]);
        assert(tokens[i] == help_token(all[k]));
    } else {
        assert(tokens[tokens.len() - 1] == help_token(all[k]));
    }
}

/// White space round a word without any is taken off, and nothing else.
proof fn lemma_trimmed_word(before: Seq<char>, word: Seq<char>, behind: Seq<char>)
    requires
        forall|i: int| 0 <= i < before.len() ==> is_white(#[trigger] before[i]),
        forall|i: int| 0 <= i < behind.len() ==> is_white(#[trigger] behind[i]),
        word.len() > 0,
        !is_white(word[0]),
        !is_white(word.last()),
    ensures
        trimmed(before + word + behind) == word,
{
    let line = before + word + behind;
    let cut = crate::text::trimming_takes_white_ends(line);
    let at = before.len() as int;
    let end = at + word.len();
    assert(line[at] == word[0]);
    assert(line[end - 1] == word.last());
    if cut.0 > at {
        assert(is_white(line[at]));
    }
    if cut.1 < end {
        assert(is_white(line[end - 1]));
    }
    assert(cut.0 < cut.1);
    if cut.0 < at {
        assert(line[cut.0] == before[cut.0]);
    }
    if cut.1 > end {
        assert(line[cut.1 - 1] == behind[cut.1 - 1 - end]);
    }
    assert(line.subrange(at, end) =~= word);
}

proof fn lemma_word_alone(before: Seq<char>, k: int, behind: Seq<char>)
    requires
        0 <= k < table().len(),
        table()[k].verb.len() > 0,
        forall|i: int| 0 <= i < before.len() ==> is_white(#[trigger] before[i]),
        forall|i: int| 0 <= i < behind.len() ==> is_white(#[trigger] behind[i]),
    ensures
        parsed(before + table()[k].verb + behind) == built(table()[k], Seq::empty()),
{
    let word = table()[k].verb;
    lemma_verbs_bare(k);
    assert(!is_white(word[0]));
    assert(!is_white(word[word.len() - 1]));
    lemma_trimmed_word(before, word, behind);
    lemma_bare(word);
    exact_words_win(k);
    assert(word.take(word.len() as int) =~= word);
}

/// A verb typed in full runs its own command, whatever blanks stand round it.
#[verifier::rlimit(60)]
pub proof fn a_verb_runs_its_command(before: Seq<char>, word: Seq<char>, behind: Seq<char>)
    requires
        forall|i: int| 0 <= i < before.len() ==> is_white(#[trigger] before[i]),
        forall|i: int| 0 <= i < behind.len() ==> is_white(#[trigger] behind[i]),
    ensures
        word == "home"@ ==> parsed(before + word + behind) == ParseModel::Run(CommandModel::Nav(ScreenKind::Home)),
        word == "books"@ ==> parsed(before + word + behind) == ParseModel::Run(CommandModel::Nav(ScreenKind::Books)),
        word == "activities"@ ==> parsed(before + word + behind) == ParseModel::Run(CommandModel::Nav(ScreenKind::Activities)),
        word == "notes"@ ==> parsed(before + word + behind) == ParseModel::Run(CommandModel::Nav(ScreenKind::Notes)),
        word == "review"@ ==> parsed(before + word + behind) == ParseModel::Run(CommandModel::Nav(ScreenKind::Review)),
        word == "progress"@ ==> parsed(before + word + behind) == ParseModel::Run(CommandModel::Nav(ScreenKind::Progress)),
        word == "week"@ ==> parsed(before + word + behind) == ParseModel::Run(CommandModel::Nav(ScreenKind::Week)),
        word == "inbox"@ ==> parsed(before + word + behind) == ParseModel::Run(CommandModel::Nav(ScreenKind::Inbox)),
        word == "queue"@ ==> parsed(before + word + behind) == ParseModel::Run(CommandModel::Nav(ScreenKind::Queue)),
        word == "settings"@ ==> parsed(before + word + behind) == ParseModel::Run(CommandModel::Nav(ScreenKind::Settings)),
        word == "audit"@ ==> parsed(before + word + behind) == ParseModel::Run(CommandModel::Nav(ScreenKind::Audit)),
        word == "timer"@ ==> parsed(before + word + behind) == ParseModel::Run(CommandModel::Nav(ScreenKind::Timer)),
        word == "note"@ ==> parsed(before + word + behind) == ParseModel::Run(CommandModel::Note(None)),
        word == "log"@ ==> parsed(before + word + behind) == ParseModel::Run(CommandModel::Log),
        word == "target"@ ==> parsed(before + word + behind) == ParseModel::Run(CommandModel::Target),
        word == "logs"@ ==> parsed(before + word + behind) == ParseModel::Run(CommandModel::Logs),
        word == "w"@ ==> parsed(before + word + behind) == ParseModel::Run(CommandModel::Write),
        word == "logout"@ ==> parsed(before + word + behind) == ParseModel::Run(CommandModel::Logout),
        word == "quit"@ ==> parsed(before + word + behind) == ParseModel::Run(CommandModel::Quit),
        word == "help"@ ==> parsed(before + word + behind) == ParseModel::Run(CommandModel::Help),
{
    assert(table()[0].verb == "home"@);
    assert(table()[1].verb == "books"@);
    assert(table()[2].verb == "activities"@);
    assert(table()[3].verb == "notes"@);
    assert(table()[4].verb == "review"@);
    assert(table()[5].verb == "progress"@);
    assert(table()[6].verb == "week"@);
    assert(table()[7].verb == "inbox"@);
    assert(table()[8].verb == "queue"@);
    assert(table()[9].verb == "settings"@);
    assert(table()[10].verb == "audit"@);
    assert(table()[11].verb == "timer"@);
    assert(table()[12].verb == "note"@);
    assert(table()[13].verb == "log"@);
    assert(table()[14].verb == "target"@);
    assert(table()[15].verb == "logs"@);
    assert(table()[16].verb == "w"@);
    assert(table()[17].verb == "logout"@);
    assert(table()[18].verb == "quit"@);
    assert(table()[19].verb == "help"@);
    if word == "home"@ {
        reveal_strlit("home");
        lemma_word_alone(before, 0, behind);
    }
    if word == "books"@ {
        reveal_strlit("books");
        lemma_word_alone(before, 1, behind);
    }
    if word == "activities"@ {
        reveal_strlit("activities");
        lemma_word_alone(before, 2, behind);
    }
    if word == "notes"@ {
        reveal_strlit("notes");
        lemma_word_alone(before, 3, behind);
    }
    if word == "review"@ {
        reveal_strlit("review");
        lemma_word_alone(before, 4, behind);
    }
    if word == "progress"@ {
        reveal_strlit("progress");
        lemma_word_alone(before, 5, behind);
    }
    if word == "week"@ {
        reveal_strlit("week");
        lemma_word_alone(before, 6, behind);
    }
    if word == "inbox"@ {
        reveal_strlit("inbox");
        lemma_word_alone(before, 7, behind);
    }
    if word == "queue"@ {
        reveal_strlit("queue");
        lemma_word_alone(before, 8, behind);
    }
    if word == "settings"@ {
        reveal_strlit("settings");
        lemma_word_alone(before, 9, behind);
    }
    if word == "audit"@ {
        reveal_strlit("audit");
        lemma_word_alone(before, 10, behind);
    }
    if word == "timer"@ {
        reveal_strlit("timer");
        lemma_word_alone(before, 11, behind);
    }
    if word == "note"@ {
        reveal_strlit("note");
        lemma_word_alone(before, 12, behind);
    }
    if word == "log"@ {
        reveal_strlit("log");
        lemma_word_alone(before, 13, behind);
    }
    if word == "target"@ {
        reveal_strlit("target");
        lemma_word_alone(before, 14, behind);
    }
    if word == "logs"@ {
        reveal_strlit("logs");
        lemma_word_alone(before, 15, behind);
    }
    if word == "w"@ {
        reveal_strlit("w");
        lemma_word_alone(before, 16, behind);
    }
    if word == "logout"@ {
        reveal_strlit("logout");
        lemma_word_alone(before, 17, behind);
    }
    if word == "quit"@ {
        reveal_strlit("quit");
        lemma_word_alone(before, 18, behind);
    }
    if word == "help"@ {
        reveal_strlit("help");
        lemma_word_alone(before, 19, behind);
    }
}

/// What a token resolves to begins with it: the row that it names, or the only one that
/// it begins; a token that begins none resolves to none.
pub proof fn a_token_resolves_to_what_it_begins(tok: Seq<char>, k: int)
    requires
        0 <= k < table().len(),
    ensures
        resolved(tok) matches HitModel::One(row) ==> tok.is_prefix_of(row.verb) || exists|a: int|
            0 <= a < row.aliases.len() && tok.is_prefix_of(#[trigger] row.aliases[a]),
        resolved(tok) is Miss ==> !tok.is_prefix_of(table()[k].verb),
        resolved(tok) is Many && tok.is_prefix_of(table()[k].verb)
            ==> resolved(tok)->Many_0.contains(table()[k].verb),
{
    lemma_picked(table(), tok, Match::Exact);
    lemma_picked(table(), tok, Match::Prefix);
    let exact = picked(table(), tok, Match::Exact);
    let begun = picked(table(), tok, Match::Prefix);
    if exact.len() > 0 {
        let row = exact[0];
        assert(suits(row, tok, Match::Exact));
        if row.verb != tok {
            let a = choose|a: int| 0 <= a < row.aliases.len() && row.aliases[a] == tok;
            assert(tok.is_prefix_of(row.aliases[a]));
        }
    } else if begun.len() > 0 {
        assert(suits(begun[0], tok, Match::Prefix));
    }
    if tok.is_prefix_of(table()[k].verb) {
        assert(suits(table()[k], tok, Match::Prefix));
        assert(begun.contains(table()[k]));
        let i = choose|i: int| 0 <= i < begun.len() && begun[i] == table()[k];
        assert(verbs(begun)[i] == table()[k].verb);
    }
}

/// Each name of the timer's verbs stands for its own verb.
pub proof fn the_timers_names_name_its_verbs()
    ensures
        TimerVerb::named("start"@) == Some(TimerVerb::Start),
        TimerVerb::named("pause"@) == Some(TimerVerb::Pause),
        TimerVerb::named("resume"@) == Some(TimerVerb::Resume),
        TimerVerb::named("stop"@) == Some(TimerVerb::Stop),
        TimerVerb::name_texts().len() == 4,
        forall|i: int|
            0 <= i < 4 ==> TimerVerb::named(#[trigger] TimerVerb::name_texts()[i]) is Some,
{
    reveal_strlit("start");
    reveal_strlit("pause");
    reveal_strlit("resume");
    reveal_strlit("stop");
    assert("start"@[0] != "pause"@[0]);
    assert("start"@[1] == 't' && "stop"@.len() == 4 && "start"@.len() == 5);
    assert("pause"@.len() == 5 && "resume"@.len() == 6);
    let names = TimerVerb::name_texts();
    assert(names[0] == "start"@ && names[1] == "pause"@ && names[2] == "resume"@ && names[3]
        == "stop"@);
    assert forall|i: int| 0 <= i < 4 implies TimerVerb::named(#[trigger] names[i]) is Some by {
        assert(i == 0 || i == 1 || i == 2 || i == 3);
    }
}

/// A verb and one of the timer's names behind it runs that verb of the timer, whatever
/// blanks stand before the line, between the two and behind them.
pub proof fn a_timer_name_runs_its_verb(between: Seq<char>, i: int)
    requires
        0 <= i < 4,
        between.len() > 0,
        forall|j: int| 0 <= j < between.len() ==> is_white(#[trigger] between[j]),
    ensures
        parsed("timer"@ + between + TimerVerb::name_texts()[i]) == ParseModel::Run(
            CommandModel::Timer(TimerVerb::named(TimerVerb::name_texts()[i])->0),
        ),
{
    let verb = "timer"@;
    let name = TimerVerb::name_texts()[i];
    let line = verb + between + name;
    reveal_strlit("timer");
    lemma_verbs_bare(11);
    assert(table()[11].verb == verb);
    lemma_names_bare();
    assert(bare(name));
    the_timers_names_name_its_verbs();
    reveal_strlit("start");
    reveal_strlit("pause");
    reveal_strlit("resume");
    reveal_strlit("stop");
    assert(name.len() > 0) by {
        assert(i == 0 || i == 1 || i == 2 || i == 3);
    }
    let none = Seq::<char>::empty();
    assert(line[0] == verb[0]);
    assert(line.last() == name[name.len() - 1]);
    assert(!is_white(verb[0]));
    assert(!is_white(name[name.len() - 1]));
    lemma_trimmed_word(none, line, none);
    assert(none + line + none =~= line);
    crate::text::lemma_gap_from(line, 0);
    let n = verb.len() as int;
    assert(line[n] == between[0]);
    let g = gap(line);
    if g < n {
        assert(line[g] == verb[g]);
    }
    if g > n {
        assert(!is_white(line[n]));
    }
    assert(line.take(n) =~= verb);
    let rest = line.skip(n + 1);
    let blanks = between.skip(1);
    assert(rest =~= blanks + name + none);
    assert forall|j: int| 0 <= j < blanks.len() implies is_white(#[trigger] blanks[j]) by {
        assert(blanks[j] == between[j + 1]);
    }
    assert(!is_white(name[0]));
    lemma_trimmed_word(blanks, name, none);
    exact_words_win(11);
    assert(TimerVerb::name_texts().contains(name));
}

/// `:note` and a text opens the overlay on that text, the blanks round it taken off.
pub proof fn a_note_line_carries_its_text(between: Seq<char>, text: Seq<char>)
    requires
        between.len() > 0,
        forall|j: int| 0 <= j < between.len() ==> is_white(#[trigger] between[j]),
        text.len() > 0,
        !is_white(text[0]),
        !is_white(text.last()),
    ensures
        parsed("note"@ + between + text) == ParseModel::Run(CommandModel::Note(Some(text))),
{
    let verb = "note"@;
    let line = verb + between + text;
    reveal_strlit("note");
    lemma_verbs_bare(12);
    assert(table()[12].verb == verb);
    let none = Seq::<char>::empty();
    assert(line[0] == verb[0]);
    assert(line.last() == text.last());
    assert(!is_white(verb[0]));
    lemma_trimmed_word(none, line, none);
    assert(none + line + none =~= line);
    crate::text::lemma_gap_from(line, 0);
    let n = verb.len() as int;
    assert(line[n] == between[0]);
    let g = gap(line);
    if g < n {
        assert(line[g] == verb[g]);
    }
    if g > n {
        assert(!is_white(line[n]));
    }
    assert(line.take(n) =~= verb);
    let rest = line.skip(n + 1);
    let blanks = between.skip(1);
    assert(rest =~= blanks + text + none);
    assert forall|j: int| 0 <= j < blanks.len() implies is_white(#[trigger] blanks[j]) by {
        assert(blanks[j] == between[j + 1]);
    }
    lemma_trimmed_word(blanks, text, none);
    exact_words_win(12);
}

/// A verb typed in full is told by what it does; one only begun is named first.
pub proof fn the_hint_tells_what_a_verb_does(input: Seq<char>, row: Row)
    requires
        !blank(input),
        gap(input) >= input.len(),
        resolved(trimmed(input)) == HitModel::One(row),
    ensures
        !hinted(input).warn,
        trimmed(input) == row.verb ==> hinted(input).text == "→ "@ + row.help,
        trimmed(input) != row.verb ==> hinted(input).text == "→ "@ + row.verb + " — "@ + row.help,
{
}

/// The line warns where no verb begins with what was typed, and only says what the
/// choices are where several do.
pub proof fn the_hint_warns_of_what_is_unknown(input: Seq<char>)
    requires
        !blank(input),
        gap(input) >= input.len(),
    ensures
        resolved(trimmed(input)) is Miss ==> hinted(input).warn && hinted(input).text
            == "unknown — try :help"@,
        resolved(trimmed(input)) matches HitModel::Many(verbs) ==> !hinted(input).warn && hinted(
            input,
        ).text == joined(verbs, " · "@),
{
}

} // verus!
