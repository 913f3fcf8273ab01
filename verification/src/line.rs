//! Styled text: what a panel says, line by line, with the tone of each piece.
//! The shell turns tones into colours.

use crate::text::{join, joined, texts};
use vstd::prelude::*;

verus! {

/// The tone of a piece of text.
#[derive(Debug, Clone, Copy, PartialEq, Eq, Structural)]
pub enum Tone {
    Plain,
    Bold,
    Muted,
    MutedBold,
    Header,
    Focused,
    Selection,
    SelectionBold,
    Accent,
    AccentBold,
    Success,
    SuccessBold,
    Warn,
    WarnBold,
    Danger,
    DangerBold,
    /// Dark text on a filled ground.
    OnDanger,
    OnDangerBold,
    OnWarn,
    OnSuccess,
    OnAccent,
}

/// A piece of text in one tone.
#[derive(Debug)]
pub struct Span {
    pub text: String,
    pub tone: Tone,
}

/// A line of styled text.
#[derive(Debug)]
pub struct Line {
    pub spans: Vec<Span>,
}

impl View for Span {
    type V = (Tone, Seq<char>);

    open spec fn view(&self) -> (Tone, Seq<char>) {
        (self.tone, self.text@)
    }
}

impl View for Line {
    type V = Seq<(Tone, Seq<char>)>;

    open spec fn view(&self) -> Seq<(Tone, Seq<char>)> {
        self.spans@.map_values(|s: Span| s@)
    }
}

/// The model of a run of lines.
pub open spec fn page(lines: Seq<Line>) -> Seq<Seq<(Tone, Seq<char>)>> {
    lines.map_values(|l: Line| l@)
}

/// A piece of text in one tone.
pub fn span(tone: Tone, text: String) -> (res: Span)
    ensures
        res@ == (tone, text@),
{
    Span { text, tone }
}

impl Line {
    /// A line without text.
    pub fn empty() -> (res: Self)
        ensures
            res@ == Seq::<(Tone, Seq<char>)>::empty(),
    {
        let l = Line { spans: Vec::new() };
        assert(l@ =~= Seq::empty());
        l
    }

    /// A line of one piece.
    pub fn of(tone: Tone, text: String) -> (res: Self)
        ensures
            res@ == seq![(tone, text@)],
    {
        let mut l = Line { spans: Vec::new() };
        l.spans.push(span(tone, text));
        assert(l@ =~= seq![(tone, text@)]);
        l
    }

    /// The line with one more piece behind it.
    pub fn with(self, tone: Tone, text: String) -> (res: Self)
        ensures
            res@ == self@.push((tone, text@)),
    {
        let mut l = self;
        l.spans.push(span(tone, text));
        assert(l@ =~= self@.push((tone, text@)));
        l
    }

    /// The line with the pieces of another behind it.
    pub fn and(self, other: &Line) -> (res: Self)
        ensures
            res@ == self@ + other@,
    {
        let mut l = self;
        let mut i: usize = 0;
        assert(self@ + other@.take(0) =~= self@);
        while i < other.spans.len()
            invariant
                i <= other.spans.len(),
                l@ == self@ + other@.take(i as int),
            decreases other.spans.len() - i,
        {
            l = l.with(other.spans[i].tone, other.spans[i].text.clone());
            i = i + 1;
            assert(l@ =~= self@ + other@.take(i as int));
        }
        assert(other@.take(other@.len() as int) =~= other@);
        l
    }

    /// The bare text of the line.
    pub open spec fn flat(self) -> Seq<char> {
        flat_text(self@)
    }

    /// The bare text of the line.
    pub fn text(&self) -> (res: String)
        ensures
            res@ == self.flat(),
    {
        let mut out = String::new();
        let mut i: usize = 0;
        while i < self.spans.len()
            invariant
                i <= self.spans.len(),
                out@ == flat_text(self@.take(i as int)),
            decreases self.spans.len() - i,
        {
            proof {
                let here = self@.take(i as int + 1);
                assert(here.drop_last() =~= self@.take(i as int));
                assert(here.last() == self.spans@[i as int]@);
            }
            vstd::string::StringExecFns::append(&mut out, self.spans[i].text.as_str());
            i = i + 1;
        }
        assert(self@.take(self@.len() as int) =~= self@);
        out
    }
}

/// The bare text of a run of pieces.
pub open spec fn flat_text(spans: Seq<(Tone, Seq<char>)>) -> Seq<char>
    decreases spans.len(),
{
    if spans.len() == 0 {
        Seq::empty()
    } else {
        flat_text(spans.drop_last()) + spans.last().1
    }
}

/// The lines with one more behind them.
pub fn push_line(lines: &mut Vec<Line>, line: Line)
    ensures
        page(final(lines)@) == page(old(lines)@).push(line@),
{
    lines.push(line);
    assert(page(lines@) =~= page(old(lines)@).push(line@));
}

/// A page without lines.
pub fn no_lines() -> (res: Vec<Line>)
    ensures
        page(res@) == Seq::<Seq<(Tone, Seq<char>)>>::empty(),
{
    let v: Vec<Line> = Vec::new();
    assert(page(v@) =~= Seq::empty());
    v
}

// ---- runs of lines ----

/// Each piece of a text as a plain line.
pub open spec fn plain_lines(parts: Seq<Seq<char>>) -> Seq<Seq<(Tone, Seq<char>)>> {
    parts.map_values(|p: Seq<char>| seq![(Tone::Plain, p)])
}

/// One muted line of joined parts, or none.
pub open spec fn muted_join(parts: Seq<Seq<char>>) -> Seq<Seq<(Tone, Seq<char>)>> {
    if parts.len() > 0 {
        seq![seq![(Tone::Muted, joined(parts, "  ·  "@))]]
    } else {
        Seq::empty()
    }
}

/// A page with one muted line of joined parts behind it, where there are any.
pub fn push_muted_join(lines: &mut Vec<Line>, parts: &Vec<String>)
    ensures
        page(final(lines)@) == page(old(lines)@) + muted_join(texts(parts@)),
{
    if parts.len() > 0 {
        push_line(lines, Line::of(Tone::Muted, join(parts, "  ·  ")));
    }
    assert(texts(parts@).len() == parts@.len());
    assert(page(lines@) =~= page(old(lines)@) + muted_join(texts(parts@)));
}

/// A page with each text as a plain line behind it.
pub fn push_plain_lines(lines: &mut Vec<Line>, parts: &Vec<String>)
    ensures
        page(final(lines)@) == page(old(lines)@) + plain_lines(texts(parts@)),
{
    let ghost start = page(lines@);
    let mut i: usize = 0;
    assert(start + plain_lines(texts(parts@).take(0)) =~= start);
    while i < parts.len()
        invariant
            i <= parts.len(),
            page(lines@) == start + plain_lines(texts(parts@).take(i as int)),
        decreases parts.len() - i,
    {
        push_line(lines, Line::of(Tone::Plain, parts[i].clone()));
        i = i + 1;
        assert(page(lines@) =~= start + plain_lines(texts(parts@).take(i as int)));
    }
    assert(texts(parts@).take(parts@.len() as int) =~= texts(parts@));
}

/// What the footer offers: keys with what they do, or one line of text.
#[derive(Debug)]
pub enum Footer {
    Keys(Vec<(&'static str, &'static str)>),
    Text(Line),
}

impl Footer {
    /// Exactly these keys.
    pub open spec fn offers(self, keys: Seq<(&'static str, &'static str)>) -> bool {
        self matches Footer::Keys(v) && v@ =~= keys
    }

    /// The same keys or the same text as another footer.
    pub open spec fn same(self, other: Footer) -> bool {
        match (self, other) {
            (Footer::Keys(a), Footer::Keys(b)) => a@ == b@,
            (Footer::Text(a), Footer::Text(b)) => a@ == b@,
            _ => false,
        }
    }

    /// A copy of the footer.
    pub fn dup(&self) -> (res: Footer)
        ensures
            res.same(*self),
    {
        match self {
            Footer::Keys(keys) => {
                let mut v: Vec<(&'static str, &'static str)> = Vec::new();
                let mut i: usize = 0;
                while i < keys.len()
                    invariant
                        i <= keys.len(),
                        v@ == keys@.take(i as int),
                    decreases keys.len() - i,
                {
                    v.push(keys[i]);
                    i = i + 1;
                    assert(v@ =~= keys@.take(i as int));
                }
                assert(v@ =~= keys@);
                Footer::Keys(v)
            },
            Footer::Text(text) => {
                let line = Line::empty().and(text);
                assert(line@ =~= text@);
                Footer::Text(line)
            },
        }
    }

    /// Exactly this text.
    pub open spec fn reads(self, tone: Tone, text: Seq<char>) -> bool {
        self matches Footer::Text(line) && line@ == seq![(tone, text)]
    }
}

/// A rectangle of the terminal, in cells.
#[derive(Debug, Clone, Copy, PartialEq, Eq, Structural)]
pub struct Area {
    pub x: u16,
    pub y: u16,
    pub width: u16,
    pub height: u16,
}

impl Area {
    /// The rectangle ends inside the terminal's coordinates.
    pub open spec fn wf(self) -> bool {
        self.x + self.width <= u16::MAX && self.y + self.height <= u16::MAX
    }

    /// Whether the other rectangle is inside this one.
    pub open spec fn holds(self, inner: Area) -> bool {
        &&& self.x <= inner.x
        &&& self.y <= inner.y
        &&& inner.x + inner.width <= self.x + self.width
        &&& inner.y + inner.height <= self.y + self.height
    }

    /// The rectangle of this size in the middle, cut to fit.
    pub open spec fn middle(self, w: int, h: int) -> Area {
        let width = if w < self.width {
            w
        } else {
            self.width as int
        };
        let height = if h < self.height {
            h
        } else {
            self.height as int
        };
        Area {
            x: (self.x + (self.width - width) / 2) as u16,
            y: (self.y + (self.height - height) / 2) as u16,
            width: width as u16,
            height: height as u16,
        }
    }
}

/// A rectangle of fixed size in the middle of `area`, cut to fit.
pub fn centered(area: Area, w: u16, h: u16) -> (res: Area)
    requires
        area.wf(),
    ensures
        res == area.middle(w as int, h as int),
        area.holds(res),
{
    let width: u16 = if w < area.width {
        w
    } else {
        area.width
    };
    let height: u16 = if h < area.height {
        h
    } else {
        area.height
    };
    Area {
        x: area.x + (area.width - width) / 2,
        y: area.y + (area.height - height) / 2,
        width,
        height,
    }
}

/// A share of a width in percent, at least one column.
pub open spec fn share(width: int, pct: int) -> int {
    let w = width * pct / 100;
    if w < 1 {
        1
    } else {
        w
    }
}

/// A rectangle in the middle of `area`, `pct` percent as wide and at most
/// `max_h` tall.
pub fn centered_share(area: Area, pct: u16, max_h: u16) -> (res: Area)
    requires
        area.wf(),
        area.width >= 1,
        pct <= 100,
    ensures
        res == area.middle(share(area.width as int, pct as int), max_h as int),
        area.holds(res),
{
    assert(area.width as int * pct as int <= area.width as int * 100) by (nonlinear_arith)
        requires
            pct <= 100,
            area.width >= 0,
    ;
    assert(0 <= area.width as int * pct as int) by (nonlinear_arith)
        requires
            pct >= 0,
            area.width >= 0,
    ;
    let wide: u32 = area.width as u32 * pct as u32 / 100;
    let w: u16 = if wide < 1 {
        1
    } else {
        wide as u16
    };
    centered(area, w, max_h)
}

/// A rectangle in the middle has the size asked for where that fits, and as much room on
/// one side as on the other, but for one cell.
pub proof fn the_middle_is_in_the_middle(area: Area, w: u16, h: u16)
    requires
        area.wf(),
    ensures
        ({
            let inner = area.middle(w as int, h as int);
            let left = inner.x - area.x;
            let right = area.x + area.width - inner.x - inner.width;
            let above = inner.y - area.y;
            let below = area.y + area.height - inner.y - inner.height;
            &&& inner.width == (if w < area.width {
                w
            } else {
                area.width
            })
            &&& inner.height == (if h < area.height {
                h
            } else {
                area.height
            })
            &&& 0 <= right - left <= 1
            &&& 0 <= below - above <= 1
        }),
{
}

/// A rectangle put in the middle of another lies inside it: no cell of it is outside.
pub proof fn the_middle_is_inside(area: Area, w: u16, h: u16, inner: Area, x: int, y: int)
    requires
        area.wf(),
        call_ensures(centered, (area, w, h), inner),
        inner.x <= x < inner.x + inner.width,
        inner.y <= y < inner.y + inner.height,
    ensures
        area.x <= x < area.x + area.width,
        area.y <= y < area.y + area.height,
{
}

/// A share of a width is that many hundredths of it, rounded down, and never nothing.
pub proof fn a_share_is_so_many_hundredths(width: int, pct: int)
    requires
        width >= 1,
        0 <= pct <= 100,
    ensures
        1 <= share(width, pct) <= width,
        width * pct >= 100 ==> 100 * share(width, pct) <= width * pct < 100 * (share(width, pct)
            + 1),
        share(width, 100) == width,
{
    assert(0 <= width * pct <= width * 100) by (nonlinear_arith)
        requires
            width >= 1,
            0 <= pct <= 100,
    ;
}

} // verus!
