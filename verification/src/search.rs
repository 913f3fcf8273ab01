//! The search prompt, and stepping between the loaded rows that a query matches.

use crate::line::{Line, Tone};
use crate::text::{
    ascii_lower, cat4, chars_of, contains, holds, lower, own, spell, stands, stands_at,
};
use vstd::prelude::*;

verus! {

/// A search prompt: what is typed, and whether it still takes keys.
#[derive(Debug)]
pub struct SearchBox {
    pub query: String,
    pub active: bool,
}

impl Default for SearchBox {
    fn default() -> (res: Self)
        ensures
            res.query@ == Seq::<char>::empty(),
            !res.active,
    {
        SearchBox { query: String::new(), active: false }
    }
}

/// Whether a text matches the query, whatever the case; an empty query matches
/// nothing.
pub open spec fn hits(text: Seq<char>, query: Seq<char>) -> bool {
    query.len() > 0 && holds(ascii_lower(text), ascii_lower(query))
}

/// The nearest row past `cur` in the direction of travel that is marked, going
/// round the end; none where no row is.
pub open spec fn next_marked(marks: Seq<bool>, cur: int, forward: bool) -> Option<int> {
    let ahead = if forward {
        first_marked(marks, cur + 1)
    } else {
        last_marked(marks, cur)
    };
    if ahead is Some {
        ahead
    } else if forward {
        first_marked(marks, 0)
    } else {
        last_marked(marks, marks.len() as int)
    }
}

/// The first marked row at or after `from`.
pub open spec fn first_marked(marks: Seq<bool>, from: int) -> Option<int>
    decreases marks.len() - from,
{
    if from >= marks.len() {
        None
    } else if from >= 0 && marks[from] {
        Some(from)
    } else {
        first_marked(marks, from + 1)
    }
}

/// The last marked row before `end`.
pub open spec fn last_marked(marks: Seq<bool>, end: int) -> Option<int>
    decreases end,
{
    if end <= 0 {
        None
    } else if end <= marks.len() && marks[end - 1] {
        Some(end - 1)
    } else {
        last_marked(marks, end - 1)
    }
}

fn first_from(marks: &Vec<bool>, from: usize) -> (res: Option<usize>)
    ensures
        match first_marked(marks@, from as int) {
            Some(i) => res == Some(i as usize) && 0 <= i < marks@.len(),
            None => res is None,
        },
{
    let mut i: usize = from;
    while i < marks.len()
        invariant
            from <= i,
            first_marked(marks@, i as int) == first_marked(marks@, from as int),
        decreases marks.len() - i,
    {
        if marks[i] {
            return Some(i);
        }
        i = i + 1;
    }
    None
}

fn last_before(marks: &Vec<bool>, end: usize) -> (res: Option<usize>)
    ensures
        match last_marked(marks@, end as int) {
            Some(i) => res == Some(i as usize) && 0 <= i < marks@.len(),
            None => res is None,
        },
{
    let mut i: usize = end;
    while i > 0
        invariant
            i <= end,
            last_marked(marks@, i as int) == last_marked(marks@, end as int),
        decreases i,
    {
        if i <= marks.len() && marks[i - 1] {
            return Some(i - 1);
        }
        i = i - 1;
    }
    None
}

/// The row that a step in direction `dir` lands on.
pub fn step_match(marks: &Vec<bool>, cur: usize, dir: i32) -> (res: Option<usize>)
    ensures
        match next_marked(marks@, cur as int, dir > 0) {
            Some(i) => res == Some(i as usize) && 0 <= i < marks@.len(),
            None => res is None,
        },
{
    let ahead = if dir > 0 {
        if cur < marks.len() {
            first_from(marks, cur + 1)
        } else {
            None
        }
    } else {
        last_before(marks, cur)
    };
    if ahead.is_some() {
        ahead
    } else if dir > 0 {
        first_from(marks, 0)
    } else {
        last_before(marks, marks.len())
    }
}

/// Whether a text matches the query.
pub fn is_hit(text: &str, query: &str) -> (res: bool)
    ensures
        res == hits(text@, query@),
{
    !query.is_empty() && contains(&lower(text), &lower(query))
}

impl SearchBox {
    /// Whether nothing is typed.
    pub fn is_empty(&self) -> (res: bool)
        ensures
            res == (self.query@.len() == 0),
    {
        self.query.as_str().is_empty()
    }

    /// Start typing afresh.
    pub fn open(&mut self)
        ensures
            final(self).active,
            final(self).query@ == Seq::<char>::empty(),
    {
        self.active = true;
        self.query.clear();
    }

    /// Type a letter.
    pub fn input(&mut self, c: char)
        ensures
            final(self).active == old(self).active,
            final(self).query@ == old(self).query@.push(c),
    {
        self.query.push(c);
    }

    /// Take a letter back.
    pub fn backspace(&mut self)
        ensures
            final(self).active == old(self).active,
            final(self).query@ == (if old(self).query@.len() > 0 {
                old(self).query@.drop_last()
            } else {
                old(self).query@
            }),
    {
        let _ = self.query.pop();
    }

    /// Stop typing, and keep what was typed.
    pub fn apply(&mut self)
        ensures
            !final(self).active,
            final(self).query == old(self).query,
    {
        self.active = false;
    }

    /// Stop typing, and drop what was typed.
    pub fn cancel(&mut self)
        ensures
            !final(self).active,
            final(self).query@ == Seq::<char>::empty(),
    {
        self.active = false;
        self.query.clear();
    }
}

/// A title with the query behind it, while there is one.
pub open spec fn queried_title(title: Seq<char>, search: SearchBox) -> Seq<char> {
    if search.active || search.query@.len() > 0 {
        title + " · /"@ + search.query@ + "_"@
    } else {
        title
    }
}

/// A title with the query behind it, while there is one.
pub fn title_with_query(title: &str, search: &SearchBox) -> (res: String)
    ensures
        res@ == queried_title(title@, *search),
{
    if search.active || !search.is_empty() {
        cat4(title, " · /", search.query.as_str(), "_")
    } else {
        own(title)
    }
}

/// A piece of a text in one tone; nothing where the piece is empty.
pub open spec fn toned(tone: Tone, piece: Seq<char>) -> Seq<(Tone, Seq<char>)> {
    if piece.len() > 0 {
        seq![(tone, piece)]
    } else {
        Seq::empty()
    }
}

/// A text from `from` on with the places marked where the query stands at `at` or
/// later, whatever the case: left to right, none over another.
pub open spec fn marked_from(
    text: Seq<char>,
    query: Seq<char>,
    tone: Tone,
    from: int,
    at: int,
) -> Seq<(Tone, Seq<char>)>
    decreases text.len() - at,
{
    if query.len() == 0 || at + query.len() > text.len() {
        toned(tone, text.skip(from))
    } else if stands_at(ascii_lower(text), ascii_lower(query), at) {
        let end = at + query.len();
        toned(tone, text.subrange(from, at)) + seq![(Tone::AccentBold, text.subrange(at, end))]
            + marked_from(text, query, tone, end, end)
    } else {
        marked_from(text, query, tone, from, at + 1)
    }
}

/// A text in a tone with the places marked where the query stands.
pub open spec fn marked(text: Seq<char>, query: Seq<char>, tone: Tone) -> Seq<(Tone, Seq<char>)> {
    marked_from(text, query, tone, 0, 0)
}

/// A line with a piece behind it, where the piece is not empty.
fn with_piece(line: Line, tone: Tone, piece: String) -> (res: Line)
    ensures
        res@ == line@ + toned(tone, piece@),
{
    if piece.as_str().is_empty() {
        assert(line@ + toned(tone, piece@) =~= line@);
        line
    } else {
        let res = line.with(tone, piece);
        assert(res@ =~= line@ + toned(tone, piece@));
        res
    }
}

/// A text in a tone with the places marked where the query stands.
pub fn highlight(text: &str, query: &str, tone: Tone) -> (res: Line)
    ensures
        res@ == marked(text@, query@, tone),
{
    let letters = chars_of(text);
    let hay = lower(text);
    let needle = lower(query);
    let n: usize = letters.len();
    let m: usize = needle.len();
    let mut line = Line::empty();
    let mut from: usize = 0;
    let mut at: usize = 0;
    assert(line@ + marked(text@, query@, tone) =~= marked(text@, query@, tone));
    while m > 0 && at <= n && m <= n - at
        invariant
            letters@ == text@,
            hay@ == ascii_lower(text@),
            needle@ == ascii_lower(query@),
            n == text@.len(),
            m == query@.len(),
            from <= at <= n,
            line@ + marked_from(text@, query@, tone, from as int, at as int) == marked(
                text@,
                query@,
                tone,
            ),
        decreases n - at,
    {
        if stands(&hay, &needle, at) {
            let end: usize = at + m;
            let ghost rest = marked_from(text@, query@, tone, end as int, end as int);
            let ghost before = line@;
            line = with_piece(line, tone, spell(&letters, from, at));
            line = line.with(Tone::AccentBold, spell(&letters, at, end));
            assert(line@ + rest =~= before + marked_from(
                text@,
                query@,
                tone,
                from as int,
                at as int,
            ));
            from = end;
            at = end;
        } else {
            at = at + 1;
        }
    }
    assert(text@.skip(from as int) =~= text@.subrange(from as int, n as int));
    with_piece(line, tone, spell(&letters, from, n))
}

/// The text of a run of pieces.
pub open spec fn run_text(pieces: Seq<(Tone, Seq<char>)>) -> Seq<char>
    decreases pieces.len(),
{
    if pieces.len() == 0 {
        Seq::empty()
    } else {
        pieces[0].1 + run_text(pieces.skip(1))
    }
}

/// The text of two runs is the one's behind the other's.
proof fn lemma_run_text(a: Seq<(Tone, Seq<char>)>, b: Seq<(Tone, Seq<char>)>)
    ensures
        run_text(a + b) == run_text(a) + run_text(b),
    decreases a.len(),
{
    if a.len() == 0 {
        assert(a + b =~= b);
        assert(run_text(a) + run_text(b) =~= run_text(b));
    } else {
        assert((a + b).skip(1) =~= a.skip(1) + b);
        lemma_run_text(a.skip(1), b);
        assert(run_text(a + b) =~= run_text(a) + run_text(b));
    }
}

/// The text of one piece.
proof fn lemma_toned(tone: Tone, piece: Seq<char>)
    ensures
        run_text(toned(tone, piece)) == piece,
        run_text(seq![(tone, piece)]) == piece,
{
    let one = seq![(tone, piece)];
    assert(one.skip(1) =~= Seq::empty());
    assert(run_text(one.skip(1)) =~= Seq::empty());
    assert(run_text(one) =~= piece);
    assert(toned(tone, piece).len() == 0 ==> piece =~= Seq::empty());
}

/// What `marked_from` keeps and marks.
proof fn lemma_marked_from(text: Seq<char>, query: Seq<char>, tone: Tone, from: int, at: int)
    requires
        0 <= from <= at <= text.len(),
        tone != Tone::AccentBold,
    ensures
        run_text(marked_from(text, query, tone, from, at)) == text.skip(from),
        forall|i: int|
            0 <= i < marked_from(text, query, tone, from, at).len() && (#[trigger] marked_from(
                text,
                query,
                tone,
                from,
                at,
            )[i]).0 == Tone::AccentBold ==> ascii_lower(
                marked_from(text, query, tone, from, at)[i].1,
            ) == ascii_lower(query),
        query.len() > 0 && (exists|j: int|
            at <= j && stands_at(ascii_lower(text), ascii_lower(query), j)) <==> exists|i: int|
            0 <= i < marked_from(text, query, tone, from, at).len() && (#[trigger] marked_from(
                text,
                query,
                tone,
                from,
                at,
            )[i]).0 == Tone::AccentBold,
    decreases text.len() - at,
{
    let all = marked_from(text, query, tone, from, at);
    let low = ascii_lower(text);
    let want = ascii_lower(query);
    if query.len() == 0 || at + query.len() > text.len() {
        lemma_toned(tone, text.skip(from));
    } else if stands_at(low, want, at) {
        let end = at + query.len();
        let head = toned(tone, text.subrange(from, at));
        let hit = seq![(Tone::AccentBold, text.subrange(at, end))];
        let rest = marked_from(text, query, tone, end, end);
        lemma_marked_from(text, query, tone, end, end);
        lemma_toned(tone, text.subrange(from, at));
        lemma_toned(Tone::AccentBold, text.subrange(at, end));
        lemma_run_text(head, hit);
        lemma_run_text(head + hit, rest);
        assert(text.subrange(from, at) + text.subrange(at, end) + text.skip(end) =~= text.skip(
            from,
        ));
        assert(ascii_lower(text.subrange(at, end)) =~= low.subrange(at, end));
        let k = head.len() as int;
        assert(all[k] == hit[0]);
        assert forall|i: int|
            0 <= i < all.len() && (#[trigger] all[i]).0 == Tone::AccentBold implies ascii_lower(
            all[i].1,
        ) == want by {
            if i > k {
                assert(all[i] == rest[i - k - 1]);
            } else if i < k {
                assert(all[i] == head[i]);
            }
        }
    } else {
        lemma_marked_from(text, query, tone, from, at + 1);
        assert(forall|j: int| at <= j && stands_at(low, want, j) ==> at + 1 <= j);
    }
}

/// Marking keeps the text, marks nothing but the query whatever the case, and
/// marks something exactly where the text matches.
pub proof fn marking_shows_the_matches(text: Seq<char>, query: Seq<char>, tone: Tone)
    requires
        tone != Tone::AccentBold,
    ensures
        run_text(marked(text, query, tone)) == text,
        forall|i: int|
            0 <= i < marked(text, query, tone).len() && (#[trigger] marked(text, query, tone)[i]).0
                == Tone::AccentBold ==> ascii_lower(marked(text, query, tone)[i].1) == ascii_lower(
                query,
            ),
        hits(text, query) <==> exists|i: int|
            0 <= i < marked(text, query, tone).len() && (#[trigger] marked(text, query, tone)[i]).0
                == Tone::AccentBold,
{
    lemma_marked_from(text, query, tone, 0, 0);
    assert(text.skip(0) =~= text);
    if hits(text, query) {
        let j = choose|j: int| stands_at(ascii_lower(text), ascii_lower(query), j);
        assert(0 <= j && stands_at(ascii_lower(text), ascii_lower(query), j));
    }
}

/// A first marked row is marked, and none before it is.
proof fn lemma_first(marks: Seq<bool>, from: int)
    requires
        0 <= from,
    ensures
        first_marked(marks, from) matches Some(i) ==> from <= i < marks.len() && marks[i],
        first_marked(marks, from) is None ==> forall|j: int|
            from <= j < marks.len() ==> !#[trigger] marks[j],
    decreases marks.len() - from,
{
    if from < marks.len() && !marks[from] {
        lemma_first(marks, from + 1);
    }
}

/// A last marked row is marked, and none after it is.
proof fn lemma_last(marks: Seq<bool>, end: int)
    requires
        end <= marks.len(),
    ensures
        last_marked(marks, end) matches Some(i) ==> 0 <= i < end && marks[i],
        last_marked(marks, end) is None ==> forall|j: int| 0 <= j < end ==> !#[trigger] marks[j],
    decreases end,
{
    if end > 0 && !marks[end - 1] {
        lemma_last(marks, end - 1);
    }
}

/// A step lands on a marked row wherever there is one, and nowhere otherwise.
pub proof fn a_step_lands_on_a_match(marks: Seq<bool>, cur: int, forward: bool)
    requires
        0 <= cur < marks.len(),
    ensures
        next_marked(marks, cur, forward) matches Some(i) ==> 0 <= i < marks.len() && marks[i],
        next_marked(marks, cur, forward) is None <==> forall|j: int|
            0 <= j < marks.len() ==> !#[trigger] marks[j],
{
    lemma_first(marks, cur + 1);
    lemma_first(marks, 0);
    lemma_last(marks, cur);
    lemma_last(marks, marks.len() as int);
}

/// A step forward lands on the nearest match behind the cursor, and only where there is
/// none there on the first one from the top.
pub proof fn a_step_forward_lands_on_the_nearest(marks: Seq<bool>, cur: int, j: int)
    requires
        0 <= cur < marks.len(),
        0 <= j < marks.len(),
        marks[j],
    ensures
        next_marked(marks, cur, true) is Some,
        j > cur ==> cur < next_marked(marks, cur, true)->0 <= j,
        (forall|k: int| cur < k < marks.len() ==> !#[trigger] marks[k]) ==> 0 <= next_marked(
            marks,
            cur,
            true,
        )->0 <= j,
{
    lemma_first(marks, cur + 1);
    lemma_first(marks, 0);
    lemma_first_is_first(marks, cur + 1);
    lemma_first_is_first(marks, 0);
}

proof fn lemma_first_is_first(marks: Seq<bool>, from: int)
    requires
        0 <= from,
    ensures
        first_marked(marks, from) matches Some(i) ==> forall|j: int|
            from <= j < i ==> !#[trigger] marks[j],
    decreases marks.len() - from,
{
    if from < marks.len() && !marks[from] {
        lemma_first_is_first(marks, from + 1);
    }
}

proof fn lemma_last_is_last(marks: Seq<bool>, end: int)
    requires
        end <= marks.len(),
    ensures
        last_marked(marks, end) matches Some(i) ==> forall|j: int|
            i < j < end ==> !#[trigger] marks[j],
    decreases end,
{
    if end > 0 && !marks[end - 1] {
        lemma_last_is_last(marks, end - 1);
    }
}

/// A step back lands on the nearest match before the cursor, and only where there is
/// none there on the last one.
pub proof fn a_step_back_lands_on_the_nearest(marks: Seq<bool>, cur: int, j: int)
    requires
        0 <= cur < marks.len(),
        0 <= j < marks.len(),
        marks[j],
    ensures
        next_marked(marks, cur, false) is Some,
        j < cur ==> j <= next_marked(marks, cur, false)->0 < cur,
        (forall|k: int| 0 <= k < cur ==> !#[trigger] marks[k]) ==> j <= next_marked(
            marks,
            cur,
            false,
        )->0 < marks.len(),
{
    lemma_last(marks, cur);
    lemma_last(marks, marks.len() as int);
    lemma_last_is_last(marks, cur);
    lemma_last_is_last(marks, marks.len() as int);
}

/// A query matches a text that holds it in any case, and nothing matches no query.
pub proof fn a_match_ignores_the_case(text: Seq<char>, query: Seq<char>)
    ensures
        hits(text, query) == hits(ascii_lower(text), query),
        hits(text, query) == hits(text, ascii_lower(query)),
        query.len() == 0 ==> !hits(text, query),
        query.len() > 0 && holds(text, query) ==> hits(text, query),
{
    assert(ascii_lower(ascii_lower(text)) =~= ascii_lower(text));
    assert(ascii_lower(ascii_lower(query)) =~= ascii_lower(query));
    if query.len() > 0 && holds(text, query) {
        let i = choose|i: int| stands_at(text, query, i);
        assert(ascii_lower(text).subrange(i, i + query.len()) =~= ascii_lower(query));
        assert(stands_at(ascii_lower(text), ascii_lower(query), i));
    }
}

} // verus!
