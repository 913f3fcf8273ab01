//! The fuzzy picker: a list narrowed by what is typed, with a cursor over what
//! is left of it.

use crate::cursor::{step, stepped};
use crate::keys::{KeyCode, KeyEvent};
use crate::text::{ascii_lower, lower};
use vstd::prelude::*;

verus! {

/// Whether the letters of `q` stand in `s` in their order.
pub open spec fn in_order(q: Seq<char>, s: Seq<char>) -> bool
    decreases s.len(),
{
    if q.len() == 0 {
        true
    } else if s.len() == 0 {
        false
    } else if q.last() == s.last() {
        in_order(q.drop_last(), s.drop_last())
    } else {
        in_order(q, s.drop_last())
    }
}

fn ordered(q: &Vec<char>, s: &Vec<char>) -> (res: bool)
    ensures
        res == in_order(q@, s@),
{
    let mut i: usize = q.len();
    let mut j: usize = s.len();
    assert(q@.take(q@.len() as int) =~= q@);
    assert(s@.take(s@.len() as int) =~= s@);
    while i > 0 && j > 0
        invariant
            i <= q.len(),
            j <= s.len(),
            in_order(q@.take(i as int), s@.take(j as int)) == in_order(q@, s@),
        decreases j,
    {
        assert(q@.take(i as int).drop_last() =~= q@.take(i - 1));
        assert(s@.take(j as int).drop_last() =~= s@.take(j - 1));
        assert(q@.take(i as int).last() == q@[i - 1]);
        assert(s@.take(j as int).last() == s@[j - 1]);
        if q[i - 1] == s[j - 1] {
            i = i - 1;
        }
        j = j - 1;
    }
    i == 0
}

/// One thing to pick, under its label.
#[derive(Debug)]
pub struct PickerItem<T> {
    pub label: String,
    pub value: T,
}

/// A fuzzy picker.
#[derive(Debug)]
pub struct Picker<T> {
    pub title: &'static str,
    pub items: Vec<PickerItem<T>>,
    pub query: String,
    pub cursor: usize,
}

/// Whether an item answers what is typed, whatever the case.
pub open spec fn answers<T>(item: PickerItem<T>, query: Seq<char>) -> bool {
    in_order(ascii_lower(query), ascii_lower(item.label@))
}

/// The items that answer what is typed, in order.
pub open spec fn left<T>(items: Seq<PickerItem<T>>, query: Seq<char>) -> Seq<PickerItem<T>>
    decreases items.len(),
{
    if items.len() == 0 {
        Seq::empty()
    } else {
        let before = left(items.drop_last(), query);
        if answers(items.last(), query) {
            before.push(items.last())
        } else {
            before
        }
    }
}

impl<T> Picker<T> {
    /// The items on display.
    pub open spec fn shown(self) -> Seq<PickerItem<T>> {
        left(self.items@, self.query@)
    }

    /// The item under the cursor.
    pub open spec fn chosen(self) -> Option<PickerItem<T>> {
        if self.cursor < self.shown().len() {
            Some(self.shown()[self.cursor as int])
        } else {
            None
        }
    }

    /// A picker over the items, with nothing typed.
    pub open spec fn opened(self, title: &'static str, items: Seq<PickerItem<T>>) -> bool {
        &&& self.title == title
        &&& self.items@ == items
        &&& self.query@ == Seq::<char>::empty()
        &&& self.cursor == 0
    }

    /// A picker over the items, with nothing typed.
    pub fn new(title: &'static str, items: Vec<PickerItem<T>>) -> (res: Self)
        ensures
            res.opened(title, items@),
            res.items == items,
    {
        Picker { title, items, query: String::new(), cursor: 0 }
    }

    /// Where the items on display stand in the list.
    pub fn matches(&self) -> (res: Vec<usize>)
        ensures
            res@.len() == self.shown().len(),
            forall|k: int|
                #![trigger res@[k]]
                0 <= k < res@.len() ==> res@[k] < self.items@.len() && self.items@[res@[k] as int]
                    == self.shown()[k],
    {
        let q = lower(self.query.as_str());
        let mut out: Vec<usize> = Vec::new();
        let mut i: usize = 0;
        while i < self.items.len()
            invariant
                i <= self.items.len(),
                q@ == ascii_lower(self.query@),
                out@.len() == left(self.items@.take(i as int), self.query@).len(),
                forall|k: int|
                    #![trigger out@[k]]
                    0 <= k < out@.len() ==> out@[k] < i && self.items@[out@[k] as int] == left(
                        self.items@.take(i as int),
                        self.query@,
                    )[k],
            decreases self.items.len() - i,
        {
            proof {
                let here = self.items@.take(i as int + 1);
                assert(here.drop_last() =~= self.items@.take(i as int));
                assert(here.last() == self.items@[i as int]);
            }
            if ordered(&q, &lower(self.items[i].label.as_str())) {
                out.push(i);
            }
            i = i + 1;
        }
        assert(self.items@.take(self.items@.len() as int) =~= self.items@);
        out
    }

    fn selected_index(&self) -> (res: Option<usize>)
        ensures
            res is Some <==> self.chosen() is Some,
            res matches Some(i) ==> i < self.items@.len() && self.items@[i as int]
                == self.chosen()->0,
    {
        let m = self.matches();
        if self.cursor < m.len() {
            Some(m[self.cursor])
        } else {
            None
        }
    }

    /// What the item under the cursor stands for.
    pub fn selected(&self) -> (res: Option<&T>)
        ensures
            res is Some <==> self.chosen() is Some,
            res matches Some(v) ==> *v == self.chosen()->0.value,
    {
        match self.selected_index() {
            Some(i) => Some(&self.items[i].value),
            None => None,
        }
    }

    /// The label of the item under the cursor.
    pub fn selected_label(&self) -> (res: Option<&String>)
        ensures
            res is Some <==> self.chosen() is Some,
            res matches Some(s) ==> *s == self.chosen()->0.label,
    {
        match self.selected_index() {
            Some(i) => Some(&self.items[i].label),
            None => None,
        }
    }

    /// Whether `post` is the picker with one more letter typed.
    pub open spec fn typed(pre: Self, c: char, post: Self) -> bool {
        &&& post == Picker { query: post.query, cursor: 0, ..pre }
        &&& post.query@ == pre.query@.push(c)
    }

    /// Whether `post` is the picker with the last letter taken back.
    pub open spec fn untyped(pre: Self, post: Self) -> bool {
        &&& post == Picker { query: post.query, cursor: 0, ..pre }
        &&& post.query@ == (if pre.query@.len() > 0 {
            pre.query@.drop_last()
        } else {
            pre.query@
        })
    }

    /// Whether `post` is the picker with the cursor moved.
    pub open spec fn moved(pre: Self, delta: int, post: Self) -> bool {
        post == Picker {
            cursor: if pre.shown().len() == 0 {
                0
            } else {
                stepped(pre.cursor as int, delta, pre.shown().len() as int) as usize
            },
            ..pre
        }
    }

    /// Type a letter: the list narrows, the cursor goes to its top.
    pub fn input(&mut self, c: char)
        ensures
            Self::typed(*old(self), c, *final(self)),
    {
        self.query.push(c);
        self.cursor = 0;
    }

    /// Take a letter back: the list widens, the cursor goes to its top.
    pub fn backspace(&mut self)
        ensures
            Self::untyped(*old(self), *final(self)),
    {
        let _ = self.query.pop();
        self.cursor = 0;
    }

    /// Move the cursor over what is left of the list.
    pub fn move_cursor(&mut self, delta: i32)
        ensures
            Self::moved(*old(self), delta as int, *final(self)),
    {
        let n: usize = self.matches().len();
        if n == 0 {
            self.cursor = 0;
        } else {
            self.cursor = step(self.cursor, delta, n);
        }
    }

    /// How an open picker takes a key: the arrows and Ctrl-n/Ctrl-p move, plain
    /// letters filter.
    pub open spec fn keyed(pre: Self, key: KeyEvent, post: Self) -> bool {
        let ctrl = key.modifiers.has_control();
        match key.code {
            KeyCode::Backspace => Self::untyped(pre, post),
            KeyCode::Down => Self::moved(pre, 1, post),
            KeyCode::Up => Self::moved(pre, -1, post),
            KeyCode::Char(c) => if !ctrl {
                Self::typed(pre, c, post)
            } else if c == 'n' {
                Self::moved(pre, 1, post)
            } else if c == 'p' {
                Self::moved(pre, -1, post)
            } else {
                post == pre
            },
            _ => post == pre,
        }
    }

    /// Take a key.
    pub fn press(&mut self, key: KeyEvent)
        ensures
            Self::keyed(*old(self), key, *final(self)),
    {
        match key.code {
            KeyCode::Backspace => self.backspace(),
            KeyCode::Down => self.move_cursor(1),
            KeyCode::Up => self.move_cursor(-1),
            KeyCode::Char(c) => if !key.modifiers.with_control() {
                self.input(c);
            } else if c == 'n' {
                self.move_cursor(1);
            } else if c == 'p' {
                self.move_cursor(-1);
            },
            _ => {},
        }
    }
}

/// An item under its label.
pub fn item<T>(label: String, value: T) -> (res: PickerItem<T>)
    ensures
        res == (PickerItem { label, value }),
{
    PickerItem { label, value }
}

/// With nothing typed the whole list is on display.
pub proof fn an_untouched_picker_shows_everything<T>(items: Seq<PickerItem<T>>)
    ensures
        left(items, Seq::<char>::empty()) == items,
    decreases items.len(),
{
    if items.len() > 0 {
        an_untouched_picker_shows_everything(items.drop_last());
        assert(ascii_lower(Seq::<char>::empty()) =~= Seq::<char>::empty());
        assert(items.drop_last().push(items.last()) =~= items);
    } else {
        assert(items =~= Seq::empty());
    }
}

/// A text that holds more letters than another still holds the other's: what a
/// longer query leaves, a shorter one leaves too.
pub proof fn typing_only_narrows(q: Seq<char>, c: char, s: Seq<char>)
    requires
        in_order(q.push(c), s),
    ensures
        in_order(q, s),
    decreases s.len(), 1int,
{
    let longer = q.push(c);
    assert(longer.drop_last() =~= q);
    if s.len() > 0 {
        if longer.last() == s.last() {
            lemma_one_more(q, s);
        } else {
            typing_only_narrows(q, c, s.drop_last());
            lemma_one_more(q, s);
        }
    }
}

/// Letters found in a text's beginning are found in the text.
proof fn lemma_one_more(q: Seq<char>, s: Seq<char>)
    requires
        s.len() > 0,
        in_order(q, s.drop_last()),
    ensures
        in_order(q, s),
    decreases s.len(), 0int,
{
    if q.len() > 0 && q.last() == s.last() {
        lemma_drop_letter(q, s.drop_last());
    }
}

/// A run of letters found in a text can lose its last one.
proof fn lemma_drop_letter(q: Seq<char>, s: Seq<char>)
    requires
        q.len() > 0,
        in_order(q, s),
    ensures
        in_order(q.drop_last(), s),
    decreases s.len(), 2int,
{
    assert(q.drop_last().push(q.last()) =~= q);
    typing_only_narrows(q.drop_last(), q.last(), s);
}

/// What a picker shows is what its items leave that answer the query, in their order.
pub proof fn a_picker_shows_what_answers<T>(items: Seq<PickerItem<T>>, query: Seq<char>)
    ensures
        left(items, query) == items.filter(
            |i: PickerItem<T>| in_order(ascii_lower(query), ascii_lower(i.label@)),
        ),
    decreases items.len(),
{
    reveal(Seq::filter);
    if items.len() > 0 {
        a_picker_shows_what_answers(items.drop_last(), query);
    }
}

/// Letters are found in order exactly where they stand at rising places of the text.
pub proof fn in_order_is_at_rising_places(q: Seq<char>, s: Seq<char>, at: Seq<int>)
    requires
        at.len() == q.len(),
        forall|i: int| 0 <= i < at.len() ==> 0 <= #[trigger] at[i] < s.len() && s[at[i]] == q[i],
        forall|i: int, j: int| 0 <= i < j < at.len() ==> #[trigger] at[i] < #[trigger] at[j],
    ensures
        in_order(q, s),
    decreases s.len(),
{
    if q.len() > 0 {
        let k = at.last();
        assert(at[at.len() - 1] == k);
        let shorter = s.drop_last();
        if q.last() == s.last() {
            let head = at.drop_last();
            assert forall|i: int| 0 <= i < head.len() implies 0 <= #[trigger] head[i]
                < shorter.len() && shorter[head[i]] == q.drop_last()[i] by {
                assert(at[i] == head[i]);
                assert(at[i] < at[at.len() - 1]);
            }
            assert forall|i: int, j: int| 0 <= i < j < head.len() implies #[trigger] head[i]
                < #[trigger] head[j] by {
                assert(at[i] < at[j]);
            }
            in_order_is_at_rising_places(q.drop_last(), shorter, head);
        } else {
            assert forall|i: int| 0 <= i < at.len() implies 0 <= #[trigger] at[i] < shorter.len()
                && shorter[at[i]] == q[i] by {
                if at[i] == s.len() - 1 {
                    if i < at.len() - 1 {
                        assert(at[i] < at[at.len() - 1]);
                    }
                }
            }
            in_order_is_at_rising_places(q, shorter, at);
        }
    }
}

/// Letters that are found in order stand at rising places of the text.
pub proof fn in_order_has_rising_places(q: Seq<char>, s: Seq<char>) -> (at: Seq<int>)
    requires
        in_order(q, s),
    ensures
        at.len() == q.len(),
        forall|i: int| 0 <= i < at.len() ==> 0 <= #[trigger] at[i] < s.len() && s[at[i]] == q[i],
        forall|i: int, j: int| 0 <= i < j < at.len() ==> #[trigger] at[i] < #[trigger] at[j],
    decreases s.len(),
{
    if q.len() == 0 {
        Seq::empty()
    } else if q.last() == s.last() {
        let head = in_order_has_rising_places(q.drop_last(), s.drop_last());
        let at = head.push(s.len() - 1);
        assert forall|i: int| 0 <= i < at.len() implies 0 <= #[trigger] at[i] < s.len()
            && s[at[i]] == q[i] by {
            if i < head.len() {
                assert(at[i] == head[i]);
                assert(s.drop_last()[head[i]] == q.drop_last()[i]);
            }
        }
        assert forall|i: int, j: int| 0 <= i < j < at.len() implies #[trigger] at[i]
            < #[trigger] at[j] by {
            assert(at[i] == head[i]);
            if j < head.len() {
                assert(at[j] == head[j]);
            }
        }
        at
    } else {
        let at = in_order_has_rising_places(q, s.drop_last());
        assert forall|i: int| 0 <= i < at.len() implies 0 <= #[trigger] at[i] < s.len()
            && s[at[i]] == q[i] by {
            assert(s.drop_last()[at[i]] == q[i]);
        }
        at
    }
}

/// The item that a picker stands on is the one of that row of what it shows; a letter
/// goes back to the top row, and a step moves one row at a time and stops at the ends.
pub proof fn a_picker_stands_on_its_row<T>(
    pre: Picker<T>,
    key: KeyEvent,
    post: Picker<T>,
)
    requires
        pre.cursor < pre.shown().len() <= usize::MAX,
        Picker::keyed(pre, key, post),
    ensures
        pre.chosen() == Some(pre.shown()[pre.cursor as int]),
        key.code matches KeyCode::Char(c) && !key.modifiers.has_control() ==> post.cursor == 0
            && post.query@ == pre.query@.push(key.code->0),
        key.code == KeyCode::Down ==> post.query == pre.query && post.cursor == (if pre.cursor + 1
            < pre.shown().len() {
            pre.cursor + 1
        } else {
            pre.cursor as int
        }),
        key.code == KeyCode::Up ==> post.query == pre.query && post.cursor == (if pre.cursor > 0 {
            pre.cursor - 1
        } else {
            0
        }),
        key.code == KeyCode::Backspace && pre.query@.len() > 0 ==> post.query@
            == pre.query@.drop_last(),
        post.items == pre.items,
{
}

/// A letter goes behind those typed and a backspace takes the last one back; either puts
/// the cursor on the first row. The arrows step by a row, as `n` and `p` do with Control
/// held. No key changes the items.
pub proof fn the_pickers_keys<T>(pre: Picker<T>, key: KeyEvent, post: Picker<T>)
    requires
        Picker::keyed(pre, key, post),
    ensures
        post.items == pre.items,
        post.title == pre.title,
        key.code matches KeyCode::Char(c) && !key.modifiers.has_control() ==> post.query@.len()
            == pre.query@.len() + 1 && post.query@.last() == key.code->Char_0
            && post.query@.drop_last() == pre.query@ && post.cursor == 0,
        key.code is Backspace && pre.query@.len() > 0 ==> post.query@ == pre.query@.drop_last()
            && post.cursor == 0,
        key.code is Backspace && pre.query@.len() == 0 ==> post.query@ == pre.query@,
        key.code is Down || key.modifiers.has_control() && key.code == KeyCode::Char('n')
            ==> post.query == pre.query && (pre.cursor + 1 < pre.shown().len() ==> post.cursor
            == pre.cursor + 1) && (pre.cursor + 1 == pre.shown().len() ==> post.cursor
            == pre.cursor),
        key.code is Up || key.modifiers.has_control() && key.code == KeyCode::Char('p')
            ==> post.query == pre.query && (0 < pre.cursor < pre.shown().len() ==> post.cursor
            == pre.cursor - 1) && (pre.cursor == 0 ==> post.cursor == 0),
        key.code is Left || key.code is Right || key.code is Tab ==> post == pre,
{
    if let KeyCode::Char(c) = key.code {
        assert(pre.query@.push(c).drop_last() =~= pre.query@);
    }
    no_more_than_offered(pre);
}

/// A picker shows no more than it offers.
pub proof fn no_more_than_offered<T>(p: Picker<T>)
    ensures
        p.shown().len() <= p.items@.len() <= usize::MAX,
{
    assert(p.items.len() == p.items@.len());
    lemma_left_is_shorter(p.items@, p.query@);
}

proof fn lemma_left_is_shorter<T>(items: Seq<PickerItem<T>>, query: Seq<char>)
    ensures
        left(items, query).len() <= items.len(),
    decreases items.len(),
{
    if items.len() > 0 {
        lemma_left_is_shorter(items.drop_last(), query);
    }
}

/// A picker opens with nothing typed, on the first of everything it was given.
pub proof fn a_picker_opens_on_everything<T>(
    title: &'static str,
    items: Vec<PickerItem<T>>,
    p: Picker<T>,
)
    requires
        call_ensures(Picker::new, (title, items), p),
    ensures
        p.title == title,
        p.items@ == items@,
        p.query@.len() == 0,
        p.cursor == 0,
        p.shown() == items@,
        items@.len() > 0 ==> p.chosen() == Some(items@[0]),
{
    an_untouched_picker_shows_everything(items@);
}

} // verus!
