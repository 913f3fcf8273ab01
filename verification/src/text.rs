//! Text as sequences of characters: numbers in decimal, joining, trimming,
//! prefixes and the row-label fitter.

use vstd::prelude::*;
use vstd::string::*;

verus! {

// ---- std's string operations that the crate leans on ----

/// `String::push` appends one character.
pub assume_specification[ String::push ](s: &mut String, c: char)
    ensures
        final(s)@ == old(s)@.push(c),
;

/// `String::pop` removes the last character and hands it back; an empty string
/// stays as it is.
pub assume_specification[ String::pop ](s: &mut String) -> (c: Option<char>)
    ensures
        old(s)@.len() == 0 ==> c is None && final(s)@ == old(s)@,
        old(s)@.len() > 0 ==> c == Some(old(s)@.last()) && final(s)@ == old(s)@.drop_last(),
;

/// `String::clear` leaves the empty string.
pub assume_specification[ String::clear ](s: &mut String)
    ensures
        final(s)@ == Seq::<char>::empty(),
;

/// What `str::to_lowercase` makes of a text.
pub uninterp spec fn lowercase_of(s: Seq<char>) -> Seq<char>;

/// `str::to_lowercase`: a function of the text alone. What the Unicode tables
/// make of each letter is left to the name.
#[verifier::external_body]
pub(crate) fn lowercase(s: &str) -> (res: String)
    ensures
        res@ == lowercase_of(s@),
{
    s.to_lowercase()
}

/// What `char::to_uppercase` makes of a letter, read as a text.
pub uninterp spec fn uppercase_of(c: char) -> Seq<char>;

/// `char::to_uppercase`: a function of the character alone. What the Unicode
/// tables make of it is left to the name.
#[verifier::external_body]
pub(crate) fn uppercase(c: char) -> (res: String)
    ensures
        res@ == uppercase_of(c),
{
    c.to_uppercase().to_string()
}

// ---- building ----

/// An owned copy of a text.
pub fn own(s: &str) -> (res: String)
    ensures
        res@ == s@,
{
    String::from_str(s)
}

/// Two texts end to end.
pub fn cat2(a: &str, b: &str) -> (res: String)
    ensures
        res@ == a@ + b@,
{
    String::from_str(a).concat(b)
}

/// Three texts end to end.
pub fn cat3(a: &str, b: &str, c: &str) -> (res: String)
    ensures
        res@ == a@ + b@ + c@,
{
    String::from_str(a).concat(b).concat(c)
}

/// Four texts end to end.
pub fn cat4(a: &str, b: &str, c: &str, d: &str) -> (res: String)
    ensures
        res@ == a@ + b@ + c@ + d@,
{
    String::from_str(a).concat(b).concat(c).concat(d)
}

/// Five texts end to end.
pub fn cat5(a: &str, b: &str, c: &str, d: &str, e: &str) -> (res: String)
    ensures
        res@ == a@ + b@ + c@ + d@ + e@,
{
    String::from_str(a).concat(b).concat(c).concat(d).concat(e)
}

/// Six texts end to end.
pub fn cat6(a: &str, b: &str, c: &str, d: &str, e: &str, f: &str) -> (res: String)
    ensures
        res@ == a@ + b@ + c@ + d@ + e@ + f@,
{
    String::from_str(a).concat(b).concat(c).concat(d).concat(e).concat(f)
}

/// The characters of a text, in order.
pub fn chars_of(s: &str) -> (v: Vec<char>)
    ensures
        v@ == s@,
{
    broadcast use vstd::string::axiom_spec_iter;

    let mut v: Vec<char> = Vec::new();
    for c in it: s.chars()
        invariant
            v@ == s@.take(it.index() as int),
            it.seq() == s@,
    {
        v.push(c);
        assert(v@ =~= s@.take(it.index() as int + 1));
    }
    assert(s@.take(s@.len() as int) =~= s@);
    v
}

/// The text that a run of characters spells.
pub fn spell(v: &Vec<char>, from: usize, to: usize) -> (s: String)
    requires
        from <= to <= v@.len(),
    ensures
        s@ == v@.subrange(from as int, to as int),
{
    let mut s = String::new();
    let mut i: usize = from;
    while i < to
        invariant
            from <= i <= to <= v@.len(),
            s@ == v@.subrange(from as int, i as int),
        decreases to - i,
    {
        s.push(v[i]);
        assert(v@.subrange(from as int, i as int + 1) =~= v@.subrange(from as int, i as int).push(
            v@[i as int],
        ));
        i = i + 1;
    }
    s
}

// ---- numbers ----

/// The decimal digit `d`, for `d` under ten.
pub open spec fn digit(d: nat) -> char {
    ((48 + d) as u8) as char
}

/// A natural number in decimal, without leading zeros.
pub open spec fn decimal(n: nat) -> Seq<char>
    decreases n,
{
    if n < 10 {
        seq![digit(n)]
    } else {
        decimal(n / 10).push(digit(n % 10))
    }
}

/// An integer in decimal, with a minus sign in front of a negative one.
pub open spec fn signed_decimal(n: int) -> Seq<char> {
    if n < 0 {
        seq!['-'] + decimal((-n) as nat)
    } else {
        decimal(n as nat)
    }
}

/// `n` in decimal.
pub fn show(n: u64) -> (res: String)
    ensures
        res@ == decimal(n as nat),
    decreases n,
{
    let last: u8 = (n % 10) as u8;
    let c: char = (48u8 + last) as char;
    if n < 10 {
        let mut s = String::new();
        s.push(c);
        assert(s@ =~= decimal(n as nat));
        s
    } else {
        let mut s = show(n / 10);
        s.push(c);
        s
    }
}

/// `n` in decimal, signed.
pub fn show_signed(n: i64) -> (res: String)
    ensures
        res@ == signed_decimal(n as int),
{
    if n < 0 {
        let mut s = String::new();
        s.push('-');
        assert(s@ =~= seq!['-']);
        let magnitude: u64 = if n == i64::MIN {
            9223372036854775808u64
        } else {
            (-n) as u64
        };
        s.concat(show(magnitude).as_str())
    } else {
        show(n as u64)
    }
}

/// `n` as at least two digits, a zero in front of a single one.
pub open spec fn two_digits(n: nat) -> Seq<char> {
    if n < 10 {
        seq!['0'] + decimal(n)
    } else {
        decimal(n)
    }
}

/// `n` as at least two digits.
pub fn show_two(n: u64) -> (res: String)
    ensures
        res@ == two_digits(n as nat),
{
    if n < 10 {
        let mut s = String::new();
        s.push('0');
        assert(s@ =~= seq!['0']);
        s.concat(show(n).as_str())
    } else {
        show(n)
    }
}

/// The number that a run of digits spells.
pub open spec fn digits_value(s: Seq<char>) -> nat
    decreases s.len(),
{
    if s.len() == 0 {
        0
    } else {
        digits_value(s.drop_last()) * 10 + (s.last() as u32 - 48) as nat
    }
}

/// Whether a text is one or more digits.
pub open spec fn all_digits(s: Seq<char>) -> bool {
    s.len() > 0 && forall|i: int| 0 <= i < s.len() ==> '0' <= #[trigger] s[i] && s[i] <= '9'
}

/// The natural number that a text spells: digits, with at most a plus sign in
/// front, up to `u32::MAX`.
pub open spec fn number(s: Seq<char>) -> Option<u32> {
    let body = if s.len() > 0 && s[0] == '+' {
        s.drop_first()
    } else {
        s
    };
    if all_digits(body) && digits_value(body) <= u32::MAX {
        Some(digits_value(body) as u32)
    } else {
        None
    }
}

/// The natural number that a text spells.
pub fn parse_number(s: &str) -> (res: Option<u32>)
    ensures
        res == number(s@),
{
    let v = chars_of(s);
    let from: usize = if v.len() > 0 && v[0] == '+' {
        1
    } else {
        0
    };
    let ghost body = if s@.len() > 0 && s@[0] == '+' {
        s@.drop_first()
    } else {
        s@
    };
    assert(body =~= v@.subrange(from as int, v@.len() as int));
    if v.len() == from {
        return None;
    }
    let mut n: u64 = 0;
    let mut i: usize = from;
    let mut big = false;
    while i < v.len()
        invariant
            v@ == s@,
            from <= i <= v.len(),
            body == v@.subrange(from as int, v@.len() as int),
            body == (if s@.len() > 0 && s@[0] == '+' {
                s@.drop_first()
            } else {
                s@
            }),
            forall|j: int| 0 <= j < i - from ==> '0' <= #[trigger] body[j] && body[j] <= '9',
            n <= u32::MAX,
            big ==> digits_value(body.take(i - from)) > u32::MAX,
            !big ==> n == digits_value(body.take(i - from)),
        decreases v.len() - i,
    {
        let c: char = v[i];
        assert(body[i - from] == c);
        if !('0' <= c && c <= '9') {
            assert(!all_digits(body));
            return None;
        }
        assert(body.take(i - from + 1).drop_last() =~= body.take(i - from));
        let next: u64 = n * 10 + (c as u32 - 48) as u64;
        if next > u32::MAX as u64 {
            big = true;
        } else {
            n = next;
        }
        i = i + 1;
    }
    assert(body.take(body.len() as int) =~= body);
    assert(all_digits(body));
    if big {
        None
    } else {
        Some(n as u32)
    }
}

/// The plural ending that follows a count: none after exactly one.
pub open spec fn plural(n: int) -> Seq<char> {
    if n == 1 {
        Seq::empty()
    } else {
        seq!['s']
    }
}

/// The plural ending that follows a count.
pub fn plural_of(one: bool) -> (res: String)
    ensures
        res@ == (if one {
            Seq::<char>::empty()
        } else {
            seq!['s']
        }),
{
    let mut s = String::new();
    if !one {
        s.push('s');
        assert(s@ =~= seq!['s']);
    }
    s
}

// ---- joining ----

/// The texts with `sep` between neighbours.
pub open spec fn joined(parts: Seq<Seq<char>>, sep: Seq<char>) -> Seq<char>
    decreases parts.len(),
{
    if parts.len() == 0 {
        Seq::empty()
    } else if parts.len() == 1 {
        parts[0]
    } else {
        joined(parts.drop_last(), sep) + sep + parts.last()
    }
}

/// The views of a list of owned texts.
pub open spec fn texts(v: Seq<String>) -> Seq<Seq<char>> {
    v.map_values(|s: String| s@)
}

/// The views of a list of borrowed texts.
pub open spec fn words(v: Seq<&'static str>) -> Seq<Seq<char>> {
    v.map_values(|s: &'static str| s@)
}

/// Owned texts joined by `sep`.
pub fn join(parts: &Vec<String>, sep: &str) -> (res: String)
    ensures
        res@ == joined(texts(parts@), sep@),
{
    let mut out = String::new();
    let mut i: usize = 0;
    while i < parts.len()
        invariant
            i <= parts.len(),
            out@ == joined(texts(parts@).take(i as int), sep@),
        decreases parts.len() - i,
    {
        proof {
            let here = texts(parts@).take(i as int + 1);
            assert(here.drop_last() =~= texts(parts@).take(i as int));
            assert(here.last() == parts@[i as int]@);
            assert(Seq::<char>::empty() + parts@[i as int]@ =~= parts@[i as int]@);
        }
        if i > 0 {
            out.append(sep);
        }
        out.append(parts[i].as_str());
        i = i + 1;
    }
    assert(texts(parts@).take(parts@.len() as int) =~= texts(parts@));
    out
}

/// Borrowed texts joined by `sep`.
pub fn join_words(parts: &Vec<&'static str>, sep: &str) -> (res: String)
    ensures
        res@ == joined(words(parts@), sep@),
{
    let mut out = String::new();
    let mut i: usize = 0;
    while i < parts.len()
        invariant
            i <= parts.len(),
            out@ == joined(words(parts@).take(i as int), sep@),
        decreases parts.len() - i,
    {
        proof {
            let here = words(parts@).take(i as int + 1);
            assert(here.drop_last() =~= words(parts@).take(i as int));
            assert(here.last() == parts@[i as int]@);
            assert(Seq::<char>::empty() + parts@[i as int]@ =~= parts@[i as int]@);
        }
        if i > 0 {
            out.append(sep);
        }
        out.append(parts[i]);
        i = i + 1;
    }
    assert(words(parts@).take(parts@.len() as int) =~= words(parts@));
    out
}

// ---- comparing ----

/// Whether two texts hold the same characters.
pub fn same(a: &str, b: &str) -> (res: bool)
    ensures
        res == (a@ == b@),
{
    let x = chars_of(a);
    let y = chars_of(b);
    if x.len() != y.len() {
        return false;
    }
    let mut i: usize = 0;
    while i < x.len()
        invariant
            i <= x.len(),
            x@ == a@,
            y@ == b@,
            x@.len() == y@.len(),
            forall|j: int| 0 <= j < i ==> x@[j] == y@[j],
        decreases x.len() - i,
    {
        if x[i] != y[i] {
            return false;
        }
        i = i + 1;
    }
    assert(a@ =~= b@);
    true
}

/// Whether `s` begins with `head`.
pub fn starts_with(s: &str, head: &str) -> (res: bool)
    ensures
        res == head@.is_prefix_of(s@),
{
    let x = chars_of(s);
    let y = chars_of(head);
    if y.len() > x.len() {
        return false;
    }
    let mut i: usize = 0;
    while i < y.len()
        invariant
            i <= y.len() <= x.len(),
            x@ == s@,
            y@ == head@,
            forall|j: int| 0 <= j < i ==> x@[j] == y@[j],
        decreases y.len() - i,
    {
        if x[i] != y[i] {
            assert(s@.subrange(0, head@.len() as int)[i as int] != head@[i as int]);
            return false;
        }
        i = i + 1;
    }
    assert(head@ =~= s@.subrange(0, head@.len() as int));
    true
}

// ---- white space ----

/// Unicode's `White_Space` characters.
pub open spec fn is_white(c: char) -> bool {
    ||| 0x9 <= c as u32 <= 0xd
    ||| c as u32 == 0x20
    ||| c as u32 == 0x85
    ||| c as u32 == 0xa0
    ||| c as u32 == 0x1680
    ||| 0x2000 <= c as u32 <= 0x200a
    ||| c as u32 == 0x2028
    ||| c as u32 == 0x2029
    ||| c as u32 == 0x202f
    ||| c as u32 == 0x205f
    ||| c as u32 == 0x3000
}

/// Whether `c` is white space.
pub fn white(c: char) -> (res: bool)
    ensures
        res == is_white(c),
{
    let n: u32 = c as u32;
    (0x9 <= n && n <= 0xd) || n == 0x20 || n == 0x85 || n == 0xa0 || n == 0x1680 || (0x2000 <= n
        && n <= 0x200a) || n == 0x2028 || n == 0x2029 || n == 0x202f || n == 0x205f || n == 0x3000
}

/// The text without its leading white space.
pub open spec fn trimmed_start(s: Seq<char>) -> Seq<char>
    decreases s.len(),
{
    if s.len() > 0 && is_white(s[0]) {
        trimmed_start(s.drop_first())
    } else {
        s
    }
}

/// The text without its trailing white space.
pub open spec fn trimmed_end(s: Seq<char>) -> Seq<char>
    decreases s.len(),
{
    if s.len() > 0 && is_white(s.last()) {
        trimmed_end(s.drop_last())
    } else {
        s
    }
}

/// The text without the white space at either end.
pub open spec fn trimmed(s: Seq<char>) -> Seq<char> {
    trimmed_end(trimmed_start(s))
}

/// The text without its leading white space.
pub fn trim_start(s: &str) -> (res: String)
    ensures
        res@ == trimmed_start(s@),
{
    let v = chars_of(s);
    let mut i: usize = 0;
    assert(v@.skip(0) =~= v@);
    while i < v.len() && white(v[i])
        invariant
            i <= v.len(),
            v@ == s@,
            trimmed_start(v@.skip(i as int)) == trimmed_start(v@),
        decreases v.len() - i,
    {
        assert(v@.skip(i as int).drop_first() =~= v@.skip(i as int + 1));
        i = i + 1;
    }
    assert(v@.skip(i as int) =~= v@.subrange(i as int, v@.len() as int));
    spell(&v, i, v.len())
}

/// The text without the white space at either end.
pub fn trim(s: &str) -> (res: String)
    ensures
        res@ == trimmed(s@),
{
    let head = trim_start(s);
    let v = chars_of(head.as_str());
    let mut n: usize = v.len();
    assert(v@.take(n as int) =~= v@);
    while n > 0 && white(v[n - 1])
        invariant
            n <= v.len(),
            trimmed_end(v@.take(n as int)) == trimmed_end(v@),
        decreases n,
    {
        assert(v@.take(n as int).drop_last() =~= v@.take(n as int - 1));
        n = n - 1;
    }
    assert(v@.take(n as int) =~= v@.subrange(0, n as int));
    spell(&v, 0, n)
}

/// Whether nothing but white space is left of the text.
pub open spec fn blank(s: Seq<char>) -> bool {
    trimmed(s).len() == 0
}

/// The place of the first white space at or after `i`, or the text's length.
pub open spec fn gap_from(s: Seq<char>, i: int) -> int
    decreases s.len() - i,
{
    if 0 <= i < s.len() && !is_white(s[i]) {
        gap_from(s, i + 1)
    } else {
        i
    }
}

/// The place of the first white space, or the text's length.
pub open spec fn gap(s: Seq<char>) -> int {
    gap_from(s, 0)
}

/// Where the first white space stands: in the text or at its end.
pub proof fn lemma_gap_from(s: Seq<char>, i: int)
    requires
        0 <= i <= s.len(),
    ensures
        i <= gap_from(s, i) <= s.len(),
        gap_from(s, i) < s.len() ==> is_white(s[gap_from(s, i)]),
        forall|j: int| i <= j < gap_from(s, i) ==> !is_white(#[trigger] s[j]),
    decreases s.len() - i,
{
    if i < s.len() && !is_white(s[i]) {
        lemma_gap_from(s, i + 1);
    }
}

/// A text split at its first white space.
pub struct Halves {
    pub head: String,
    pub tail: String,
}

/// What stands before and after the first white space, where there is one.
pub fn split_once(s: &str) -> (res: Option<Halves>)
    ensures
        res is None <==> gap(s@) == s@.len(),
        res matches Some(h) ==> h.head@ == s@.take(gap(s@)) && h.tail@ == s@.skip(gap(s@) + 1),
{
    let v = chars_of(s);
    let mut i: usize = 0;
    while i < v.len() && !white(v[i])
        invariant
            i <= v.len(),
            v@ == s@,
            gap_from(s@, i as int) == gap(s@),
        decreases v.len() - i,
    {
        i = i + 1;
    }
    if i == v.len() {
        return None;
    }
    assert(gap(s@) == i as int);
    assert(v@.take(i as int) =~= v@.subrange(0, i as int));
    assert(v@.skip(i as int + 1) =~= v@.subrange(i as int + 1, v@.len() as int));
    Some(Halves { head: spell(&v, 0, i), tail: spell(&v, i + 1, v.len()) })
}

// ---- pieces ----

/// The pieces of a text between the occurrences of `c`, at least one.
pub open spec fn pieces(s: Seq<char>, c: char) -> Seq<Seq<char>>
    decreases s.len(),
{
    if s.len() == 0 {
        seq![Seq::empty()]
    } else {
        let before = pieces(s.drop_last(), c);
        if s.last() == c {
            before.push(Seq::empty())
        } else {
            before.drop_last().push(before.last().push(s.last()))
        }
    }
}

/// A text has at least one piece.
pub proof fn lemma_pieces(s: Seq<char>, c: char)
    ensures
        pieces(s, c).len() > 0,
    decreases s.len(),
{
    if s.len() > 0 {
        lemma_pieces(s.drop_last(), c);
    }
}

/// The pieces of a text between the occurrences of `c`.
pub fn split(s: &str, c: char) -> (res: Vec<String>)
    ensures
        texts(res@) == pieces(s@, c),
{
    let v = chars_of(s);
    let mut done: Vec<String> = Vec::new();
    let mut cur = String::new();
    let mut i: usize = 0;
    assert(texts(done@).push(cur@) =~= seq![Seq::<char>::empty()]);
    while i < v.len()
        invariant
            i <= v.len(),
            v@ == s@,
            texts(done@).push(cur@) == pieces(s@.take(i as int), c),
        decreases v.len() - i,
    {
        proof {
            let here = s@.take(i as int + 1);
            assert(here.drop_last() =~= s@.take(i as int));
            assert(here.last() == v@[i as int]);
            let before = texts(done@).push(cur@);
            assert(before.drop_last() =~= texts(done@));
            assert(before.last() == cur@);
        }
        let ghost had = done@;
        if v[i] == c {
            done.push(cur);
            assert(texts(done@) =~= texts(had).push(cur@));
            cur = String::new();
        } else {
            cur.push(v[i]);
        }
        i = i + 1;
    }
    assert(s@.take(s@.len() as int) =~= s@);
    let ghost had = done@;
    done.push(cur);
    assert(texts(done@) =~= texts(had).push(cur@));
    done
}

/// A list of an optional text behind a label: one entry, or none.
pub open spec fn tag(label: Seq<char>, o: Option<String>) -> Seq<Seq<char>> {
    match o {
        Some(s) => seq![label + s@],
        None => Seq::empty(),
    }
}

/// The list with a labelled text behind it, where there is one.
pub fn push_tag(v: &mut Vec<String>, label: &str, o: &Option<String>)
    ensures
        texts(final(v)@) == texts(old(v)@) + tag(label@, *o),
{
    if let Some(s) = o {
        v.push(cat2(label, s.as_str()));
    }
    assert(texts(v@) =~= texts(old(v)@) + tag(label@, *o));
}

/// The list with one more text behind it.
pub fn push_text(v: &mut Vec<String>, s: String)
    ensures
        texts(final(v)@) == texts(old(v)@).push(s@),
{
    v.push(s);
    assert(texts(v@) =~= texts(old(v)@).push(s@));
}

/// A list without texts.
pub fn no_texts() -> (res: Vec<String>)
    ensures
        texts(res@) == Seq::<Seq<char>>::empty(),
{
    let v: Vec<String> = Vec::new();
    assert(texts(v@) =~= Seq::empty());
    v
}

/// The text of an optional string, empty where there is none.
pub open spec fn or_empty(o: Option<String>) -> Seq<char> {
    match o {
        Some(s) => s@,
        None => Seq::empty(),
    }
}

/// The text of an optional string, empty where there is none.
pub fn text_or_empty(o: &Option<String>) -> (res: String)
    ensures
        res@ == or_empty(*o),
{
    match o {
        Some(s) => s.clone(),
        None => String::new(),
    }
}

// ---- searching ----

/// An ASCII capital as its small letter; any other character as it is.
pub open spec fn lower_char(c: char) -> char {
    if 'A' <= c && c <= 'Z' {
        ((c as u8 + 32) as u8) as char
    } else {
        c
    }
}

/// The text with its ASCII capitals as small letters.
pub open spec fn ascii_lower(s: Seq<char>) -> Seq<char> {
    s.map_values(|c: char| lower_char(c))
}

fn lower_of(c: char) -> (res: char)
    ensures
        res == lower_char(c),
{
    if 'A' <= c && c <= 'Z' {
        (c as u8 + 32) as char
    } else {
        c
    }
}

/// The text with its ASCII capitals as small letters.
pub fn lower(s: &str) -> (res: Vec<char>)
    ensures
        res@ == ascii_lower(s@),
{
    let v = chars_of(s);
    let mut out: Vec<char> = Vec::new();
    let mut i: usize = 0;
    while i < v.len()
        invariant
            i <= v.len(),
            v@ == s@,
            out@ =~= ascii_lower(s@).take(i as int),
        decreases v.len() - i,
    {
        out.push(lower_of(v[i]));
        i = i + 1;
    }
    out
}

/// Whether `needle` stands in `hay` at place `i`.
pub open spec fn stands_at(hay: Seq<char>, needle: Seq<char>, i: int) -> bool {
    0 <= i && i + needle.len() <= hay.len() && hay.subrange(i, i + needle.len()) == needle
}

/// Whether `needle` stands somewhere in `hay`.
pub open spec fn holds(hay: Seq<char>, needle: Seq<char>) -> bool {
    exists|i: int| stands_at(hay, needle, i)
}

/// Whether `needle` stands in `hay` at a place.
pub(crate) fn stands(hay: &Vec<char>, needle: &Vec<char>, at: usize) -> (res: bool)
    requires
        at + needle@.len() <= hay@.len(),
    ensures
        res == stands_at(hay@, needle@, at as int),
{
    let n: usize = hay.len();
    let mut i: usize = 0;
    while i < needle.len()
        invariant
            i <= needle.len(),
            n == hay@.len(),
            at + needle@.len() <= n,
            forall|j: int| 0 <= j < i ==> hay@[at + j] == needle@[j],
        decreases needle.len() - i,
    {
        if hay[at + i] != needle[i] {
            assert(hay@.subrange(at as int, at + needle@.len())[i as int] != needle@[i as int]);
            return false;
        }
        i = i + 1;
    }
    assert(hay@.subrange(at as int, at + needle@.len()) =~= needle@);
    true
}

/// Whether `needle` stands somewhere in `hay`.
pub fn contains(hay: &Vec<char>, needle: &Vec<char>) -> (res: bool)
    ensures
        res == holds(hay@, needle@),
{
    if needle.len() > hay.len() {
        return false;
    }
    let last: usize = hay.len() - needle.len();
    let mut i: usize = 0;
    while i <= last
        invariant
            last + needle@.len() == hay@.len(),
            i <= last + 1,
            forall|j: int| 0 <= j < i ==> !stands_at(hay@, needle@, j),
        decreases last + 1 - i,
    {
        if stands(hay, needle, i) {
            return true;
        }
        if i == last {
            return false;
        }
        i = i + 1;
    }
    false
}

/// Where the needle stands last, at or before `i`; -1 where it does not.
pub open spec fn last_stand(hay: Seq<char>, needle: Seq<char>, i: int) -> int
    decreases i + 1,
{
    if i < 0 {
        -1
    } else if stands_at(hay, needle, i) {
        i
    } else {
        last_stand(hay, needle, i - 1)
    }
}

/// What follows the last separator; all of the text where there is none.
pub open spec fn after_last(s: Seq<char>, sep: Seq<char>) -> Seq<char> {
    let i = last_stand(s, sep, s.len() as int);
    if i < 0 {
        s
    } else {
        s.skip(i + sep.len())
    }
}

/// What follows the last separator.
pub fn last_part(s: &str, sep: &str) -> (res: String)
    ensures
        res@ == after_last(s@, sep@),
{
    let hay = chars_of(s);
    let needle = chars_of(sep);
    let mut i: usize = hay.len();
    loop
        invariant
            i <= hay.len(),
            hay@ == s@,
            needle@ == sep@,
            last_stand(s@, sep@, s@.len() as int) == last_stand(s@, sep@, i as int),
        decreases i,
    {
        if needle.len() <= hay.len() - i && stands(&hay, &needle, i) {
            let from: usize = i + needle.len();
            let n: usize = hay.len();
            assert(s@.skip(from as int) =~= hay@.subrange(from as int, n as int));
            return spell(&hay, from, n);
        }
        if i == 0 {
            assert(last_stand(s@, sep@, -1) == -1);
            return own(s);
        }
        i = i - 1;
    }
}

// ---- fitting a label ----

/// `n` spaces.
pub open spec fn spaces(n: nat) -> Seq<char> {
    Seq::new(n, |i: int| ' ')
}

/// The text padded with spaces on the right to `width`, and left alone where it
/// is wider.
pub open spec fn padded(s: Seq<char>, width: nat) -> Seq<char> {
    if s.len() < width {
        s + spaces((width - s.len()) as nat)
    } else {
        s
    }
}

/// The text at exactly `width` columns: padded, or cut with an ellipsis.
pub open spec fn fitted(s: Seq<char>, width: nat) -> Seq<char> {
    if s.len() > width {
        s.take(if width == 0 {
            0
        } else {
            width - 1
        }).push('…')
    } else {
        padded(s, width)
    }
}

/// `s` padded on the right to `width`.
pub fn pad(s: &str, width: usize) -> (res: String)
    ensures
        res@ == padded(s@, width as nat),
{
    let mut n: usize = s.unicode_len();
    let mut out = own(s);
    let ghost start = n as int;
    while n < width
        invariant
            start == s@.len(),
            start <= n,
            n <= width || n == start,
            out@ == s@ + spaces((n - start) as nat),
        decreases width - n,
    {
        out.push(' ');
        n = n + 1;
        assert(out@ =~= s@ + spaces((n - start) as nat));
    }
    assert(s@ + spaces(0) =~= s@);
    out
}

/// The text padded with spaces on the left to `width`, and left alone where it
/// is wider.
pub open spec fn aligned(s: Seq<char>, width: nat) -> Seq<char> {
    if s.len() < width {
        spaces((width - s.len()) as nat) + s
    } else {
        s
    }
}

/// `s` padded on the left to `width`.
pub fn align(s: &str, width: usize) -> (res: String)
    ensures
        res@ == aligned(s@, width as nat),
{
    let n: usize = s.unicode_len();
    let gap: usize = if n < width {
        width - n
    } else {
        0
    };
    let blanks = pad("", gap);
    proof {
        reveal_strlit("");
        assert(blanks@ =~= spaces(gap as nat));
    }
    let res = cat2(blanks.as_str(), s);
    assert(res@ =~= aligned(s@, width as nat));
    res
}

/// Left-align `s` into `width` columns, cutting it with an ellipsis when it
/// overruns.
pub fn pad_or_truncate(s: &str, width: usize) -> (res: String)
    ensures
        res@ == fitted(s@, width as nat),
{
    let n: usize = s.unicode_len();
    if n > width {
        let v = chars_of(s);
        let keep: usize = if width == 0 {
            0
        } else {
            width - 1
        };
        assert(s@.take(keep as int) =~= v@.subrange(0, keep as int));
        let mut out = spell(&v, 0, keep);
        out.push('…');
        out
    } else {
        pad(s, width)
    }
}

/// A fitted label is exactly as wide as asked, unless that is no column at all.
pub proof fn fitted_width(s: Seq<char>, width: nat)
    requires
        width > 0,
    ensures
        fitted(s, width).len() == width,
{
}

/// What was shown in decimal reads back as the number it was.
pub proof fn a_number_reads_back(n: nat)
    ensures
        all_digits(decimal(n)),
        digits_value(decimal(n)) == n,
        n <= u32::MAX ==> number(decimal(n)) == Some(n as u32),
        n > u32::MAX ==> number(decimal(n)) is None,
    decreases n,
{
    if n >= 10 {
        a_number_reads_back(n / 10);
        let head = decimal(n / 10);
        let all = decimal(n);
        assert(all.drop_last() =~= head);
        assert forall|i: int| 0 <= i < all.len() implies '0' <= #[trigger] all[i] && all[i]
            <= '9' by {
            if i < head.len() {
                assert(all[i] == head[i]);
            }
        }
    } else {
        assert(decimal(n).drop_last() =~= Seq::empty());
        assert(digits_value(decimal(n).drop_last()) == 0);
    }
    assert('0' <= decimal(n)[0]);
}

/// A sign, a letter or nothing at all spells no number.
pub proof fn only_digits_spell_a_number(s: Seq<char>, i: int)
    requires
        number(s) is Some,
        0 <= i < s.len(),
    ensures
        s.len() > 0,
        '0' <= s[i] <= '9' || (i == 0 && s[0] == '+' && s.len() > 1),
{
    if s[0] == '+' {
        if i > 0 {
            assert(s.drop_first()[i - 1] == s[i]);
        }
    }
}

proof fn lemma_trimmed_start(s: Seq<char>)
    ensures
        exists|n: int| 0 <= n <= s.len() && trimmed_start(s) == #[trigger] s.skip(n) && forall|i: int|
            0 <= i < n ==> is_white(#[trigger] s[i]),
        trimmed_start(s).len() > 0 ==> !is_white(trimmed_start(s)[0]),
    decreases s.len(),
{
    if s.len() > 0 && is_white(s[0]) {
        let rest = s.drop_first();
        lemma_trimmed_start(rest);
        let m = choose|m: int| 0 <= m <= rest.len() && trimmed_start(rest) == #[trigger] rest.skip(m)
            && forall|i: int| 0 <= i < m ==> is_white(#[trigger] rest[i]);
        assert(rest.skip(m) =~= s.skip(m + 1));
        assert forall|i: int| 0 <= i < m + 1 implies is_white(#[trigger] s[i]) by {
            if i > 0 {
                assert(rest[i - 1] == s[i]);
            }
        }
    } else {
        assert(s.skip(0) =~= s);
    }
}

proof fn lemma_trimmed_end(s: Seq<char>)
    ensures
        exists|n: int| 0 <= n <= s.len() && trimmed_end(s) == #[trigger] s.take(n) && forall|i: int|
            n <= i < s.len() ==> is_white(#[trigger] s[i]),
        trimmed_end(s).len() > 0 ==> !is_white(trimmed_end(s).last()),
    decreases s.len(),
{
    if s.len() > 0 && is_white(s.last()) {
        let rest = s.drop_last();
        lemma_trimmed_end(rest);
        let m = choose|m: int| 0 <= m <= rest.len() && trimmed_end(rest) == #[trigger] rest.take(m)
            && forall|i: int| m <= i < rest.len() ==> is_white(#[trigger] rest[i]);
        assert(rest.take(m) =~= s.take(m));
        assert forall|i: int| m <= i < s.len() implies is_white(#[trigger] s[i]) by {
            if i < rest.len() {
                assert(rest[i] == s[i]);
            }
        }
    } else {
        assert(s.take(s.len() as int) =~= s);
    }
}

/// Trimming takes white space off both ends and nothing else: what is left is a run
/// of the text, with white space alone on either side and none at its own ends.
pub proof fn trimming_takes_white_ends(s: Seq<char>) -> (cut: (int, int))
    ensures
        0 <= cut.0 <= cut.1 <= s.len(),
        trimmed(s) == s.subrange(cut.0, cut.1),
        forall|i: int| 0 <= i < cut.0 ==> is_white(#[trigger] s[i]),
        forall|i: int| cut.1 <= i < s.len() ==> is_white(#[trigger] s[i]),
        cut.0 < cut.1 ==> !is_white(s[cut.0]) && !is_white(s[cut.1 - 1]),
{
    lemma_trimmed_start(s);
    let n = choose|n: int| 0 <= n <= s.len() && trimmed_start(s) == #[trigger] s.skip(n) && forall|
        i: int,
    |
        0 <= i < n ==> is_white(#[trigger] s[i]);
    let rest = s.skip(n);
    lemma_trimmed_end(rest);
    let m = choose|m: int| 0 <= m <= rest.len() && trimmed_end(rest) == #[trigger] rest.take(m)
        && forall|i: int| m <= i < rest.len() ==> is_white(#[trigger] rest[i]);
    assert(rest.take(m) =~= s.subrange(n, n + m));
    assert forall|i: int| n + m <= i < s.len() implies is_white(#[trigger] s[i]) by {
        assert(rest[i - n] == s[i]);
    }
    if m > 0 {
        assert(trimmed(s)[0] == rest[0]);
        assert(rest[0] == s[n]);
        assert(trimmed(s).last() == s[n + m - 1]);
    }
    (n, n + m)
}

/// A text is blank exactly where it is white space throughout.
pub proof fn blank_is_white_throughout(s: Seq<char>)
    ensures
        blank(s) <==> forall|i: int| 0 <= i < s.len() ==> is_white(#[trigger] s[i]),
{
    let cut = trimming_takes_white_ends(s);
    if !blank(s) {
        assert(!is_white(s[cut.0]));
    }
}

/// No piece of a text holds what it was split at.
pub proof fn no_piece_holds_the_break(s: Seq<char>, c: char)
    ensures
        forall|i: int, j: int|
            0 <= i < pieces(s, c).len() && 0 <= j < pieces(s, c)[i].len() ==> #[trigger] pieces(
                s,
                c,
            )[i][j] != c,
    decreases s.len(),
{
    lemma_pieces(s, c);
    if s.len() > 0 {
        let init = s.drop_last();
        no_piece_holds_the_break(init, c);
        lemma_pieces(init, c);
        let before = pieces(init, c);
        let all = pieces(s, c);
        assert forall|i: int, j: int| 0 <= i < all.len() && 0 <= j < all[i].len() implies #[trigger]
        all[i][j] != c by {
            if s.last() == c {
                if i < before.len() {
                    assert(all[i] == before[i]);
                    assert(before[i][j] != c);
                }
            } else if i < all.len() - 1 {
                assert(all[i] == before[i]);
                assert(before[i][j] != c);
            } else if j < before.last().len() {
                assert(all[i][j] == before.last()[j]);
                assert(before[before.len() - 1][j] != c);
            }
        }
    }
}

/// A text holds another exactly where it is that one with something before and behind
/// it.
pub proof fn holding_is_standing_within(hay: Seq<char>, needle: Seq<char>)
    ensures
        holds(hay, needle) <==> exists|a: Seq<char>, b: Seq<char>| hay == #[trigger] (a + needle + b),
{
    if holds(hay, needle) {
        let i = choose|i: int| stands_at(hay, needle, i);
        let a = hay.take(i);
        let b = hay.skip(i + needle.len());
        assert(hay =~= a + needle + b);
    }
    if exists|a: Seq<char>, b: Seq<char>| hay == #[trigger] (a + needle + b) {
        let (a, b) = choose|a: Seq<char>, b: Seq<char>| hay == #[trigger] (a + needle + b);
        assert(hay.subrange(a.len() as int, (a.len() + needle.len()) as int) =~= needle);
        assert(stands_at(hay, needle, a.len() as int));
    }
}

/// Lowering touches the ASCII capitals alone, each to its own small letter.
pub proof fn lowering_touches_capitals_alone(s: Seq<char>, i: int)
    requires
        0 <= i < s.len(),
    ensures
        ascii_lower(s).len() == s.len(),
        'A' <= s[i] <= 'Z' ==> ascii_lower(s)[i] as u32 == s[i] as u32 + 32,
        !('A' <= s[i] <= 'Z') ==> ascii_lower(s)[i] == s[i],
        ascii_lower(ascii_lower(s)) == ascii_lower(s),
{
    assert(ascii_lower(ascii_lower(s)) =~= ascii_lower(s));
}

/// Joining puts the texts behind each other with the separator between them.
pub proof fn joining_adds_one_more(parts: Seq<Seq<char>>, last: Seq<char>, sep: Seq<char>)
    ensures
        joined(Seq::<Seq<char>>::empty(), sep) == Seq::<char>::empty(),
        joined(seq![last], sep) == last,
        parts.len() > 0 ==> joined(parts.push(last), sep) == joined(parts, sep) + sep + last,
{
    assert(parts.push(last).drop_last() =~= parts);
    assert(seq![last].drop_last() =~= Seq::<Seq<char>>::empty());
    assert(joined(seq![last], sep) =~= last);
    assert(joined(Seq::<Seq<char>>::empty(), sep) =~= Seq::<char>::empty());
}

proof fn lemma_last_stand(s: Seq<char>, sep: Seq<char>, at: int, end: int)
    requires
        0 <= at <= end,
        stands_at(s, sep, at),
        forall|i: int| at < i <= end ==> !stands_at(s, sep, i),
    ensures
        last_stand(s, sep, end) == at,
    decreases end,
{
    if end > at {
        assert(!stands_at(s, sep, end));
        lemma_last_stand(s, sep, at, end - 1);
    }
}

/// What follows the last separator is what was put behind it, where that brings no other
/// one.
pub proof fn the_last_part_is_what_was_put_last(head: Seq<char>, sep: Seq<char>, tail: Seq<char>)
    requires
        sep.len() > 0,
        !holds((sep + tail).skip(1), sep),
    ensures
        after_last(head + sep + tail, sep) == tail,
{
    let s = head + sep + tail;
    let at = head.len() as int;
    assert(s.subrange(at, (at + sep.len()) as int) =~= sep);
    assert(stands_at(s, sep, at));
    let rest = (sep + tail).skip(1);
    assert(rest =~= s.skip(at + 1));
    assert forall|i: int| at < i <= s.len() implies !stands_at(s, sep, i) by {
        if stands_at(s, sep, i) {
            assert(rest.subrange(i - at - 1, (i - at - 1 + sep.len()) as int) =~= s.subrange(
                i,
                (i + sep.len()) as int,
            ));
            assert(stands_at(rest, sep, i - at - 1));
        }
    }
    lemma_last_stand(s, sep, at, s.len() as int);
    assert(s.skip((at + sep.len()) as int) =~= tail);
}

/// Padding keeps the text and adds blanks behind it, aligning adds them before it, and
/// neither cuts; fitting cuts a text that is too wide to its beginning.
pub proof fn what_padding_keeps(s: Seq<char>, width: nat, i: int)
    ensures
        padded(s, width).len() == (if s.len() < width {
            width
        } else {
            s.len()
        }),
        padded(s, width).take(s.len() as int) == s,
        s.len() <= i < padded(s, width).len() ==> padded(s, width)[i] == ' ',
        aligned(s, width).len() == padded(s, width).len(),
        aligned(s, width).skip(aligned(s, width).len() - s.len()) == s,
        s.len() <= width ==> fitted(s, width) == padded(s, width),
        s.len() > width && width > 0 ==> fitted(s, width).take(width - 1) == s.take(width - 1)
            && fitted(s, width).last() == '…',
{
    assert(padded(s, width).take(s.len() as int) =~= s);
    assert(aligned(s, width).skip(aligned(s, width).len() - s.len()) =~= s);
    if s.len() > width && width > 0 {
        assert(fitted(s, width).take(width - 1) =~= s.take(width - 1));
    }
}

} // verus!
