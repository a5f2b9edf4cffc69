//! Decoding captured bytes and splitting text.

use vstd::prelude::*;
use vstd::utf8::{decode_utf8, valid_utf8};

verus! {

/// What `String::from_utf8_lossy` makes of a byte sequence.
pub uninterp spec fn lossy_utf8(b: Seq<u8>) -> Seq<char>;

/// Relies on `String::from_utf8_lossy`: invalid sequences are replaced, never
/// fatal; valid UTF-8 comes back decoded unchanged.
#[verifier::external_body]
pub(crate) fn decode_lossy(b: &[u8]) -> (r: String)
    ensures
        r@ == lossy_utf8(b@),
        valid_utf8(b@) ==> r@ == decode_utf8(b@),
{
    String::from_utf8_lossy(b).into_owned()
}

/// Relies on `std::str::from_utf8`: it succeeds exactly on valid UTF-8, with
/// the decoded text.
#[verifier::external_body]
pub(crate) fn decode_strict(b: &[u8]) -> (r: Option<String>)
    ensures
        r is Some <==> valid_utf8(b@),
        r matches Some(s) ==> s@ == decode_utf8(b@),
{
    std::str::from_utf8(b).ok().map(|s| s.to_owned())
}

/// The characters of `s`, one by one.
pub fn chars_of(s: &str) -> (r: Vec<char>)
    ensures
        r@ == s@,
{
    let mut r: Vec<char> = Vec::new();
    for c in it: s.chars()
        invariant
            r@ == it.seq().take(it.index() as int),
    {
        r.push(c);
    }
    r
}

/// Relies on `String`'s `FromIterator<char>`: the string of exactly these characters.
#[verifier::external_body]
pub(crate) fn string_of(cs: &[char]) -> (r: String)
    ensures
        r@ == cs@,
{
    cs.iter().collect()
}

/// The character sequences held by a list of character vectors.
pub open spec fn views(v: Seq<Vec<char>>) -> Seq<Seq<char>> {
    v.map_values(|x: Vec<char>| x@)
}

/// Unicode's `White_Space` property, as `char::is_whitespace` tests it.
pub open spec fn is_unicode_whitespace(c: char) -> bool {
    let u = c as u32;
    (9 <= u <= 13) || u == 32 || u == 0x85 || u == 0xa0 || u == 0x1680 || (0x2000 <= u <= 0x200a)
        || u == 0x2028 || u == 0x2029 || u == 0x202f || u == 0x205f || u == 0x3000
}

fn is_whitespace(c: char) -> (r: bool)
    ensures
        r == is_unicode_whitespace(c),
{
    let u = c as u32;
    (9 <= u && u <= 13) || u == 32 || u == 0x85 || u == 0xa0 || u == 0x1680 || (0x2000 <= u && u
        <= 0x200a) || u == 0x2028 || u == 0x2029 || u == 0x202f || u == 0x205f || u == 0x3000
}

/// What separates the pieces of a split.
#[derive(Clone, Copy, PartialEq, Eq, Structural)]
pub enum Sep {
    Char(char),
    Whitespace,
}

impl Sep {
    pub open spec fn holds(self, c: char) -> bool {
        match self {
            Sep::Char(d) => c == d,
            Sep::Whitespace => is_unicode_whitespace(c),
        }
    }

    fn test(self, c: char) -> (r: bool)
        ensures
            r == self.holds(c),
    {
        match self {
            Sep::Char(d) => c == d,
            Sep::Whitespace => is_whitespace(c),
        }
    }
}

/// The pieces between separators, as `str::split` yields them: empty pieces
/// are kept, and there is always at least one.
pub open spec fn split_by(s: Seq<char>, sep: Sep) -> Seq<Seq<char>>
    decreases s.len(),
{
    if s.len() == 0 {
        seq![Seq::<char>::empty()]
    } else {
        let p = split_by(s.drop_last(), sep);
        if sep.holds(s.last()) {
            p.push(Seq::empty())
        } else {
            p.update(p.len() - 1, p.last().push(s.last()))
        }
    }
}

pub proof fn lemma_split_nonempty(s: Seq<char>, sep: Sep)
    ensures
        split_by(s, sep).len() >= 1,
    decreases s.len(),
{
    if s.len() > 0 {
        lemma_split_nonempty(s.drop_last(), sep);
    }
}

/// A line without the carriage return that ended it.
pub open spec fn strip_cr(l: Seq<char>) -> Seq<char> {
    if l.len() > 0 && l.last() == '\r' {
        l.drop_last()
    } else {
        l
    }
}

/// The lines of `s`, as `str::lines` yields them: split at `\n`, a `\r` just
/// before a `\n` removed, and no empty line after a final `\n`.
pub open spec fn lines_of(s: Seq<char>) -> Seq<Seq<char>> {
    let p = split_by(s, Sep::Char('\n'));
    let head = p.drop_last().map_values(|l: Seq<char>| strip_cr(l));
    if p.last().len() == 0 {
        head
    } else {
        head.push(p.last())
    }
}

/// The non-empty pieces of `p`, in order.
pub open spec fn drop_empty(p: Seq<Seq<char>>) -> Seq<Seq<char>>
    decreases p.len(),
{
    if p.len() == 0 {
        p
    } else if p.last().len() == 0 {
        drop_empty(p.drop_last())
    } else {
        drop_empty(p.drop_last()).push(p.last())
    }
}

/// The words of `s`, as `str::split_whitespace` yields them.
pub open spec fn words_of(s: Seq<char>) -> Seq<Seq<char>> {
    drop_empty(split_by(s, Sep::Whitespace))
}

/// The pieces of `p` with `sep` between each two.
pub open spec fn join_with(p: Seq<Seq<char>>, sep: Seq<char>) -> Seq<char>
    decreases p.len(),
{
    if p.len() == 0 {
        Seq::empty()
    } else if p.len() == 1 {
        p[0]
    } else {
        join_with(p.drop_last(), sep) + sep + p.last()
    }
}

/// The index of the first empty line of `p`, or `p.len()` if there is none.
pub open spec fn first_empty(p: Seq<Seq<char>>) -> int
    decreases p.len(),
{
    if p.len() == 0 {
        0
    } else {
        let k = first_empty(p.drop_last());
        if k < p.len() - 1 {
            k
        } else if p.last().len() == 0 {
            p.len() - 1
        } else {
            p.len() as int
        }
    }
}

pub open spec fn is_digit(c: char) -> bool {
    '0' <= c <= '9'
}

/// The value of a string of decimal digits.
pub open spec fn digits_value(d: Seq<char>) -> nat
    decreases d.len(),
{
    if d.len() == 0 {
        0
    } else {
        digits_value(d.drop_last()) * 10 + ((d.last() as u32) - ('0' as u32)) as nat
    }
}

/// The digits of an unsigned number: without a leading `+`.
pub open spec fn unsigned_digits(s: Seq<char>) -> Seq<char> {
    if s.len() > 0 && s[0] == '+' {
        s.drop_first()
    } else {
        s
    }
}

pub open spec fn all_digits(d: Seq<char>) -> bool {
    forall|i: int| 0 <= i < d.len() ==> is_digit(#[trigger] d[i])
}

/// What `str::parse::<u16>` accepts: an optional `+`, then one or more decimal
/// digits whose value fits in 16 bits.
pub open spec fn parse_u16(s: Seq<char>) -> Option<u16> {
    let d = unsigned_digits(s);
    if d.len() > 0 && all_digits(d) && digits_value(d) <= 65535 {
        Some(digits_value(d) as u16)
    } else {
        None
    }
}

/// Splits `s` at every separator.
pub fn split_chars(s: &Vec<char>, sep: Sep) -> (r: Vec<Vec<char>>)
    ensures
        views(r@) == split_by(s@, sep),
{
    let mut parts: Vec<Vec<char>> = Vec::new();
    let mut cur: Vec<char> = Vec::new();
    let mut i: usize = 0;
    while i < s.len()
        invariant
            i <= s@.len(),
            split_by(s@.take(i as int), sep) == views(parts@).push(cur@),
        decreases s@.len() - i,
    {
        let c = s[i];
        let ghost before = views(parts@).push(cur@);
        assert(s@.take(i + 1).drop_last() =~= s@.take(i as int));
        if sep.test(c) {
            parts.push(cur);
            cur = Vec::new();
            assert(views(parts@).push(cur@) =~= before.push(Seq::empty()));
        } else {
            cur.push(c);
            assert(views(parts@).push(cur@) =~= before.update(
                before.len() - 1,
                before.last().push(c),
            ));
        }
        i = i + 1;
    }
    assert(s@.take(s@.len() as int) =~= s@);
    parts.push(cur);
    assert(views(parts@) =~= split_by(s@, sep));
    parts
}

/// Removes one `\r` at the end of `l`, if there is one.
fn strip_cr_chars(l: &mut Vec<char>)
    ensures
        final(l)@ == strip_cr(old(l)@),
{
    let n = l.len();
    if n > 0 && l[n - 1] == '\r' {
        l.pop();
        assert(l@ =~= old(l)@.drop_last());
    }
}

/// The lines of `s`.
pub fn lines(s: &Vec<char>) -> (r: Vec<Vec<char>>)
    ensures
        views(r@) == lines_of(s@),
{
    let mut p = split_chars(s, Sep::Char('\n'));
    proof { lemma_split_nonempty(s@, Sep::Char('\n')); }
    let ghost pv = views(p@);
    let last = p.pop().unwrap();
    let k = p.len();
    let mut r: Vec<Vec<char>> = Vec::new();
    let mut i: usize = 0;
    assert(views(p@) =~= pv.drop_last());
    while i < k
        invariant
            i <= k == p@.len() == pv.len() - 1,
            views(p@) == pv.drop_last(),
            views(r@) =~= pv.drop_last().take(i as int).map_values(
                |l: Seq<char>| strip_cr(l),
            ),
        decreases k - i,
    {
        let mut l = p[i].clone();
        assert(l@ == pv[i as int]) by {
            assert(views(p@)[i as int] == p@[i as int]@);
        }
        strip_cr_chars(&mut l);
        let ghost before = views(r@);
        r.push(l);
        assert(views(r@) =~= before.push(strip_cr(pv[i as int])));
        assert(pv.drop_last().take(i + 1).map_values(|l: Seq<char>| strip_cr(l))
            =~= pv.drop_last().take(i as int).map_values(|l: Seq<char>| strip_cr(l)).push(
            strip_cr(pv[i as int]),
        ));
        i = i + 1;
    }
    assert(pv.drop_last().take(k as int) =~= pv.drop_last());
    if last.len() > 0 {
        r.push(last);
    }
    r
}

/// The non-empty pieces of `p`.
fn keep_nonempty(p: Vec<Vec<char>>) -> (r: Vec<Vec<char>>)
    ensures
        views(r@) == drop_empty(views(p@)),
{
    let ghost pv = views(p@);
    let mut r: Vec<Vec<char>> = Vec::new();
    let mut i: usize = 0;
    while i < p.len()
        invariant
            i <= p@.len() == pv.len(),
            pv == views(p@),
            views(r@) == drop_empty(pv.take(i as int)),
        decreases p@.len() - i,
    {
        assert(pv.take(i + 1).drop_last() =~= pv.take(i as int));
        assert(pv[i as int] == p@[i as int]@);
        if p[i].len() > 0 {
            let ghost before = views(r@);
            r.push(p[i].clone());
            assert(views(r@) =~= before.push(pv[i as int]));
        }
        i = i + 1;
    }
    assert(pv.take(p@.len() as int) =~= pv);
    r
}

/// The words of `s`.
pub fn words(s: &Vec<char>) -> (r: Vec<Vec<char>>)
    ensures
        views(r@) == words_of(s@),
{
    keep_nonempty(split_chars(s, Sep::Whitespace))
}

/// The pieces `p[from..]` joined with `sep`.
pub fn join_from(p: &Vec<Vec<char>>, from: usize, sep: &Vec<char>) -> (r: Vec<char>)
    requires
        from <= p@.len(),
    ensures
        r@ == join_with(views(p@).skip(from as int), sep@),
{
    let ghost pv = views(p@).skip(from as int);
    let mut r: Vec<char> = Vec::new();
    let mut i: usize = from;
    while i < p.len()
        invariant
            from <= i <= p@.len(),
            pv == views(p@).skip(from as int),
            r@ == join_with(pv.take(i - from), sep@),
        decreases p@.len() - i,
    {
        assert(pv.take(i + 1 - from).drop_last() =~= pv.take(i - from));
        assert(pv[i - from] == p@[i as int]@);
        if i > from {
            let mut k: usize = 0;
            let ghost r0 = r@;
            while k < sep.len()
                invariant
                    k <= sep@.len(),
                    r@ == r0 + sep@.take(k as int),
                decreases sep@.len() - k,
            {
                r.push(sep[k]);
                assert(sep@.take(k + 1) =~= sep@.take(k as int).push(sep@[k as int]));
                k = k + 1;
            }
            assert(sep@.take(sep@.len() as int) =~= sep@);
        }
        let ghost r1 = r@;
        let mut k: usize = 0;
        while k < p[i].len()
            invariant
                i < p@.len(),
                k <= p@[i as int]@.len(),
                r@ == r1 + p@[i as int]@.take(k as int),
            decreases p@[i as int]@.len() - k,
        {
            r.push(p[i][k]);
            assert(p@[i as int]@.take(k + 1) =~= p@[i as int]@.take(k as int).push(
                p@[i as int]@[k as int],
            ));
            k = k + 1;
        }
        assert(p@[i as int]@.take(p@[i as int]@.len() as int) =~= p@[i as int]@);
        if i == from {
            assert(r@ =~= pv[0]);
        }
        i = i + 1;
    }
    assert(pv.take(p@.len() - from) =~= pv);
    r
}

/// The index of the first empty line of `p`, or `p.len()` if there is none.
pub fn first_empty_line(p: &Vec<Vec<char>>) -> (r: usize)
    ensures
        r == first_empty(views(p@)),
{
    let ghost pv = views(p@);
    let mut i: usize = 0;
    while i < p.len()
        invariant
            i <= p@.len() == pv.len(),
            pv == views(p@),
            first_empty(pv.take(i as int)) == i,
        decreases p@.len() - i,
    {
        assert(pv.take(i + 1).drop_last() =~= pv.take(i as int));
        assert(pv[i as int] == p@[i as int]@);
        if p[i].len() == 0 {
            proof { lemma_first_empty_prefix(pv, i as int); }
            return i;
        }
        i = i + 1;
    }
    assert(pv.take(p@.len() as int) =~= pv);
    i
}

proof fn lemma_first_empty_prefix(p: Seq<Seq<char>>, i: int)
    requires
        0 <= i < p.len(),
        p[i].len() == 0,
        first_empty(p.take(i)) == i,
    ensures
        first_empty(p) == i,
    decreases p.len(),
{
    assert(p.take(i + 1).drop_last() =~= p.take(i));
    if p.len() > i + 1 {
        assert(p.drop_last().take(i) =~= p.take(i));
        lemma_first_empty_prefix(p.drop_last(), i);
    } else {
        assert(p.take(i + 1) =~= p);
    }
}

/// Parses a 16-bit unsigned decimal number as `str::parse::<u16>` does.
pub fn parse_u16_chars(s: &Vec<char>) -> (r: Option<u16>)
    ensures
        r == parse_u16(s@),
{
    let start: usize = if s.len() > 0 && s[0] == '+' {
        1
    } else {
        0
    };
    let ghost d = unsigned_digits(s@);
    assert(d =~= s@.skip(start as int));
    if start == s.len() {
        return None;
    }
    let mut acc: u32 = 0;
    let mut i: usize = start;
    while i < s.len()
        invariant
            start <= i <= s@.len(),
            d == s@.skip(start as int),
            d == unsigned_digits(s@),
            d.len() > 0,
            forall|j: int| 0 <= j < i - start ==> is_digit(#[trigger] d[j]),
            acc == digits_value(d.take(i - start)),
            acc <= 65535,
        decreases s@.len() - i,
    {
        let c = s[i];
        assert(d[i - start] == c);
        if !('0' <= c && c <= '9') {
            assert(!is_digit(d[i - start]));
            assert(!all_digits(d));
            return None;
        }
        assert(d.take(i + 1 - start).drop_last() =~= d.take(i - start));
        assert(d.take(i + 1 - start).last() == c);
        acc = acc * 10 + (c as u32 - '0' as u32);
        if acc > 65535 {
            proof { lemma_digits_grow(d, i + 1 - start); }
            return None;
        }
        i = i + 1;
    }
    assert(d.take(s@.len() - start) =~= d);
    Some(acc as u16)
}

proof fn lemma_digits_grow(d: Seq<char>, k: int)
    requires
        0 < k <= d.len(),
    ensures
        digits_value(d) >= digits_value(d.take(k)),
    decreases d.len(),
{
    if k < d.len() {
        assert(d.drop_last().take(k) =~= d.take(k));
        lemma_digits_grow(d.drop_last(), k);
    } else {
        assert(d.take(k) =~= d);
    }
}

} // verus!
