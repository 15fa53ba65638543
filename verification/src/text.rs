//! Reading words and whole numbers out of text.

use vstd::prelude::*;
use vstd::string::{StrSliceExecFns, StringExecFns};

verus! {

/// Whether a character is white space: the characters that separate words.
pub open spec fn is_space(c: char) -> bool {
    let n = c as u32;
    ||| n == 0x20
    ||| 0x09 <= n <= 0x0d
    ||| n == 0x85
    ||| n == 0xa0
    ||| n == 0x1680
    ||| 0x2000 <= n <= 0x200a
    ||| n == 0x2028
    ||| n == 0x2029
    ||| n == 0x202f
    ||| n == 0x205f
    ||| n == 0x3000
}

/// The first position at or after `from` whose character is not white space
/// (`over_spaces` true) or is white space (`over_spaces` false); the length
/// of the text if there is none.
pub open spec fn scan(s: Seq<char>, from: int, over_spaces: bool) -> int
    decreases s.len() - from,
{
    if from < 0 || from >= s.len() {
        s.len() as int
    } else if is_space(s[from]) == over_spaces {
        scan(s, from + 1, over_spaces)
    } else {
        from
    }
}

/// The first position at or after `from` that holds `mark`; the length of
/// the text if there is none.
pub open spec fn next_mark(s: Seq<char>, from: int, mark: char) -> int
    decreases s.len() - from,
{
    if from < 0 || from >= s.len() {
        s.len() as int
    } else if s[from] == mark {
        from
    } else {
        next_mark(s, from + 1, mark)
    }
}

/// Where no position from `from` up to `to` holds the mark, looking for the
/// mark from `from` is looking for it from `to`.
pub proof fn lemma_next_mark_skips(s: Seq<char>, from: int, to: int, mark: char)
    requires
        0 <= from <= to <= s.len(),
        forall|k: int| from <= k < to ==> s[k] != mark,
    ensures
        next_mark(s, from, mark) == next_mark(s, to, mark),
    decreases to - from,
{
    if from < to {
        lemma_next_mark_skips(s, from + 1, to, mark);
    }
}

/// The value of a decimal digit.
pub open spec fn digit_value(c: char) -> Option<int> {
    if '0' <= c <= '9' {
        Some(c as u32 - '0' as u32)
    } else {
        None
    }
}

/// The number that a run of decimal digits writes; nothing if a character is
/// no digit. The empty run writes zero.
pub open spec fn digits_value(s: Seq<char>) -> Option<int>
    decreases s.len(),
{
    if s.len() == 0 {
        Some(0)
    } else {
        match (digits_value(s.drop_last()), digit_value(s.last())) {
            (Some(high), Some(low)) => Some(high * 10 + low),
            _ => None,
        }
    }
}

/// The whole number that a text writes: an optional sign, then one or more
/// decimal digits, and nothing else.
pub open spec fn number_value(s: Seq<char>) -> Option<int> {
    if s.len() == 0 {
        None
    } else if s[0] == '-' {
        if s.len() == 1 {
            None
        } else {
            match digits_value(s.skip(1)) {
                Some(v) => Some(-v),
                None => None,
            }
        }
    } else if s[0] == '+' {
        if s.len() == 1 {
            None
        } else {
            digits_value(s.skip(1))
        }
    } else {
        digits_value(s)
    }
}

/// The number that a text writes, if it is one that an `i32` holds.
pub open spec fn i32_value(s: Seq<char>) -> Option<i32> {
    match number_value(s) {
        Some(v) => if i32::MIN <= v <= i32::MAX {
            Some(v as i32)
        } else {
            None
        },
        None => None,
    }
}

/// The character that writes a digit.
pub open spec fn digit_char(d: int) -> char {
    if d == 0 {
        '0'
    } else if d == 1 {
        '1'
    } else if d == 2 {
        '2'
    } else if d == 3 {
        '3'
    } else if d == 4 {
        '4'
    } else if d == 5 {
        '5'
    } else if d == 6 {
        '6'
    } else if d == 7 {
        '7'
    } else if d == 8 {
        '8'
    } else {
        '9'
    }
}

/// The decimal digits of a number that is not negative, without leading
/// zeros.
pub open spec fn digits_of(n: int) -> Seq<char>
    decreases n,
{
    if n < 10 {
        seq![digit_char(n)]
    } else {
        digits_of(n / 10).push(digit_char(n % 10))
    }
}

/// A whole number written in decimal, with a minus sign if it is negative.
pub open spec fn number_text(v: int) -> Seq<char> {
    if v < 0 {
        seq!['-'] + digits_of(-v)
    } else {
        digits_of(v)
    }
}

/// The digits of a number are digits, at least one, and they write the
/// number.
pub proof fn lemma_digits_of(n: int)
    requires
        0 <= n,
    ensures
        digits_of(n).len() >= 1,
        forall|k: int| 0 <= k < digits_of(n).len() ==> '0' <= #[trigger] digits_of(n)[k] <= '9',
        digits_value(digits_of(n)) == Some(n),
    decreases n,
{
    if n < 10 {
        assert(digits_of(n).drop_last() =~= Seq::<char>::empty());
        assert(digits_value(digits_of(n).drop_last()) == Some(0int));
    } else {
        lemma_digits_of(n / 10);
        assert(digits_of(n).drop_last() =~= digits_of(n / 10));
    }
}

/// A number that is written and read again is the number that was written.
pub proof fn lemma_number_round_trip(v: i32)
    ensures
        i32_value(number_text(v as int)) == Some(v),
        number_text(v as int).len() >= 1,
        forall|k: int|
            0 <= k < number_text(v as int).len() ==> #[trigger] number_text(v as int)[k] != ',',
{
    if v < 0 {
        lemma_digits_of(-(v as int));
        assert(number_text(v as int).skip(1) =~= digits_of(-(v as int)));
    } else {
        lemma_digits_of(v as int);
    }
}

/// The text of one digit.
fn digit_text(d: u32) -> (r: &'static str)
    requires
        d < 10,
    ensures
        r@ == seq![digit_char(d as int)],
{
    proof {
        reveal_strlit("0");
        reveal_strlit("1");
        reveal_strlit("2");
        reveal_strlit("3");
        reveal_strlit("4");
        reveal_strlit("5");
        reveal_strlit("6");
        reveal_strlit("7");
        reveal_strlit("8");
        reveal_strlit("9");
    }
    let text = if d == 0 {
        "0"
    } else if d == 1 {
        "1"
    } else if d == 2 {
        "2"
    } else if d == 3 {
        "3"
    } else if d == 4 {
        "4"
    } else if d == 5 {
        "5"
    } else if d == 6 {
        "6"
    } else if d == 7 {
        "7"
    } else if d == 8 {
        "8"
    } else {
        "9"
    };
    assert(text@ =~= seq![digit_char(d as int)]);
    text
}

/// Writes the digits of `n` at the end of `out`.
fn write_digits(n: u32, out: &mut String)
    ensures
        final(out)@ == old(out)@ + digits_of(n as int),
    decreases n,
{
    if n >= 10 {
        write_digits(n / 10, out);
    }
    out.append(digit_text(n % 10));
    assert(final(out)@ =~= old(out)@ + digits_of(n as int));
}

/// Writes a whole number in decimal at the end of `out`.
pub fn write_i32(v: i32, out: &mut String)
    ensures
        final(out)@ == old(out)@ + number_text(v as int),
{
    if v < 0 {
        proof {
            reveal_strlit("-");
        }
        out.append("-");
        let n: u32 = (-(v as i64)) as u32;
        write_digits(n, out);
        assert(final(out)@ =~= old(out)@ + number_text(v as int));
    } else {
        write_digits(v as u32, out);
    }
}

/// Whether two texts are the same.
pub fn same_text(a: &str, b: &str) -> (r: bool)
    ensures
        r == (a@ == b@),
{
    let n = a.unicode_len();
    if b.unicode_len() != n {
        return false;
    }
    let mut i: usize = 0;
    while i < n
        invariant
            0 <= i <= n,
            n == a@.len(),
            n == b@.len(),
            forall|k: int| 0 <= k < i ==> a@[k] == b@[k],
        decreases n - i,
    {
        if a.get_char(i) != b.get_char(i) {
            return false;
        }
        i += 1;
    }
    assert(a@ =~= b@);
    true
}

/// Whether a character is white space.
pub fn char_is_space(c: char) -> (r: bool)
    ensures
        r == is_space(c),
{
    let n: u32 = c as u32;
    n == 0x20 || (0x09 <= n && n <= 0x0d) || n == 0x85 || n == 0xa0 || n == 0x1680 || (0x2000 <= n
        && n <= 0x200a) || n == 0x2028 || n == 0x2029 || n == 0x202f || n == 0x205f || n
        == 0x3000
}

/// Finds what [`scan`] describes.
pub fn scan_from(s: &str, from: usize, over_spaces: bool) -> (r: usize)
    requires
        from <= s@.len(),
    ensures
        r == scan(s@, from as int, over_spaces),
        from <= r <= s@.len(),
{
    let n = s.unicode_len();
    let mut i: usize = from;
    while i < n
        invariant
            from <= i <= n,
            n == s@.len(),
            scan(s@, from as int, over_spaces) == scan(s@, i as int, over_spaces),
        decreases n - i,
    {
        if char_is_space(s.get_char(i)) != over_spaces {
            return i;
        }
        i += 1;
    }
    i
}

/// Finds what [`next_mark`] describes.
pub fn find_mark(s: &str, from: usize, mark: char) -> (r: usize)
    requires
        from <= s@.len(),
    ensures
        r == next_mark(s@, from as int, mark),
        from <= r <= s@.len(),
{
    let n = s.unicode_len();
    let mut i: usize = from;
    while i < n
        invariant
            from <= i <= n,
            n == s@.len(),
            next_mark(s@, from as int, mark) == next_mark(s@, i as int, mark),
        decreases n - i,
    {
        if s.get_char(i) == mark {
            return i;
        }
        i += 1;
    }
    i
}

/// A run of digits that goes on from a run whose number is already beyond
/// `bound` writes a number beyond `bound`, if it writes one at all.
proof fn lemma_digits_grow(s: Seq<char>, k: int, bound: int)
    requires
        0 <= k <= s.len(),
        0 <= bound,
        digits_value(s.subrange(0, k)) is Some,
        digits_value(s.subrange(0, k)).unwrap() > bound,
    ensures
        digits_value(s) is Some ==> digits_value(s).unwrap() > bound,
    decreases s.len() - k,
{
    if k < s.len() {
        let next = s.subrange(0, k + 1);
        assert(next.drop_last() =~= s.subrange(0, k));
        if digits_value(next) is Some {
            lemma_digits_grow(s, k + 1, bound);
        } else {
            lemma_digits_stay_unread(s, k + 1);
        }
    } else {
        assert(s.subrange(0, k) =~= s);
    }
}

/// A run of digits that goes on from a run that writes no number writes no
/// number.
proof fn lemma_digits_stay_unread(s: Seq<char>, k: int)
    requires
        0 <= k <= s.len(),
        digits_value(s.subrange(0, k)) is None,
    ensures
        digits_value(s) is None,
    decreases s.len() - k,
{
    if k < s.len() {
        let next = s.subrange(0, k + 1);
        assert(next.drop_last() =~= s.subrange(0, k));
        lemma_digits_stay_unread(s, k + 1);
    } else {
        assert(s.subrange(0, k) =~= s);
    }
}

/// Reads the whole number that a text writes, if it writes one and an `i32`
/// holds it.
pub fn parse_i32(s: &str) -> (r: Option<i32>)
    ensures
        r == i32_value(s@),
{
    let n = s.unicode_len();
    if n == 0 {
        return None;
    }
    let first = s.get_char(0);
    let negative = first == '-';
    let signed = negative || first == '+';
    let start: usize = if signed { 1 } else { 0 };
    if signed && n == 1 {
        return None;
    }
    let ghost digits = if signed { s@.skip(1) } else { s@ };
    let limit: i64 = 0x8000_0000;
    let mut value: i64 = 0;
    let mut i: usize = start;
    assert(digits.subrange(0, 0) =~= Seq::<char>::empty());
    while i < n
        invariant
            start <= i <= n,
            n == s@.len(),
            n > 0,
            negative == (s@[0] == '-'),
            signed == (s@[0] == '-' || s@[0] == '+'),
            signed ==> n > 1,
            start == if signed { 1usize } else { 0usize },
            digits == if signed { s@.skip(1) } else { s@ },
            limit == 0x8000_0000,
            0 <= value <= limit,
            digits_value(digits.subrange(0, i - start)) == Some(value as int),
        decreases n - i,
    {
        let c = s.get_char(i);
        let ghost upto = digits.subrange(0, i - start + 1);
        assert(upto.drop_last() =~= digits.subrange(0, i - start));
        assert(upto.last() == c);
        if !('0' <= c && c <= '9') {
            proof {
                lemma_digits_stay_unread(digits, i - start + 1);
            }
            return None;
        }
        let low: i64 = (c as u32 - '0' as u32) as i64;
        let next: i64 = value * 10 + low;
        if next > limit {
            proof {
                lemma_digits_grow(digits, i - start + 1, limit as int);
            }
            return None;
        }
        value = next;
        i += 1;
    }
    assert(digits.subrange(0, n - start) =~= digits);
    if negative {
        Some((-value) as i32)
    } else if value == limit {
        None
    } else {
        Some(value as i32)
    }
}

} // verus!
