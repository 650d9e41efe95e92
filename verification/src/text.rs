//! Text handling shared by the identifier, money and statement code: the
//! conversion between strings and character vectors, decimal integers and
//! splitting at separators.
use vstd::prelude::*;

verus! {

/// `String::push`: the character is appended to the end of the string.
pub assume_specification[ String::push ](text: &mut String, c: char)
    ensures
        final(text)@ == old(text)@.push(c),
;

/// The characters of a string, in order.
pub fn to_chars(text: &str) -> (chars: Vec<char>)
    ensures
        chars@ == text@,
{
    let mut chars: Vec<char> = Vec::new();
    for c in it: text.chars()
        invariant
            it.seq() == text@,
            chars@ == text@.subrange(0, it.index() as int),
    {
        chars.push(c);
    }
    chars
}

/// The string made of the given characters.
pub fn from_chars(chars: &Vec<char>) -> (text: String)
    ensures
        text@ == chars@,
{
    let mut text = String::new();
    let mut i: usize = 0;
    while i < chars.len()
        invariant
            i <= chars.len(),
            text@ == chars@.subrange(0, i as int),
        decreases chars.len() - i,
    {
        text.push(chars[i]);
        i += 1;
    }
    assert(chars@.subrange(0, i as int) == chars@);
    text
}

/// Append every character of `tail` to `out`.
pub fn push_str(out: &mut Vec<char>, tail: &str)
    ensures
        final(out)@ == old(out)@ + tail@,
{
    let ghost before = out@;
    for c in it: tail.chars()
        invariant
            it.seq() == tail@,
            out@ == before + tail@.subrange(0, it.index() as int),
    {
        out.push(c);
    }
}

/// Whether two character sequences are the same text.
pub fn same_text(left: &Vec<char>, right: &Vec<char>) -> (same: bool)
    ensures
        same == (left@ == right@),
{
    if left.len() != right.len() {
        return false;
    }
    let mut i: usize = 0;
    while i < left.len()
        invariant
            i <= left.len(),
            left.len() == right.len(),
            left@.subrange(0, i as int) == right@.subrange(0, i as int),
        decreases left.len() - i,
    {
        if left[i] != right[i] {
            return false;
        }
        assert(left@.subrange(0, i + 1) == left@.subrange(0, i as int).push(left@[i as int]));
        assert(right@.subrange(0, i + 1) == right@.subrange(0, i as int).push(right@[i as int]));
        i += 1;
    }
    assert(left@.subrange(0, i as int) == left@);
    assert(right@.subrange(0, i as int) == right@);
    true
}


/// Whether `c` is one of the decimal digits `0` to `9`.
pub open spec fn is_digit(c: char) -> bool {
    '0' <= c <= '9'
}

/// The number that a decimal digit stands for.
pub open spec fn digit_value(c: char) -> int {
    c as int - '0' as int
}

/// The decimal digit that stands for `d`, for `d` below ten.
pub open spec fn digit_char(d: int) -> char {
    ((d + '0' as int) as u8) as char
}

/// Whether every character of `s` is a decimal digit.
pub open spec fn all_digits(s: Seq<char>) -> bool {
    forall|i: int| 0 <= i < s.len() ==> is_digit(#[trigger] s[i])
}

/// The number written by a sequence of decimal digits, most significant first.
pub open spec fn digits_value(s: Seq<char>) -> nat
    decreases s.len(),
{
    if s.len() == 0 {
        0
    } else {
        (digits_value(s.drop_last()) * 10 + digit_value(s.last())) as nat
    }
}

/// The shortest decimal writing of a natural number.
pub open spec fn nat_text(n: nat) -> Seq<char>
    decreases n,
{
    if n < 10 {
        seq![digit_char(n as int)]
    } else {
        nat_text(n / 10).push(digit_char((n % 10) as int))
    }
}

/// The decimal writing of an integer: a minus sign for a negative one, then
/// the digits of its magnitude.
pub open spec fn int_text(i: int) -> Seq<char> {
    if i < 0 {
        seq!['-'] + nat_text((-i) as nat)
    } else {
        nat_text(i as nat)
    }
}

/// Whether `s` carries a sign in front.
pub open spec fn has_sign(s: Seq<char>) -> bool {
    s.len() > 0 && (s[0] == '+' || s[0] == '-')
}

/// The digits of an integer text: everything behind the sign, if there is one.
pub open spec fn unsigned_part(s: Seq<char>) -> Seq<char> {
    if has_sign(s) {
        s.subrange(1, s.len() as int)
    } else {
        s
    }
}

/// Whether `s` is written as an integer: an optional `+` or `-`, then one or
/// more decimal digits and nothing else.
pub open spec fn is_integer_text(s: Seq<char>) -> bool {
    unsigned_part(s).len() > 0 && all_digits(unsigned_part(s))
}

/// The integer that an integer text stands for.
pub open spec fn integer_text_value(s: Seq<char>) -> int {
    if s.len() > 0 && s[0] == '-' {
        -(digits_value(unsigned_part(s)) as int)
    } else {
        digits_value(unsigned_part(s)) as int
    }
}

/// What reading `s` as a 64-bit signed integer gives: the value where `s` is
/// an integer text whose value fits, and nothing otherwise.
pub open spec fn parse_i64_spec(s: Seq<char>) -> Option<i64> {
    if is_integer_text(s) && i64::MIN <= integer_text_value(s) <= i64::MAX {
        Some(integer_text_value(s) as i64)
    } else {
        None
    }
}

/// A sequence of digits is worth at least as much as any of its prefixes.
pub proof fn lemma_digits_value_grows(s: Seq<char>, k: int)
    requires
        all_digits(s),
        0 <= k <= s.len(),
    ensures
        digits_value(s.subrange(0, k)) <= digits_value(s),
    decreases s.len(),
{
    if k == s.len() {
        assert(s.subrange(0, k) == s);
    } else {
        assert(s.drop_last().subrange(0, k) == s.subrange(0, k));
        assert(is_digit(s[s.len() - 1]));
        lemma_digits_value_grows(s.drop_last(), k);
    }
}

/// The decimal writing of a natural number consists of digits and reads back
/// as that number.
pub proof fn lemma_nat_text(n: nat)
    ensures
        nat_text(n).len() > 0,
        all_digits(nat_text(n)),
        digits_value(nat_text(n)) == n,
    decreases n,
{
    if n < 10 {
        let s = nat_text(n);
        assert(s.drop_last() == Seq::<char>::empty());
        assert(digits_value(s.drop_last()) == 0);
    } else {
        lemma_nat_text(n / 10);
        let s = nat_text(n);
        assert(s.drop_last() == nat_text(n / 10));
        assert forall|i: int| 0 <= i < s.len() implies is_digit(#[trigger] s[i]) by {
            if i < s.len() - 1 {
                assert(s[i] == nat_text(n / 10)[i]);
            }
        }
    }
}

/// The decimal writing of an integer is an integer text that stands for it.
pub proof fn lemma_int_text(i: int)
    ensures
        is_integer_text(int_text(i)),
        integer_text_value(int_text(i)) == i,
        int_text(i).len() > 0,
        int_text(i)[0] == '-' || is_digit(int_text(i)[0]),
{
    if i < 0 {
        lemma_nat_text((-i) as nat);
        let s = int_text(i);
        assert(s[0] == '-');
        assert(s.subrange(1, s.len() as int) == nat_text((-i) as nat));
    } else {
        lemma_nat_text(i as nat);
        let s = int_text(i);
        assert(is_digit(s[0]));
    }
}

/// Read a 64-bit signed integer from its decimal writing.
pub fn parse_i64(text: &Vec<char>) -> (value: Option<i64>)
    ensures
        value == parse_i64_spec(text@),
{
    let n = text.len();
    if n == 0 {
        return None;
    }
    let negative = text[0] == '-';
    let start: usize = if text[0] == '-' || text[0] == '+' { 1 } else { 0 };
    if start == n {
        return None;
    }
    let ghost digits = unsigned_part(text@);
    assert(digits == text@.subrange(start as int, n as int));
    let mut magnitude: u64 = 0;
    let mut i: usize = start;
    while i < n
        invariant
            start <= i <= n,
            n == text.len(),
            digits == text@.subrange(start as int, n as int),
            digits == unsigned_part(text@),
            all_digits(digits.subrange(0, i - start)),
            magnitude == digits_value(digits.subrange(0, i - start)),
            magnitude <= 9223372036854775809,
        decreases n - i,
    {
        let c = text[i];
        if c < '0' || c > '9' {
            assert(!is_digit(digits[i - start]));
            return None;
        }
        let ghost next = digits.subrange(0, i - start + 1);
        assert(next.drop_last() == digits.subrange(0, i - start));
        assert(next.last() == c);
        assert(all_digits(next)) by {
            assert forall|j: int| 0 <= j < next.len() implies is_digit(#[trigger] next[j]) by {
                if j < next.len() - 1 {
                    assert(next[j] == digits.subrange(0, i - start)[j]);
                }
            }
        }
        if magnitude > 922337203685477580 {
            proof {
                if all_digits(digits) {
                    lemma_digits_value_grows(digits, i - start + 1);
                    assert(digits_value(next) == magnitude * 10 + digit_value(c));
                    assert(digits_value(digits) > 9223372036854775808);
                }
            }
            return None;
        }
        let d: u64 = (c as u32 - '0' as u32) as u64;
        magnitude = magnitude * 10 + d;
        i += 1;
    }
    assert(digits.subrange(0, i - start) == digits);
    if negative {
        if magnitude > 9223372036854775808 {
            None
        } else if magnitude == 9223372036854775808 {
            Some(i64::MIN)
        } else {
            Some(-(magnitude as i64))
        }
    } else {
        if magnitude > 9223372036854775807 {
            None
        } else {
            Some(magnitude as i64)
        }
    }
}

/// Append the decimal writing of `n` to `out`.
pub fn push_u64(out: &mut Vec<char>, n: u64)
    ensures
        final(out)@ == old(out)@ + nat_text(n as nat),
    decreases n,
{
    if n >= 10 {
        push_u64(out, n / 10);
    }
    let d: u8 = (n % 10) as u8;
    out.push((d + 48u8) as char);
    proof {
        assert('0' as int == 48);
        if n >= 10 {
            assert(out@ == old(out)@ + nat_text(n as nat));
        } else {
            assert(out@ == old(out)@ + nat_text(n as nat));
        }
    }
}

/// The magnitude of a 64-bit signed integer.
pub fn magnitude(value: i64) -> (m: u64)
    ensures
        m == if value < 0 { -(value as int) } else { value as int },
{
    if value < 0 {
        (-(value + 1)) as u64 + 1
    } else {
        value as u64
    }
}

/// Append the decimal writing of `value` to `out`.
pub fn push_i64(out: &mut Vec<char>, value: i64)
    ensures
        final(out)@ == old(out)@ + int_text(value as int),
{
    if value < 0 {
        out.push('-');
    }
    push_u64(out, magnitude(value));
    assert(out@ == old(out)@ + int_text(value as int));
}


/// Whether `c` is one of the two separators `a` and `b`.
pub open spec fn is_separator(c: char, a: char, b: char) -> bool {
    c == a || c == b
}

/// Whether no character of `s` is one of the separators `a` and `b`.
pub open spec fn separator_free(s: Seq<char>, a: char, b: char) -> bool {
    forall|i: int| 0 <= i < s.len() ==> !is_separator(#[trigger] s[i], a, b)
}

/// The pieces that `s` falls into when it is cut at every separator: one
/// more piece than there are separators, empty pieces included.
pub open spec fn split(s: Seq<char>, a: char, b: char) -> Seq<Seq<char>>
    decreases s.len(),
{
    if s.len() == 0 {
        seq![Seq::<char>::empty()]
    } else {
        let pieces = split(s.drop_last(), a, b);
        if is_separator(s.last(), a, b) {
            pieces.push(Seq::<char>::empty())
        } else {
            pieces.drop_last().push(pieces.last().push(s.last()))
        }
    }
}

/// A text without separators is its own single piece.
pub proof fn lemma_split_plain(s: Seq<char>, a: char, b: char)
    requires
        separator_free(s, a, b),
    ensures
        split(s, a, b) == seq![s],
    decreases s.len(),
{
    if s.len() == 0 {
        assert(s == Seq::<char>::empty());
    } else {
        assert(!is_separator(s[s.len() - 1], a, b));
        lemma_split_plain(s.drop_last(), a, b);
        let pieces = split(s.drop_last(), a, b);
        assert(pieces.drop_last() == Seq::<Seq<char>>::empty());
        assert(pieces.last().push(s.last()) == s);
        assert(pieces.drop_last().push(s) == seq![s]);
    }
}

/// A separator followed by a text without separators adds that text as one
/// more piece.
pub proof fn lemma_split_append(s: Seq<char>, sep: char, t: Seq<char>, a: char, b: char)
    requires
        is_separator(sep, a, b),
        separator_free(t, a, b),
    ensures
        split(s.push(sep) + t, a, b) == split(s, a, b).push(t),
    decreases t.len(),
{
    let whole = s.push(sep) + t;
    if t.len() == 0 {
        assert(whole == s.push(sep));
        assert(whole.drop_last() == s);
        assert(t == Seq::<char>::empty());
    } else {
        assert(!is_separator(t[t.len() - 1], a, b));
        assert(whole.drop_last() == s.push(sep) + t.drop_last());
        assert(whole.last() == t.last());
        lemma_split_append(s, sep, t.drop_last(), a, b);
        let pieces = split(whole.drop_last(), a, b);
        assert(pieces == split(s, a, b).push(t.drop_last()));
        assert(pieces.drop_last() == split(s, a, b));
        assert(pieces.last().push(t.last()) == t);
    }
}

/// The model of a list of texts.
pub open spec fn texts(pieces: Seq<Vec<char>>) -> Seq<Seq<char>> {
    pieces.map_values(|piece: Vec<char>| piece@)
}

/// Cut `text` at every occurrence of the separators `a` and `b`.
pub fn split_at(text: &Vec<char>, a: char, b: char) -> (pieces: Vec<Vec<char>>)
    ensures
        texts(pieces@) == split(text@, a, b),
        pieces.len() >= 1,
{
    let mut pieces: Vec<Vec<char>> = Vec::new();
    let mut current: Vec<char> = Vec::new();
    let mut i: usize = 0;
    assert(text@.subrange(0, 0) == Seq::<char>::empty());
    assert(texts(pieces@).push(current@) == seq![Seq::<char>::empty()]);
    while i < text.len()
        invariant
            i <= text.len(),
            texts(pieces@).push(current@) == split(text@.subrange(0, i as int), a, b),
        decreases text.len() - i,
    {
        let c = text[i];
        let ghost before = text@.subrange(0, i as int);
        let ghost next = text@.subrange(0, i + 1);
        let ghost done = texts(pieces@);
        let ghost piece = current@;
        assert(next.drop_last() == before);
        assert(next.last() == c);
        assert(done.push(piece).drop_last() == done);
        if c == a || c == b {
            pieces.push(current);
            current = Vec::new();
            assert(texts(pieces@) == done.push(piece));
        } else {
            current.push(c);
        }
        i += 1;
    }
    assert(text@.subrange(0, i as int) == text@);
    let ghost done = texts(pieces@);
    let ghost piece = current@;
    pieces.push(current);
    assert(texts(pieces@) == done.push(piece));
    pieces
}

} // verus!
