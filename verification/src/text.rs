//! Text: comparison, digits, hexadecimal, suffixes and white space.

use vstd::prelude::*;
use vstd::string::*;

verus! {

/// Whether two texts hold the same characters.
pub fn same_text(a: &str, b: &str) -> (same: bool)
    ensures
        same == (a@ == b@),
{
    a.to_owned() == b.to_owned()
}

/// The lower-case hexadecimal digit of a value under sixteen.
pub open spec fn digit_char(d: int) -> char {
    if d == 0 {
        '0'
    } else if d == 1 {
        '1'
    } else if d == 2 {
        '2'
    } else if d == 3 {
        '3'
    } else if d == 4 {
        '4'
    } else if d == 5 {
        '5'
    } else if d == 6 {
        '6'
    } else if d == 7 {
        '7'
    } else if d == 8 {
        '8'
    } else if d == 9 {
        '9'
    } else if d == 10 {
        'a'
    } else if d == 11 {
        'b'
    } else if d == 12 {
        'c'
    } else if d == 13 {
        'd'
    } else if d == 14 {
        'e'
    } else {
        'f'
    }
}

/// A digit as a text of one character.
fn digit_text(d: u8) -> (digit: &'static str)
    requires
        d < 16,
    ensures
        digit@ == seq![digit_char(d as int)],
{
    proof {
        reveal_strlit("0");
        reveal_strlit("1");
        reveal_strlit("2");
        reveal_strlit("3");
        reveal_strlit("4");
        reveal_strlit("5");
        reveal_strlit("6");
        reveal_strlit("7");
        reveal_strlit("8");
        reveal_strlit("9");
        reveal_strlit("a");
        reveal_strlit("b");
        reveal_strlit("c");
        reveal_strlit("d");
        reveal_strlit("e");
        reveal_strlit("f");
    }
    match d {
        0 => "0",
        1 => "1",
        2 => "2",
        3 => "3",
        4 => "4",
        5 => "5",
        6 => "6",
        7 => "7",
        8 => "8",
        9 => "9",
        10 => "a",
        11 => "b",
        12 => "c",
        13 => "d",
        14 => "e",
        _ => "f",
    }
}

/// A natural number in decimal, without leading zeros.
pub open spec fn decimal_text(n: nat) -> Seq<char>
    decreases n,
{
    if n < 10 {
        seq![digit_char(n as int)]
    } else {
        decimal_text(n / 10).push(digit_char((n % 10) as int))
    }
}

/// Writes a number in decimal.
pub fn decimal(n: u64) -> (digits: String)
    ensures
        digits@ == decimal_text(n as nat),
    decreases n,
{
    if n < 10 {
        digit_text(n as u8).to_owned()
    } else {
        let mut digits = decimal(n / 10);
        digits.append(digit_text((n % 10) as u8));
        digits
    }
}

/// Bytes in lower-case hexadecimal, two digits each, the high one first.
pub open spec fn hex_text(bytes: Seq<u8>) -> Seq<char>
    decreases bytes.len(),
{
    if bytes.len() == 0 {
        Seq::empty()
    } else {
        hex_text(bytes.drop_last()).push(digit_char(bytes.last() as int / 16)).push(
            digit_char(bytes.last() as int % 16),
        )
    }
}

/// Writes bytes in lower-case hexadecimal.
pub fn hex(bytes: &[u8]) -> (digits: String)
    ensures
        digits@ == hex_text(bytes@),
{
    let mut digits = String::new();
    let mut i: usize = 0;
    while i < bytes.len()
        invariant
            i <= bytes@.len(),
            digits@ == hex_text(bytes@.take(i as int)),
        decreases bytes@.len() - i,
    {
        digits.append(digit_text(bytes[i] / 16));
        digits.append(digit_text(bytes[i] % 16));
        assert(bytes@.take(i + 1).drop_last() =~= bytes@.take(i as int));
        i = i + 1;
        assert(digits@ =~= hex_text(bytes@.take(i as int)));
    }
    assert(bytes@.take(i as int) =~= bytes@);
    digits
}

/// Two digits for each byte.
pub proof fn hex_text_len(bytes: Seq<u8>)
    ensures
        hex_text(bytes).len() == 2 * bytes.len(),
    decreases bytes.len(),
{
    if bytes.len() > 0 {
        hex_text_len(bytes.drop_last());
    }
}

/// Different bytes have different hexadecimal texts.
pub proof fn hex_text_injective(a: Seq<u8>, b: Seq<u8>)
    requires
        hex_text(a) == hex_text(b),
    ensures
        a == b,
    decreases a.len(),
{
    hex_text_len(a);
    hex_text_len(b);
    if a.len() > 0 {
        let n = hex_text(a).len() as int;
        let x = hex_text(a.drop_last());
        let y = hex_text(b.drop_last());
        hex_text_len(a.drop_last());
        hex_text_len(b.drop_last());
        assert(x =~= hex_text(a).take(n - 2));
        assert(y =~= hex_text(b).take(n - 2));
        hex_text_injective(a.drop_last(), b.drop_last());
        assert(hex_text(a)[n - 2] == digit_char(a.last() as int / 16));
        assert(hex_text(a)[n - 1] == digit_char(a.last() as int % 16));
        assert(hex_text(b)[n - 2] == digit_char(b.last() as int / 16));
        assert(hex_text(b)[n - 1] == digit_char(b.last() as int % 16));
        assert(a =~= a.drop_last().push(a.last()));
        assert(b =~= b.drop_last().push(b.last()));
    } else {
        assert(a =~= b);
    }
}

/// Whether a text ends in `suffix`.
pub open spec fn has_suffix(text: Seq<char>, suffix: Seq<char>) -> bool {
    &&& suffix.len() <= text.len()
    &&& text.skip(text.len() - suffix.len()) == suffix
}

/// Tests whether a text ends in `suffix`.
pub fn ends_with(text: &str, suffix: &str) -> (ends: bool)
    ensures
        ends == has_suffix(text@, suffix@),
{
    let n: usize = text.unicode_len();
    let m: usize = suffix.unicode_len();
    if m > n {
        return false;
    }
    assert(text@.subrange(n - m, n as int) =~= text@.skip(n - m));
    same_text(text.substring_char(n - m, n), suffix)
}

/// The characters with the Unicode property `White_Space`.
pub open spec fn white_space(c: char) -> bool {
    ||| '\u{9}' <= c <= '\u{d}'
    ||| c == '\u{20}'
    ||| c == '\u{85}'
    ||| c == '\u{a0}'
    ||| c == '\u{1680}'
    ||| '\u{2000}' <= c <= '\u{200a}'
    ||| c == '\u{2028}'
    ||| c == '\u{2029}'
    ||| c == '\u{202f}'
    ||| c == '\u{205f}'
    ||| c == '\u{3000}'
}

/// Tests for white space.
pub fn is_white_space(c: char) -> (white: bool)
    ensures
        white == white_space(c),
{
    ('\u{9}' <= c && c <= '\u{d}') || c == '\u{20}' || c == '\u{85}' || c == '\u{a0}' || c
        == '\u{1680}' || ('\u{2000}' <= c && c <= '\u{200a}') || c == '\u{2028}' || c == '\u{2029}'
        || c == '\u{202f}' || c == '\u{205f}' || c == '\u{3000}'
}

/// A text without its leading and trailing white space.
pub open spec fn trimmed(text: Seq<char>) -> Seq<char>
    decreases text.len(),
{
    if text.len() == 0 {
        text
    } else if white_space(text.first()) {
        trimmed(text.drop_first())
    } else if white_space(text.last()) {
        trimmed(text.drop_last())
    } else {
        text
    }
}

/// Strips leading and trailing white space.
pub fn trim(text: &str) -> (inner: String)
    ensures
        inner@ == trimmed(text@),
{
    let n: usize = text.unicode_len();
    let mut from: usize = 0;
    assert(text@.subrange(0, n as int) =~= text@);
    while from < n && is_white_space(text.get_char(from))
        invariant
            from <= n,
            n == text@.len(),
            trimmed(text@) == trimmed(text@.subrange(from as int, n as int)),
        ensures
            from <= n,
            from == n || !white_space(text@[from as int]),
            trimmed(text@) == trimmed(text@.subrange(from as int, n as int)),
        decreases n - from,
    {
        assert(text@.subrange(from as int, n as int).drop_first() =~= text@.subrange(
            from + 1,
            n as int,
        ));
        from = from + 1;
    }
    let mut to: usize = n;
    while from < to && is_white_space(text.get_char(to - 1))
        invariant
            from <= to <= n,
            n == text@.len(),
            from == to || !white_space(text@[from as int]),
            trimmed(text@) == trimmed(text@.subrange(from as int, to as int)),
        ensures
            from <= to <= n,
            from == to || !white_space(text@[from as int]) && !white_space(text@[to - 1]),
            trimmed(text@) == trimmed(text@.subrange(from as int, to as int)),
        decreases to,
    {
        assert(text@.subrange(from as int, to as int).drop_last() =~= text@.subrange(
            from as int,
            to - 1,
        ));
        to = to - 1;
    }
    text.substring_char(from, to).to_owned()
}

/// The number that decimal digits stand for.
pub open spec fn digits_value(digits: Seq<char>) -> int
    decreases digits.len(),
{
    if digits.len() == 0 {
        0
    } else {
        10 * digits_value(digits.drop_last()) + (digits.last() as int - '0' as int)
    }
}

/// A number in decimal reads back as the number: it is made of decimal digits,
/// stands for the number, and has no leading zero unless it is zero itself.
pub proof fn decimal_reads_back(n: nat)
    ensures
        digits_value(decimal_text(n)) == n,
        decimal_text(n).len() > 0,
        forall|i: int|
            0 <= i < decimal_text(n).len() ==> '0' <= #[trigger] decimal_text(n)[i] <= '9',
        decimal_text(n)[0] == '0' <==> n == 0,
        n < 10 <==> decimal_text(n).len() == 1,
    decreases n,
{
    reveal_with_fuel(digits_value, 2);
    if n >= 10 {
        decimal_reads_back(n / 10);
        let front = decimal_text(n / 10);
        assert(decimal_text(n).drop_last() =~= front);
        assert(decimal_text(n)[0] == front[0]);
    }
}

/// The value of a lower-case hexadecimal digit, negative for other characters.
pub open spec fn hex_digit_value(c: char) -> int {
    if '0' <= c <= '9' {
        c as int - '0' as int
    } else if 'a' <= c <= 'f' {
        10 + c as int - 'a' as int
    } else {
        -1
    }
}

/// Hexadecimal text reads back as the bytes: the two digits at the place of a
/// byte stand for that byte, the high one first.
pub proof fn hex_reads_back(bytes: Seq<u8>, i: int)
    requires
        0 <= i < bytes.len(),
    ensures
        hex_text(bytes).len() == 2 * bytes.len(),
        0 <= hex_digit_value(hex_text(bytes)[2 * i]) < 16,
        0 <= hex_digit_value(hex_text(bytes)[2 * i + 1]) < 16,
        16 * hex_digit_value(hex_text(bytes)[2 * i]) + hex_digit_value(hex_text(bytes)[2 * i + 1])
            == bytes[i],
    decreases bytes.len(),
{
    hex_text_len(bytes);
    hex_text_len(bytes.drop_last());
    if i < bytes.len() - 1 {
        hex_reads_back(bytes.drop_last(), i);
        assert(hex_text(bytes)[2 * i] == hex_text(bytes.drop_last())[2 * i]);
        assert(hex_text(bytes)[2 * i + 1] == hex_text(bytes.drop_last())[2 * i + 1]);
    }
}

/// A text ends in a suffix exactly where it is some text followed by the suffix.
pub proof fn suffix_is_the_end(text: Seq<char>, suffix: Seq<char>)
    ensures
        has_suffix(text, suffix) <==> exists|front: Seq<char>| text == #[trigger] (front + suffix),
{
    if has_suffix(text, suffix) {
        let front = text.take(text.len() - suffix.len());
        assert(text =~= front + suffix);
    }
    assert forall|front: Seq<char>| text == #[trigger] (front + suffix) implies has_suffix(
        text,
        suffix,
    ) by {
        assert(text.skip(text.len() - suffix.len()) =~= suffix);
    }
}

/// The white space of Unicode, by code point: the controls from tab to carriage
/// return, the space, the next line, and the spaces and separators beyond.
pub proof fn white_space_by_code(c: char)
    ensures
        ({
            let u = c as int;
            white_space(c) <==> {
                ||| 9 <= u <= 13
                ||| u == 32
                ||| u == 133
                ||| u == 160
                ||| u == 5760
                ||| 8192 <= u <= 8202
                ||| u == 8232
                ||| u == 8233
                ||| u == 8239
                ||| u == 8287
                ||| u == 12288
            }
        }),
{
}

/// Whether a text is white space throughout.
pub open spec fn all_white(text: Seq<char>) -> bool {
    forall|i: int| 0 <= i < text.len() ==> white_space(#[trigger] text[i])
}

/// Trimming takes white space off both ends, all of it, and nothing else.
pub proof fn trim_takes_white_space(text: Seq<char>)
    ensures
        exists|lead: Seq<char>, trail: Seq<char>|
            all_white(lead) && all_white(trail) && text == #[trigger] (lead + trimmed(text)
                + trail),
        trimmed(text).len() > 0 ==> !white_space(trimmed(text).first()) && !white_space(
            trimmed(text).last(),
        ),
    decreases text.len(),
{
    let none = Seq::<char>::empty();
    if text.len() > 0 && white_space(text.first()) {
        let rest = text.drop_first();
        trim_takes_white_space(rest);
        let (lead, trail) = choose|lead: Seq<char>, trail: Seq<char>|
            all_white(lead) && all_white(trail) && rest == #[trigger] (lead + trimmed(rest)
                + trail);
        let more = seq![text.first()] + lead;
        assert forall|i: int| 0 <= i < more.len() implies white_space(#[trigger] more[i]) by {
            if i > 0 {
                assert(more[i] == lead[i - 1]);
            }
        }
        assert(text =~= seq![text.first()] + rest);
        assert(text =~= more + trimmed(text) + trail);
    } else if text.len() > 0 && white_space(text.last()) {
        let rest = text.drop_last();
        trim_takes_white_space(rest);
        let (lead, trail) = choose|lead: Seq<char>, trail: Seq<char>|
            all_white(lead) && all_white(trail) && rest == #[trigger] (lead + trimmed(rest)
                + trail);
        let more = trail.push(text.last());
        assert forall|i: int| 0 <= i < more.len() implies white_space(#[trigger] more[i]) by {
            if i < trail.len() {
                assert(more[i] == trail[i]);
            }
        }
        assert(text =~= rest.push(text.last()));
        assert(text =~= lead + trimmed(text) + more);
    } else {
        assert(text =~= none + trimmed(text) + none);
    }
}

} // verus!
