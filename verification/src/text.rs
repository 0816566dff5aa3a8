//! Text as sequences of characters.
use vstd::prelude::*;
use vstd::string::*;
use vstd::utf8::{decode_utf8, encode_utf8, encode_utf8_decode_utf8, is_ascii_chars, valid_utf8};

verus! {

/// `String::push` puts one character behind the others.
pub assume_specification[ String::push ](text: &mut String, c: char)
    ensures
        final(text)@ == old(text)@.push(c),
;

/// The characters of an optional text.
pub open spec fn chars_of(text: Option<String>) -> Option<Seq<char>> {
    match text {
        Some(text) => Some(text@),
        None => None,
    }
}

/// `text` begins with `prefix`.
pub open spec fn has_prefix(text: Seq<char>, prefix: Seq<char>) -> bool {
    prefix.len() <= text.len() && text.subrange(0, prefix.len() as int) == prefix
}

/// Collects the characters of `text`.
pub fn to_chars(text: &str) -> (chars: Vec<char>)
    ensures
        chars@ == text@,
{
    let mut chars: Vec<char> = Vec::new();
    for c in iter: text.chars()
        invariant
            iter.seq() == text@,
            chars@ == text@.subrange(0, iter.index()),
    {
        chars.push(c);
    }
    assert(text@.subrange(0, text@.len() as int) == text@);
    chars
}

/// The text made of the characters `from..to`.
pub fn from_chars(chars: &[char], from: usize, to: usize) -> (text: String)
    requires
        from <= to <= chars@.len(),
    ensures
        text@ == chars@.subrange(from as int, to as int),
{
    let mut text = String::new();
    let mut i: usize = from;
    while i < to
        invariant
            from <= i <= to <= chars@.len(),
            text@ == chars@.subrange(from as int, i as int),
        decreases to - i,
    {
        text.push(chars[i]);
        i += 1;
        assert(text@ == chars@.subrange(from as int, i as int));
    }
    text
}

/// Whether the characters of `text` from `at` on begin with `part`.
pub fn matches_at(text: &[char], at: usize, part: &str) -> (found: bool)
    requires
        at <= text@.len(),
    ensures
        found == has_prefix(text@.skip(at as int), part@),
{
    let part_chars = to_chars(part);
    if part_chars.len() > text.len() - at {
        return false;
    }
    let mut i: usize = 0;
    while i < part_chars.len()
        invariant
            at <= text@.len() <= usize::MAX,
            part_chars@ == part@,
            i <= part@.len() <= text@.len() - at,
            text@.subrange(at as int, at + i) == part@.subrange(0, i as int),
        decreases part_chars.len() - i,
    {
        if text[at + i] != part_chars[i] {
            proof {
                let head = text@.skip(at as int).subrange(0, part@.len() as int);
                assert(head[i as int] == text@[at + i]);
                assert(head != part@);
            }
            return false;
        }
        assert(text@.subrange(at as int, at + i + 1) == text@.subrange(at as int, at + i).push(
            text@[at + i],
        ));
        assert(part@.subrange(0, i + 1) == part@.subrange(0, i as int).push(part@[i as int]));
        i += 1;
    }
    assert(text@.skip(at as int).subrange(0, part@.len() as int) == text@.subrange(
        at as int,
        at + i,
    ));
    assert(part@.subrange(0, i as int) == part@);
    true
}

/// Whether two texts hold the same characters.
pub fn same_text(left: &str, right: &str) -> (same: bool)
    ensures
        same == (left@ == right@),
{
    let left_bytes = left.as_bytes();
    let right_bytes = right.as_bytes();
    if left_bytes.len() != right_bytes.len() {
        return false;
    }
    let mut i: usize = 0;
    while i < left_bytes.len()
        invariant
            left_bytes@ == encode_utf8(left@),
            right_bytes@ == encode_utf8(right@),
            i <= left_bytes@.len() == right_bytes@.len(),
            forall|j: int| 0 <= j < i ==> left_bytes@[j] == right_bytes@[j],
        decreases left_bytes@.len() - i,
    {
        if left_bytes[i] != right_bytes[i] {
            return false;
        }
        i += 1;
    }
    proof {
        assert(left_bytes@ =~= right_bytes@);
        encode_utf8_decode_utf8(left@);
        encode_utf8_decode_utf8(right@);
    }
    true
}

/// The character of a decimal digit.
pub open spec fn digit(value: int) -> char {
    if value == 0 {
        '0'
    } else if value == 1 {
        '1'
    } else if value == 2 {
        '2'
    } else if value == 3 {
        '3'
    } else if value == 4 {
        '4'
    } else if value == 5 {
        '5'
    } else if value == 6 {
        '6'
    } else if value == 7 {
        '7'
    } else if value == 8 {
        '8'
    } else {
        '9'
    }
}

/// A number in decimal notation.
pub open spec fn decimal(value: int) -> Seq<char>
    decreases value,
    when value >= 0
{
    if value < 10 {
        seq![digit(value)]
    } else {
        decimal(value / 10).push(digit(value % 10))
    }
}

fn digit_char(value: u64) -> (c: char)
    requires
        value < 10,
    ensures
        c == digit(value as int),
{
    match value {
        0 => '0',
        1 => '1',
        2 => '2',
        3 => '3',
        4 => '4',
        5 => '5',
        6 => '6',
        7 => '7',
        8 => '8',
        _ => '9',
    }
}

/// Appends a number in decimal notation.
pub fn push_decimal(text: &mut String, value: u64)
    ensures
        final(text)@ == old(text)@ + decimal(value as int),
    decreases value,
{
    if value >= 10 {
        push_decimal(text, value / 10);
    }
    text.push(digit_char(value % 10));
    assert(text@ =~= old(text)@ + decimal(value as int));
}

pub open spec fn is_digit(c: char) -> bool {
    '0' as u32 <= c as u32 <= '9' as u32
}

pub open spec fn all_digits(text: Seq<char>) -> bool {
    forall|i: int| 0 <= i < text.len() ==> is_digit(#[trigger] text[i])
}

/// The number that decimal digits stand for.
pub open spec fn digits_value(text: Seq<char>) -> int
    decreases text.len(),
{
    if text.len() == 0 {
        0
    } else {
        digits_value(text.drop_last()) * 10 + (text.last() as u32 - '0' as u32)
    }
}

/// The digits of a number that may carry a plus sign.
pub open spec fn without_plus(text: Seq<char>) -> Seq<char> {
    if text.len() > 0 && text[0] == '+' {
        text.skip(1)
    } else {
        text
    }
}

/// The number that a text writes out in decimal, where it is not beyond `max`.
pub open spec fn parsed(text: Seq<char>, max: int) -> Option<int> {
    let digits = without_plus(text);
    if digits.len() > 0 && all_digits(digits) && digits_value(digits) <= max {
        Some(digits_value(digits))
    } else {
        None
    }
}

proof fn lemma_digits_grow(text: Seq<char>, n: int)
    requires
        all_digits(text),
        0 <= n <= text.len(),
    ensures
        0 <= digits_value(text.take(n)) <= digits_value(text),
    decreases text.len(),
{
    if n == text.len() {
        assert(text.take(n) =~= text);
        if n > 0 {
            assert(text.drop_last() =~= text.take(n - 1));
            lemma_digits_grow(text.drop_last(), n - 1);
            assert(is_digit(text[n - 1]));
        }
    } else {
        assert(text.drop_last().take(n) =~= text.take(n));
        lemma_digits_grow(text.drop_last(), n);
        assert(is_digit(text[text.len() - 1]));
    }
}

/// Reads the characters from `from` on as a decimal number up to `max`.
pub fn parse_unsigned(chars: &[char], from: usize, max: u32) -> (number: Option<u32>)
    requires
        from <= chars@.len(),
    ensures
        match number {
            Some(number) => parsed(chars@.skip(from as int), max as int) == Some(number as int),
            None => parsed(chars@.skip(from as int), max as int) is None,
        },
{
    let ghost text = chars@.skip(from as int);
    let ghost digits = without_plus(text);
    let mut start: usize = from;
    if from < chars.len() && chars[from] == '+' {
        start = from + 1;
    }
    assert(digits =~= chars@.skip(start as int));
    if start == chars.len() {
        return None;
    }
    let mut value: u64 = 0;
    let mut i: usize = start;
    while i < chars.len()
        invariant
            start <= i <= chars@.len(),
            text == chars@.skip(from as int),
            digits == without_plus(text),
            digits == chars@.skip(start as int),
            start < chars@.len(),
            value <= max,
            all_digits(digits.take(i - start)),
            value == digits_value(digits.take(i - start)),
        decreases chars@.len() - i,
    {
        let c = chars[i];
        let ghost n = i - start;
        assert(digits[n] == c);
        if (c as u32) < ('0' as u32) || (c as u32) > ('9' as u32) {
            assert(!is_digit(digits[n]));
            return None;
        }
        assert(digits.take(n + 1).drop_last() =~= digits.take(n));
        value = value * 10 + (c as u32 - '0' as u32) as u64;
        assert(all_digits(digits.take(n + 1)));
        if value > max as u64 {
            proof {
                if all_digits(digits) {
                    lemma_digits_grow(digits, n + 1);
                }
            }
            return None;
        }
        i += 1;
    }
    assert(digits.take(i - start) =~= digits);
    Some(value as u32)
}

/// What follows `prefix` in a text that begins with it.
pub open spec fn after_prefix(text: Seq<char>, prefix: Seq<char>) -> Option<Seq<char>> {
    if has_prefix(text, prefix) {
        Some(text.skip(prefix.len() as int))
    } else {
        None
    }
}

/// What follows `prefix` in a text that begins with it.
pub fn strip_prefix(text: &str, prefix: &str) -> (rest: Option<String>)
    ensures
        chars_of(rest) == after_prefix(text@, prefix@),
{
    let chars = to_chars(text);
    assert(text@.skip(0) == text@);
    if matches_at(chars.as_slice(), 0, prefix) {
        let length: usize = to_chars(prefix).len();
        let rest = from_chars(chars.as_slice(), length, chars.len());
        assert(rest@ =~= text@.skip(prefix@.len() as int));
        Some(rest)
    } else {
        None
    }
}

/// The first character of a text.
pub open spec fn first_of(text: Seq<char>) -> Option<char> {
    if text.len() > 0 {
        Some(text[0])
    } else {
        None
    }
}

pub fn first_char(text: &str) -> (c: Option<char>)
    ensures
        c == first_of(text@),
{
    let chars = to_chars(text);
    if chars.len() > 0 {
        Some(chars[0])
    } else {
        None
    }
}

/// The lower case of a text beyond ASCII.
pub uninterp spec fn lowercase(text: Seq<char>) -> Seq<char>;

/// The lower case of an ASCII character.
pub open spec fn ascii_lower(c: char) -> char {
    if 'A' <= c <= 'Z' {
        (c as u8 + 32) as u8 as char
    } else {
        c
    }
}

/// The lower case of a text; ASCII text is taken letter by letter.
pub open spec fn lowered(text: Seq<char>) -> Seq<char> {
    if is_ascii_chars(text) {
        text.map_values(|c: char| ascii_lower(c))
    } else {
        lowercase(text)
    }
}

/// `str::to_lowercase` depends on the characters alone, and takes ASCII text letter by letter.
pub assume_specification[ str::to_lowercase ](text: &str) -> (lower: String)
    ensures
        is_ascii_chars(text@) ==> lower@ == text@.map_values(|c: char| ascii_lower(c)),
        !is_ascii_chars(text@) ==> lower@ == lowercase(text@),
;

/// A whole number in decimal notation.
pub open spec fn signed_decimal(value: int) -> Seq<char> {
    if value < 0 {
        seq!['-'] + decimal(-value)
    } else {
        decimal(value)
    }
}

/// Appends a whole number in decimal notation.
pub fn push_signed(text: &mut String, value: i32)
    ensures
        final(text)@ == old(text)@ + signed_decimal(value as int),
{
    if value < 0 {
        text.push('-');
        push_decimal(text, -(value as i64) as u64);
        assert(text@ =~= old(text)@ + signed_decimal(value as int));
    } else {
        push_decimal(text, value as u64);
    }
}

/// The text that bytes stand for, broken sequences replaced.
pub uninterp spec fn lossy_text(bytes: Seq<u8>) -> Seq<char>;

/// `String::from_utf8_lossy` depends on the bytes alone, and decodes valid UTF-8 as it is.
#[verifier::external_body]
pub(crate) fn text_from_bytes(bytes: &Vec<u8>) -> (text: String)
    ensures
        text@ == lossy_text(bytes@),
        valid_utf8(bytes@) ==> text@ == decode_utf8(bytes@),
{
    String::from_utf8_lossy(bytes).into_owned()
}

} // verus!
