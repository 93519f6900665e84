use vstd::prelude::*;

verus! {

/// `str`'s `==`, which vstd leaves unspecified: two string slices are equal
/// exactly when they hold the same characters.
#[verifier::external_body]
pub(crate) fn same_text(a: &str, b: &str) -> (same: bool)
    ensures
        same == (a@ == b@),
{
    a == b
}

/// `String::push`, which vstd leaves unspecified: the character is appended
/// and nothing else changes.
#[verifier::external_body]
pub(crate) fn push_char(text: &mut String, c: char)
    ensures
        final(text)@ == old(text)@.push(c),
{
    text.push(c)
}

/// The characters of each string of a sequence, in order.
pub open spec fn texts(strings: Seq<String>) -> Seq<Seq<char>> {
    strings.map_values(|s: String| s@)
}

/// The characters of a text that may be missing.
pub open spec fn text_of(text: Option<String>) -> Option<Seq<char>> {
    match text {
        Some(t) => Some(t@),
        None => None,
    }
}

/// The needle stands in the haystack at position `at`.
pub open spec fn occurs_at(haystack: Seq<char>, needle: Seq<char>, at: int) -> bool {
    &&& 0 <= at
    &&& at + needle.len() <= haystack.len()
    &&& haystack.subrange(at, at + needle.len()) == needle
}

/// The needle stands somewhere in the haystack.
pub open spec fn occurs_in(haystack: Seq<char>, needle: Seq<char>) -> bool {
    exists|at: int| occurs_at(haystack, needle, at)
}

/// `str::contains` with a string as the pattern, which vstd leaves
/// unspecified: whether the pattern is a contiguous part of the text.
#[verifier::external_body]
pub(crate) fn contains_text(haystack: &str, needle: &str) -> (found: bool)
    ensures
        found == occurs_in(haystack@, needle@),
{
    haystack.contains(needle)
}

/// The character of a digit below sixteen, lower case.
pub open spec fn digit_char(d: int) -> char {
    if d == 0 {
        '0'
    } else if d == 1 {
        '1'
    } else if d == 2 {
        '2'
    } else if d == 3 {
        '3'
    } else if d == 4 {
        '4'
    } else if d == 5 {
        '5'
    } else if d == 6 {
        '6'
    } else if d == 7 {
        '7'
    } else if d == 8 {
        '8'
    } else if d == 9 {
        '9'
    } else if d == 10 {
        'a'
    } else if d == 11 {
        'b'
    } else if d == 12 {
        'c'
    } else if d == 13 {
        'd'
    } else if d == 14 {
        'e'
    } else {
        'f'
    }
}

fn digit(d: u32) -> (c: char)
    requires
        d < 16,
    ensures
        c == digit_char(d as int),
{
    match d {
        0 => '0',
        1 => '1',
        2 => '2',
        3 => '3',
        4 => '4',
        5 => '5',
        6 => '6',
        7 => '7',
        8 => '8',
        9 => '9',
        10 => 'a',
        11 => 'b',
        12 => 'c',
        13 => 'd',
        14 => 'e',
        _ => 'f',
    }
}

/// A natural number in decimal, without leading zeros.
pub open spec fn decimal(n: nat) -> Seq<char>
    decreases n,
{
    if n < 10 {
        seq![digit_char(n as int)]
    } else {
        decimal(n / 10).push(digit_char((n % 10) as int))
    }
}

/// An integer in decimal, with a minus sign where it is negative.
pub open spec fn signed_decimal(i: int) -> Seq<char> {
    if i < 0 {
        seq!['-'] + decimal((-i) as nat)
    } else {
        decimal(i as nat)
    }
}

/// A 32-bit color as `0x` and eight lower-case hexadecimal digits.
pub open spec fn hex_color(color: u32) -> Seq<char> {
    seq![
        '0',
        'x',
        digit_char(color as int / 0x1000_0000 % 16),
        digit_char(color as int / 0x100_0000 % 16),
        digit_char(color as int / 0x10_0000 % 16),
        digit_char(color as int / 0x1_0000 % 16),
        digit_char(color as int / 0x1000 % 16),
        digit_char(color as int / 0x100 % 16),
        digit_char(color as int / 0x10 % 16),
        digit_char(color as int % 16),
    ]
}

/// A truth value as the word `true` or `false`.
pub open spec fn bool_word(b: bool) -> Seq<char> {
    if b {
        "true"@
    } else {
        "false"@
    }
}

fn push_decimal(text: &mut String, n: u32)
    ensures
        final(text)@ == old(text)@ + decimal(n as nat),
    decreases n,
{
    if n >= 10 {
        push_decimal(text, n / 10);
    }
    push_char(text, digit(n % 10));
    assert(text@ =~= old(text)@ + decimal(n as nat));
}

/// The decimal text of a number.
pub fn decimal_string(n: u32) -> (text: String)
    ensures
        text@ == decimal(n as nat),
{
    let mut text = String::new();
    push_decimal(&mut text, n);
    assert(text@ =~= decimal(n as nat));
    text
}

/// The decimal text of a signed number.
pub fn signed_decimal_string(i: i32) -> (text: String)
    ensures
        text@ == signed_decimal(i as int),
{
    let mut text = String::new();
    if i < 0 {
        push_char(&mut text, '-');
        let magnitude: i64 = -(i as i64);
        push_decimal(&mut text, magnitude as u32);
        assert(text@ =~= signed_decimal(i as int));
    } else {
        push_decimal(&mut text, i as u32);
        assert(text@ =~= signed_decimal(i as int));
    }
    text
}

/// The text of a color as the bar reads it.
pub fn color_string(color: u32) -> (text: String)
    ensures
        text@ == hex_color(color),
{
    let mut text = String::new();
    push_char(&mut text, '0');
    push_char(&mut text, 'x');
    push_char(&mut text, digit(color / 0x1000_0000 % 16));
    push_char(&mut text, digit(color / 0x100_0000 % 16));
    push_char(&mut text, digit(color / 0x10_0000 % 16));
    push_char(&mut text, digit(color / 0x1_0000 % 16));
    push_char(&mut text, digit(color / 0x1000 % 16));
    push_char(&mut text, digit(color / 0x100 % 16));
    push_char(&mut text, digit(color / 0x10 % 16));
    push_char(&mut text, digit(color % 16));
    assert(text@ =~= hex_color(color));
    text
}

/// The word of a truth value.
pub fn bool_string(b: bool) -> (text: String)
    ensures
        text@ == bool_word(b),
{
    if b {
        String::from_str("true")
    } else {
        String::from_str("false")
    }
}

} // verus!
