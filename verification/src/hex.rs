//! Hexadecimal digits: reading what the user types and writing what is shown.
use vstd::prelude::*;

verus! {

/// Whether a character is an ASCII hexadecimal digit, in either case.
pub open spec fn is_hex_digit(c: char) -> bool {
    ('0' <= c <= '9') || ('a' <= c <= 'f') || ('A' <= c <= 'F')
}

/// The value of a hexadecimal digit; zero for any other character.
pub open spec fn hex_value(c: char) -> int {
    if '0' <= c <= '9' {
        c as int - '0' as int
    } else if 'a' <= c <= 'f' {
        c as int - 'a' as int + 10
    } else if 'A' <= c <= 'F' {
        c as int - 'A' as int + 10
    } else {
        0
    }
}

/// The upper-case hexadecimal digit of a value below sixteen.
pub open spec fn upper_hex_digit(v: int) -> char
    recommends
        0 <= v < 16,
{
    if v < 10 {
        (v + '0' as int) as char
    } else {
        (v - 10 + 'A' as int) as char
    }
}

/// The hexadecimal digits of a text, in their order, everything else left out.
pub open spec fn hex_digits_of(s: Seq<char>) -> Seq<char> {
    s.filter(|c: char| is_hex_digit(c))
}

/// The byte that two hexadecimal digits spell.
pub open spec fn byte_of_digits(high: char, low: char) -> int {
    16 * hex_value(high) + hex_value(low)
}

/// The character shown for a byte in the text column: the byte itself where it
/// is printable ASCII, a dot otherwise.
pub open spec fn spec_ascii_char(value: u8) -> char {
    if 32 <= value < 128 {
        value as char
    } else {
        '.'
    }
}

/// Appending a character to a text appends it to the text's hexadecimal digits
/// if it is one, and changes nothing otherwise.
pub proof fn lemma_hex_digits_push(s: Seq<char>, c: char)
    ensures
        hex_digits_of(s.push(c)) == if is_hex_digit(c) {
            hex_digits_of(s).push(c)
        } else {
            hex_digits_of(s)
        },
        hex_digits_of(Seq::<char>::empty()) == Seq::<char>::empty(),
{
    reveal(Seq::filter);
    assert(s.push(c).drop_last() =~= s);
    assert(s.push(c).last() == c);
}

/// A text made of hexadecimal digits only is its own filtered text.
pub proof fn lemma_hex_digits_of_digits(s: Seq<char>)
    requires
        forall|i: int| 0 <= i < s.len() ==> is_hex_digit(#[trigger] s[i]),
    ensures
        hex_digits_of(s) == s,
    decreases s.len(),
{
    reveal(Seq::filter);
    if s.len() > 0 {
        lemma_hex_digits_of_digits(s.drop_last());
        assert(s.drop_last().push(s.last()) =~= s);
    }
}

/// What is left after filtering holds hexadecimal digits only.
pub proof fn lemma_hex_digits_are_digits(s: Seq<char>)
    ensures
        forall|i: int| 0 <= i < hex_digits_of(s).len() ==> is_hex_digit(
            #[trigger] hex_digits_of(s)[i],
        ),
        hex_digits_of(s).len() <= s.len(),
    decreases s.len(),
{
    reveal(Seq::filter);
    if s.len() > 0 {
        lemma_hex_digits_are_digits(s.drop_last());
    }
}

/// Tells whether a character is a hexadecimal digit.
pub fn is_hex_char(c: char) -> (b: bool)
    ensures
        b == is_hex_digit(c),
{
    (c >= '0' && c <= '9') || (c >= 'a' && c <= 'f') || (c >= 'A' && c <= 'F')
}

/// The value of a hexadecimal digit, `None` for any other character.
pub fn hex_digit_value(c: char) -> (v: Option<u8>)
    ensures
        v is Some <==> is_hex_digit(c),
        v is Some ==> v.unwrap() == hex_value(c) && v.unwrap() < 16,
{
    if c >= '0' && c <= '9' {
        Some((c as u32 - '0' as u32) as u8)
    } else if c >= 'a' && c <= 'f' {
        Some((c as u32 - 'a' as u32 + 10) as u8)
    } else if c >= 'A' && c <= 'F' {
        Some((c as u32 - 'A' as u32 + 10) as u8)
    } else {
        None
    }
}

/// The byte that two characters spell in hexadecimal, `None` unless both are
/// hexadecimal digits.
pub fn parse_hex_byte(high: char, low: char) -> (value: Option<u8>)
    ensures
        value is Some <==> is_hex_digit(high) && is_hex_digit(low),
        value is Some ==> value.unwrap() == byte_of_digits(high, low),
{
    match (hex_digit_value(high), hex_digit_value(low)) {
        (Some(h), Some(l)) => Some(h * 16 + l),
        _ => None,
    }
}

/// The two upper-case hexadecimal digits that a byte is shown as.
pub fn byte_label(value: u8) -> (digits: (char, char))
    ensures
        digits.0 == upper_hex_digit(value as int / 16),
        digits.1 == upper_hex_digit(value as int % 16),
        is_hex_digit(digits.0) && is_hex_digit(digits.1),
        byte_of_digits(digits.0, digits.1) == value,
{
    (upper_hex_char(value / 16), upper_hex_char(value % 16))
}

/// The upper-case hexadecimal digit of a value below sixteen.
fn upper_hex_char(v: u8) -> (c: char)
    requires
        v < 16,
    ensures
        c == upper_hex_digit(v as int),
        is_hex_digit(c),
        hex_value(c) == v,
{
    if v < 10 {
        (v + 48) as char
    } else {
        (v + 55) as char
    }
}

/// The character that the text column shows for a byte.
pub fn ascii_char(value: u8) -> (c: char)
    ensures
        c == spec_ascii_char(value),
{
    if value >= 32 && value < 128 {
        value as char
    } else {
        '.'
    }
}

/// The characters of a text.
pub fn chars_of(text: &str) -> (chars: Vec<char>)
    ensures
        chars@ == text@,
{
    let n: usize = text.unicode_len();
    let mut chars: Vec<char> = Vec::new();
    let mut i: usize = 0;
    while i < n
        invariant
            i <= n,
            n == text@.len(),
            chars@ == text@.subrange(0, i as int),
        decreases n - i,
    {
        let c: char = text.get_char(i);
        chars.push(c);
        i = i + 1;
        proof {
            assert(chars@ =~= text@.subrange(0, i as int));
        }
    }
    proof {
        assert(text@.subrange(0, n as int) =~= text@);
    }
    chars
}

/// The hexadecimal digits of a text, in their order.
pub fn retain_hex_digits(text: &Vec<char>) -> (digits: Vec<char>)
    ensures
        digits@ == hex_digits_of(text@),
        forall|i: int| 0 <= i < digits@.len() ==> is_hex_digit(#[trigger] digits@[i]),
{
    let n: usize = text.len();
    let mut digits: Vec<char> = Vec::new();
    let mut i: usize = 0;
    proof {
        lemma_hex_digits_push(Seq::<char>::empty(), 'x');
        assert(text@.subrange(0, 0) =~= Seq::<char>::empty());
    }
    while i < n
        invariant
            i <= n,
            n == text@.len(),
            digits@ == hex_digits_of(text@.subrange(0, i as int)),
        decreases n - i,
    {
        let c: char = text[i];
        proof {
            lemma_hex_digits_push(text@.subrange(0, i as int), c);
            assert(text@.subrange(0, i as int).push(c) =~= text@.subrange(0, i as int + 1));
        }
        if is_hex_char(c) {
            digits.push(c);
        }
        i = i + 1;
    }
    proof {
        assert(text@.subrange(0, n as int) =~= text@);
        lemma_hex_digits_are_digits(text@);
    }
    digits
}

} // verus!
