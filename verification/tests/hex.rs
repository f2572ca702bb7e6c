use egui_memory_editor::hex::{
    ascii_char, byte_label, chars_of, hex_digit_value, is_hex_char, parse_hex_byte,
    retain_hex_digits,
};

#[test]
fn hex_digits_are_recognised() {
    for c in "0123456789abcdefABCDEF".chars() {
        assert!(is_hex_char(c));
        assert_eq!(hex_digit_value(c), c.to_digit(16).map(|v| v as u8));
    }
    for c in "gG/:@`xz -\u{e9}\u{ff11}".chars() {
        assert!(!is_hex_char(c));
        assert_eq!(hex_digit_value(c), None);
    }
}

#[test]
fn two_digits_spell_a_byte() {
    assert_eq!(parse_hex_byte('9', 'F'), Some(0x9F));
    assert_eq!(parse_hex_byte('9', 'f'), Some(0x9F));
    assert_eq!(parse_hex_byte('0', '0'), Some(0));
    assert_eq!(parse_hex_byte('f', 'F'), Some(255));
    assert_eq!(parse_hex_byte('1', 'a'), Some(26));
    assert_eq!(parse_hex_byte('g', '0'), None);
    assert_eq!(parse_hex_byte('0', 'g'), None);
    assert_eq!(parse_hex_byte('+', '1'), None);
}

#[test]
fn labels_parse_back_to_their_byte() {
    for value in 0..=255u8 {
        let (high, low) = byte_label(value);
        assert_eq!(format!("{}{}", high, low), format!("{:02X}", value));
        assert_eq!(parse_hex_byte(high, low), Some(value));
    }
    assert_eq!(byte_label(0x9F), ('9', 'F'));
    assert_eq!(byte_label(0x0A), ('0', 'A'));
    assert_eq!(byte_label(0xB7), ('B', '7'));
}

#[test]
fn text_column_shows_printable_ascii() {
    assert_eq!(ascii_char(b'A'), 'A');
    assert_eq!(ascii_char(32), ' ');
    assert_eq!(ascii_char(127), '\u{7f}');
    assert_eq!(ascii_char(31), '.');
    assert_eq!(ascii_char(128), '.');
    assert_eq!(ascii_char(0), '.');
    assert_eq!(ascii_char(255), '.');
    assert_eq!(ascii_char(b'.'), '.');
}

#[test]
fn other_characters_are_dropped() {
    let text: Vec<char> = "x9-zF g".chars().collect();
    assert_eq!(retain_hex_digits(&text), vec!['9', 'F']);
    assert_eq!(retain_hex_digits(&Vec::new()), Vec::<char>::new());
    let none: Vec<char> = "xyz!".chars().collect();
    assert_eq!(retain_hex_digits(&none), Vec::<char>::new());
    let all: Vec<char> = "0aF".chars().collect();
    assert_eq!(retain_hex_digits(&all), all);
}

#[test]
fn chars_of_keeps_every_character() {
    assert_eq!(chars_of(""), Vec::<char>::new());
    assert_eq!(chars_of("9F"), vec!['9', 'F']);
    assert_eq!(chars_of("a\u{e9}\u{1F600}b"), vec!['a', '\u{e9}', '\u{1F600}', 'b']);
}
