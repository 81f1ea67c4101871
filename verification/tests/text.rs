use dfu_core::text::{chars_of, digit, find_first, find_last, parse_unsigned};

fn chars(s: &str) -> Vec<char> {
    s.chars().collect()
}

#[test]
fn characters_of_a_string() {
    assert_eq!(chars_of(""), Vec::<char>::new());
    assert_eq!(chars_of("a*\u{e9}\u{1f600}g"), chars("a*\u{e9}\u{1f600}g"));
}

#[test]
fn first_and_last_separator() {
    let text = chars("a/bc/d");
    assert_eq!(find_first(&text, 0, 6, '/'), 1);
    assert_eq!(find_first(&text, 2, 6, '/'), 4);
    assert_eq!(find_first(&text, 5, 6, '/'), 6);
    assert_eq!(find_first(&text, 0, 1, '/'), 1);
    assert_eq!(find_first(&text, 3, 3, '/'), 3);
    assert_eq!(find_last(&text, 0, 6, '/'), Some(4));
    assert_eq!(find_last(&text, 0, 4, '/'), Some(1));
    assert_eq!(find_last(&text, 0, 1, '/'), None);
    assert_eq!(find_last(&text, 5, 6, '/'), None);
    assert_eq!(find_last(&text, 2, 2, '/'), None);
}

#[test]
fn digits() {
    assert_eq!(digit('0', 10), Some(0));
    assert_eq!(digit('9', 10), Some(9));
    assert_eq!(digit('a', 10), None);
    assert_eq!(digit('a', 16), Some(10));
    assert_eq!(digit('F', 16), Some(15));
    assert_eq!(digit('g', 16), None);
    assert_eq!(digit('z', 36), Some(35));
    assert_eq!(digit('/', 10), None);
    assert_eq!(digit(':', 16), None);
    assert_eq!(digit('\u{e9}', 36), None);
    for c in ['0', '7', 'a', 'f', 'G', 'z', ' ', '+'] {
        for radix in [2u32, 10, 16, 36] {
            assert_eq!(digit(c, radix), c.to_digit(radix));
        }
    }
}

#[test]
fn unsigned_numbers_as_the_standard_library_reads_them() {
    for text in [
        "", "+", "-", "0", "00", "007", "+7", "++7", "-7", "7+", " 7", "7 ", "4294967295",
        "4294967296", "42949672950", "99999999999999999999", "ffffffff", "FFFFFFFF", "100000000",
        "+ff", "1_000", "0x10", "12ab", "\u{e9}", "1\u{e9}",
    ] {
        let text_chars = chars(text);
        for radix in [10u32, 16] {
            assert_eq!(
                parse_unsigned(&text_chars, 0, text_chars.len(), radix),
                u32::from_str_radix(text, radix).ok(),
                "text {:?} radix {}",
                text,
                radix
            );
        }
    }
}

#[test]
fn number_inside_a_text() {
    let text = chars("ab123cd");
    assert_eq!(parse_unsigned(&text, 2, 5, 10), Some(123));
    assert_eq!(parse_unsigned(&text, 2, 6, 10), None);
    assert_eq!(parse_unsigned(&text, 2, 6, 16), Some(0x123c));
    assert_eq!(parse_unsigned(&text, 3, 3, 10), None);
    assert_eq!(parse_unsigned(&text, 0, 7, 16), Some(0xab123cd));
}
