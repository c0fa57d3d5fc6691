use ruggine::protocol::{from_wire_format, to_wire_format};
use ruggine::text::{char_is_whitespace, decimal, split_first, trim};

#[test]
fn trim_removes_whitespace_at_both_ends_only() {
    assert_eq!(trim("  a b  "), "a b");
    assert_eq!(trim("a b"), "a b");
    assert_eq!(trim("\t\r\n x \n"), "x");
    assert_eq!(trim(""), "");
    assert_eq!(trim(" \n\t "), "");
    assert_eq!(trim("x"), "x");
}

#[test]
fn trim_agrees_with_the_standard_library_on_unicode() {
    for text in [
        "\u{a0}caf\u{e9} \u{2003}",
        "\u{3000}\u{65e5}\u{672c}\u{8a9e}\u{3000}",
        "\u{200b}x\u{200b}",
        "\u{1f980} crab \u{1f980}",
        "\u{85}line\u{2028}",
    ] {
        assert_eq!(trim(text), text.trim());
    }
}

#[test]
fn split_first_parts_at_the_first_separator() {
    assert_eq!(split_first("/join team", ' '), ("/join", Some("team")));
    assert_eq!(split_first("/register alice pw 1", ' '), ("/register", Some("alice pw 1")));
    assert_eq!(split_first("/quit", ' '), ("/quit", None));
    assert_eq!(split_first("", ' '), ("", None));
    assert_eq!(split_first(" x", ' '), ("", Some("x")));
    assert_eq!(split_first("x ", ' '), ("x", Some("")));
    assert_eq!(split_first("a  b", ' '), ("a", Some(" b")));
    assert_eq!(split_first("h\u{e9}llo w\u{f6}rld", ' '), ("h\u{e9}llo", Some("w\u{f6}rld")));
}

#[test]
fn to_wire_format_ends_the_text_with_one_line_break() {
    assert_eq!(to_wire_format("\"Quit\""), "\"Quit\"\n");
    assert_eq!(to_wire_format(""), "\n");
    assert_eq!(to_wire_format("{\"a\":\"b\\n\"}"), "{\"a\":\"b\\n\"}\n");
}

#[test]
fn from_wire_format_strips_the_line_break_and_blanks() {
    assert_eq!(from_wire_format("\"Quit\"\n"), "\"Quit\"");
    assert_eq!(from_wire_format("  {\"Ok\":{\"message\":\"a b\"}}\r\n"), "{\"Ok\":{\"message\":\"a b\"}}");
    assert_eq!(from_wire_format("\n"), "");
    assert_eq!(from_wire_format(""), "");
}

#[test]
fn framing_then_unframing_gives_the_text_back() {
    let text = "{\"SendMessage\":{\"content\":\"hi there\",\"group_name\":\"team\"}}";
    assert_eq!(from_wire_format(&to_wire_format(text)), text);
}

#[test]
fn decimal_writes_numbers_without_leading_zeros() {
    assert_eq!(decimal(0), "0");
    assert_eq!(decimal(7), "7");
    assert_eq!(decimal(10), "10");
    assert_eq!(decimal(1234567890), "1234567890");
    assert_eq!(decimal(100200), "100200");
    assert_eq!(decimal(u128::MAX), u128::MAX.to_string());
}

#[test]
fn whitespace_is_what_the_standard_library_calls_whitespace() {
    let mut white = 0;
    for code in 0..=0x10FFFFu32 {
        if let Some(c) = char::from_u32(code) {
            assert_eq!(char_is_whitespace(c), c.is_whitespace(), "U+{:04X}", code);
            if char_is_whitespace(c) {
                white += 1;
            }
        }
    }
    assert_eq!(white, 25);
    assert!(char_is_whitespace('\n'));
    assert!(char_is_whitespace(' '));
    assert!(!char_is_whitespace('a'));
    assert!(!char_is_whitespace('\u{200b}'));
}
