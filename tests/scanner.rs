use ansi_escape::attribute::AnsiTextFormatting;
use ansi_escape::attribute::{is_ansi_color_attribute, is_ansi_text_attribute};
use ansi_escape::cursor::ByteCursor;
use ansi_escape::scanner::{eat_parse_escape_codes, parse_escape_code_prefix};

#[test]
fn parse_color_escape_code_prefix_invalid() {
    assert_eq!(None, parse_escape_code_prefix(b"\x1c[32m"));
    assert_eq!(None, parse_escape_code_prefix(b"\x1b\\32m"));
    assert_eq!(None, parse_escape_code_prefix(b"\x1b[32"));
    assert_eq!(None, parse_escape_code_prefix(b"\x1b32m"));
    assert_eq!(None, parse_escape_code_prefix(b"\x1b[3233m"));
    assert_eq!(None, parse_escape_code_prefix(b"\x1b[32;433m"));
}

#[test]
fn parse_color_escape_code_prefix_simple_empty() {
    assert_eq!(Some(vec![]), parse_escape_code_prefix(b"\x1b[m"));
    assert_eq!(Some(vec![]), parse_escape_code_prefix(b"\x1b[;m"));
    assert_eq!(Some(vec![]), parse_escape_code_prefix(b"\x1b[;;m"));
}

#[test]
fn parse_color_escape_code_prefix_simple_cases() {
    assert_eq!(
        Some(vec![AnsiTextFormatting::ForegroundGreen]),
        parse_escape_code_prefix(b"\x1b[32m")
    );
    assert_eq!(
        Some(vec![AnsiTextFormatting::ForegroundRed]),
        parse_escape_code_prefix(b"\x1b[31m")
    );
    assert_eq!(Some(vec![AnsiTextFormatting::Underline]), parse_escape_code_prefix(b"\x1b[4m"));
}

#[test]
fn parse_color_escape_code_prefix_with_iterator() {
    let mut it = ByteCursor::new(b"\x1b[32m");
    assert_eq!(Some(vec![AnsiTextFormatting::ForegroundGreen]), eat_parse_escape_codes(&mut it));
    assert_eq!(0, it.count());

    let mut it = ByteCursor::new(b"\x1b[31m");
    assert_eq!(Some(vec![AnsiTextFormatting::ForegroundRed]), eat_parse_escape_codes(&mut it));
    assert_eq!(0, it.count());

    let mut it = ByteCursor::new(b"\x1b[4m");
    assert_eq!(Some(vec![AnsiTextFormatting::Underline]), eat_parse_escape_codes(&mut it));
    assert_eq!(0, it.count());
}

#[test]
fn parse_color_escape_code_reset_on_double_59() {
    assert_eq!(
        Some(vec![AnsiTextFormatting::ForegroundRed, AnsiTextFormatting::BackgroundGreen]),
        parse_escape_code_prefix(b"\x1b[31;42m")
    );
    assert_eq!(
        Some(vec![AnsiTextFormatting::BackgroundGreen]),
        parse_escape_code_prefix(b"\x1b[31;;42m")
    );
    assert_eq!(
        Some(vec![AnsiTextFormatting::ForegroundRed, AnsiTextFormatting::Bold, AnsiTextFormatting::BackgroundGreen]),
        parse_escape_code_prefix(b"\x1b[31;1;42m")
    );
    assert_eq!(
        Some(vec![AnsiTextFormatting::Invisible, AnsiTextFormatting::Bold, AnsiTextFormatting::BackgroundGreen]),
        parse_escape_code_prefix(b"\x1b[8;1;42m")
    );
    assert_eq!(
        Some(vec![AnsiTextFormatting::Bold, AnsiTextFormatting::BackgroundGreen]),
        parse_escape_code_prefix(b"\x1b[8;;1;42m")
    );
}

#[test]
fn every_text_attribute_alone() {
    let cases: [(u8, AnsiTextFormatting); 6] = [
        (b'0', AnsiTextFormatting::NormalDisplay),
        (b'1', AnsiTextFormatting::Bold),
        (b'4', AnsiTextFormatting::Underline),
        (b'5', AnsiTextFormatting::Blink),
        (b'7', AnsiTextFormatting::ReverseVideo),
        (b'8', AnsiTextFormatting::Invisible),
    ];
    for (code, attr) in cases {
        let bytes = [0x1b, b'[', code, b'm'];
        assert_eq!(Some(vec![attr]), parse_escape_code_prefix(&bytes));
        assert_eq!(Some(attr), is_ansi_text_attribute(code));
    }
    for code in [b'2', b'3', b'6', b'9', b'a', b';', b'm', 0x1b] {
        assert_eq!(None, is_ansi_text_attribute(code));
    }
}

#[test]
fn every_color_alone() {
    let fg = [
        AnsiTextFormatting::ForegroundBlack,
        AnsiTextFormatting::ForegroundRed,
        AnsiTextFormatting::ForegroundGreen,
        AnsiTextFormatting::ForegroundYellow,
        AnsiTextFormatting::ForegroundBlue,
        AnsiTextFormatting::ForegroundMagenta,
        AnsiTextFormatting::ForegroundCyan,
        AnsiTextFormatting::ForegroundWhite,
    ];
    let bg = [
        AnsiTextFormatting::BackgroundBlack,
        AnsiTextFormatting::BackgroundRed,
        AnsiTextFormatting::BackgroundGreen,
        AnsiTextFormatting::BackgroundYellow,
        AnsiTextFormatting::BackgroundBlue,
        AnsiTextFormatting::BackgroundMagenta,
        AnsiTextFormatting::BackgroundCyan,
        AnsiTextFormatting::BackgroundWhite,
    ];
    for k in 0..8u8 {
        let digit = b'0' + k;
        let bytes = [0x1b, b'[', b'3', digit, b'm'];
        assert_eq!(Some(vec![fg[k as usize]]), parse_escape_code_prefix(&bytes));
        let bytes = [0x1b, b'[', b'4', digit, b'm'];
        assert_eq!(Some(vec![bg[k as usize]]), parse_escape_code_prefix(&bytes));
        assert_eq!(Some(fg[k as usize]), is_ansi_color_attribute(b'3', digit));
        assert_eq!(Some(bg[k as usize]), is_ansi_color_attribute(b'4', digit));
    }
    assert_eq!(None, is_ansi_color_attribute(b'3', b'8'));
    assert_eq!(None, is_ansi_color_attribute(b'4', b'9'));
    assert_eq!(None, is_ansi_color_attribute(b'5', b'0'));
    assert_eq!(None, is_ansi_color_attribute(b'0', b'1'));
    assert_eq!(None, parse_escape_code_prefix(b"\x1b[38m"));
    assert_eq!(None, parse_escape_code_prefix(b"\x1b[50m"));
}

#[test]
fn trailing_and_repeated_separators() {
    assert_eq!(Some(vec![AnsiTextFormatting::Underline]), parse_escape_code_prefix(b"\x1b[4;m"));
    assert_eq!(Some(vec![AnsiTextFormatting::ForegroundRed]), parse_escape_code_prefix(b"\x1b[31;m"));
    assert_eq!(Some(vec![]), parse_escape_code_prefix(b"\x1b[31;;m"));
    assert_eq!(Some(vec![]), parse_escape_code_prefix(b"\x1b[1;31;;;m"));
    assert_eq!(
        Some(vec![AnsiTextFormatting::ForegroundBlue]),
        parse_escape_code_prefix(b"\x1b[;;;34m")
    );
    assert_eq!(
        Some(vec![AnsiTextFormatting::Bold, AnsiTextFormatting::Blink]),
        parse_escape_code_prefix(b"\x1b[7;;1;5m")
    );
}

#[test]
fn malformed_bodies_are_rejected() {
    assert_eq!(None, parse_escape_code_prefix(b""));
    assert_eq!(None, parse_escape_code_prefix(b"\x1b"));
    assert_eq!(None, parse_escape_code_prefix(b"\x1b["));
    assert_eq!(None, parse_escape_code_prefix(b"\x1b[3m"));
    assert_eq!(None, parse_escape_code_prefix(b"\x1b[1"));
    assert_eq!(None, parse_escape_code_prefix(b"\x1b[;"));
    assert_eq!(None, parse_escape_code_prefix(b"\x1b[31"));
    assert_eq!(None, parse_escape_code_prefix(b"\x1b[314m"));
    assert_eq!(None, parse_escape_code_prefix(b"\x1b[1x"));
    assert_eq!(None, parse_escape_code_prefix(b"\x1b[123m"));
    assert_eq!(None, parse_escape_code_prefix(b"hello"));
}

#[test]
fn scan_consumes_exactly_the_sequence() {
    let mut it = ByteCursor::new(b"\x1b[32mtext\x1b[1m");
    assert_eq!(Some(vec![AnsiTextFormatting::ForegroundGreen]), eat_parse_escape_codes(&mut it));
    assert_eq!(8, it.count());
    assert_eq!(Some(b't'), it.next_byte());

    let mut it = ByteCursor::new(b"\x1b[31;;42m;m");
    assert_eq!(Some(vec![AnsiTextFormatting::BackgroundGreen]), eat_parse_escape_codes(&mut it));
    assert_eq!(2, it.count());

    let mut it = ByteCursor::new(b"\x1b[4mm");
    assert_eq!(Some(vec![AnsiTextFormatting::Underline]), eat_parse_escape_codes(&mut it));
    assert_eq!(Some(b'm'), it.next_byte());
    assert_eq!(None, it.next_byte());
    assert_eq!(0, it.count());
}

#[test]
fn trailing_bytes_do_not_change_the_result() {
    assert_eq!(
        parse_escape_code_prefix(b"\x1b[8;;1;42m"),
        parse_escape_code_prefix(b"\x1b[8;;1;42m;;\x1b[0m")
    );
    assert_eq!(
        Some(vec![AnsiTextFormatting::Bold]),
        parse_escape_code_prefix(b"\x1b[1mxyz")
    );
}

#[test]
fn failed_scan_moves_forward_only() {
    let mut it = ByteCursor::new(b"\x1b[3233m");
    assert_eq!(None, eat_parse_escape_codes(&mut it));
    assert!(it.count() <= 7);

    let mut it = ByteCursor::new(b"");
    assert_eq!(None, eat_parse_escape_codes(&mut it));
    assert_eq!(0, it.count());
}
