use vstd::prelude::*;

verus! {

/// One recognised SGR code: a text attribute, a foreground color or a
/// background color.
#[derive(Clone, Copy, Debug, PartialEq, Eq, Structural)]
pub enum AnsiTextFormatting {
    // text attributes
    NormalDisplay,
    Bold,
    Underline,
    Blink,
    ReverseVideo,
    Invisible,
    // foreground colors
    ForegroundBlack,
    ForegroundRed,
    ForegroundGreen,
    ForegroundYellow,
    ForegroundBlue,
    ForegroundMagenta,
    ForegroundCyan,
    ForegroundWhite,
    // background colors
    BackgroundBlack,
    BackgroundRed,
    BackgroundGreen,
    BackgroundYellow,
    BackgroundBlue,
    BackgroundMagenta,
    BackgroundCyan,
    BackgroundWhite,
}

/// The text attribute named by a single code byte, if any. Codes are ASCII
/// digits: `0x30` is `'0'`, `0x38` is `'8'`.
pub open spec fn text_attribute_of(code: u8) -> Option<AnsiTextFormatting> {
    if code == 0x30 {
        Some(AnsiTextFormatting::NormalDisplay)
    } else if code == 0x31 {
        Some(AnsiTextFormatting::Bold)
    } else if code == 0x34 {
        Some(AnsiTextFormatting::Underline)
    } else if code == 0x35 {
        Some(AnsiTextFormatting::Blink)
    } else if code == 0x37 {
        Some(AnsiTextFormatting::ReverseVideo)
    } else if code == 0x38 {
        Some(AnsiTextFormatting::Invisible)
    } else {
        None
    }
}

/// The color with index `k` (0 = black .. 7 = white) in the ANSI palette,
/// as a foreground color.
pub open spec fn foreground_color(k: int) -> AnsiTextFormatting {
    if k == 0 {
        AnsiTextFormatting::ForegroundBlack
    } else if k == 1 {
        AnsiTextFormatting::ForegroundRed
    } else if k == 2 {
        AnsiTextFormatting::ForegroundGreen
    } else if k == 3 {
        AnsiTextFormatting::ForegroundYellow
    } else if k == 4 {
        AnsiTextFormatting::ForegroundBlue
    } else if k == 5 {
        AnsiTextFormatting::ForegroundMagenta
    } else if k == 6 {
        AnsiTextFormatting::ForegroundCyan
    } else {
        AnsiTextFormatting::ForegroundWhite
    }
}

/// The color with index `k` (0 = black .. 7 = white) in the ANSI palette,
/// as a background color.
pub open spec fn background_color(k: int) -> AnsiTextFormatting {
    if k == 0 {
        AnsiTextFormatting::BackgroundBlack
    } else if k == 1 {
        AnsiTextFormatting::BackgroundRed
    } else if k == 2 {
        AnsiTextFormatting::BackgroundGreen
    } else if k == 3 {
        AnsiTextFormatting::BackgroundYellow
    } else if k == 4 {
        AnsiTextFormatting::BackgroundBlue
    } else if k == 5 {
        AnsiTextFormatting::BackgroundMagenta
    } else if k == 6 {
        AnsiTextFormatting::BackgroundCyan
    } else {
        AnsiTextFormatting::BackgroundWhite
    }
}

/// Whether `b` is one of the digits `'0'..='7'` that index a palette color.
pub open spec fn is_color_digit(b: u8) -> bool {
    0x30 <= b <= 0x37
}

/// The color named by a two-byte code: `'3'` or `'4'` (foreground or
/// background) followed by a palette digit.
pub open spec fn color_attribute_of(prefix: u8, digit: u8) -> Option<AnsiTextFormatting> {
    if prefix == 0x33 && is_color_digit(digit) {
        Some(foreground_color(digit - 0x30))
    } else if prefix == 0x34 && is_color_digit(digit) {
        Some(background_color(digit - 0x30))
    } else {
        None
    }
}

/// Classifies a single code byte as a text attribute.
pub fn is_ansi_text_attribute(current: u8) -> (r: Option<AnsiTextFormatting>)
    ensures
        r == text_attribute_of(current),
{
    match current {
        0x30u8 => Some(AnsiTextFormatting::NormalDisplay),
        0x31u8 => Some(AnsiTextFormatting::Bold),
        0x34u8 => Some(AnsiTextFormatting::Underline),
        0x35u8 => Some(AnsiTextFormatting::Blink),
        0x37u8 => Some(AnsiTextFormatting::ReverseVideo),
        0x38u8 => Some(AnsiTextFormatting::Invisible),
        _ => None,
    }
}

/// Classifies a two-byte code (`previous` then `current`) as a color.
pub fn is_ansi_color_attribute(previous: u8, current: u8) -> (r: Option<AnsiTextFormatting>)
    ensures
        r == color_attribute_of(previous, current),
{
    match (previous, current) {
        // foreground colors
        (0x33u8, 0x30u8) => Some(AnsiTextFormatting::ForegroundBlack),
        (0x33u8, 0x31u8) => Some(AnsiTextFormatting::ForegroundRed),
        (0x33u8, 0x32u8) => Some(AnsiTextFormatting::ForegroundGreen),
        (0x33u8, 0x33u8) => Some(AnsiTextFormatting::ForegroundYellow),
        (0x33u8, 0x34u8) => Some(AnsiTextFormatting::ForegroundBlue),
        (0x33u8, 0x35u8) => Some(AnsiTextFormatting::ForegroundMagenta),
        (0x33u8, 0x36u8) => Some(AnsiTextFormatting::ForegroundCyan),
        (0x33u8, 0x37u8) => Some(AnsiTextFormatting::ForegroundWhite),
        // background colors
        (0x34u8, 0x30u8) => Some(AnsiTextFormatting::BackgroundBlack),
        (0x34u8, 0x31u8) => Some(AnsiTextFormatting::BackgroundRed),
        (0x34u8, 0x32u8) => Some(AnsiTextFormatting::BackgroundGreen),
        (0x34u8, 0x33u8) => Some(AnsiTextFormatting::BackgroundYellow),
        (0x34u8, 0x34u8) => Some(AnsiTextFormatting::BackgroundBlue),
        (0x34u8, 0x35u8) => Some(AnsiTextFormatting::BackgroundMagenta),
        (0x34u8, 0x36u8) => Some(AnsiTextFormatting::BackgroundCyan),
        (0x34u8, 0x37u8) => Some(AnsiTextFormatting::BackgroundWhite),
        _ => None,
    }
}

} // verus!
