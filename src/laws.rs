use vstd::prelude::*;
use crate::attribute::{AnsiTextFormatting, text_attribute_of, color_attribute_of, is_color_digit};
use crate::scanner::{scan, scan_body, ESC, OPEN_BRACKET, SEPARATOR, TERMINATOR};

verus! {

/// `ESC '[' code 'm'`, where `code` is one of the text-attribute digits,
/// scans to exactly the one attribute that the digit names, over all four
/// bytes.
pub proof fn lemma_single_text_attribute(code: u8)
    requires
        text_attribute_of(code) is Some,
    ensures
        scan(seq![ESC, OPEN_BRACKET, code, TERMINATOR]) == Some(
            (seq![text_attribute_of(code).unwrap()], 4nat),
        ),
{
    let s = seq![ESC, OPEN_BRACKET, code, TERMINATOR];
    assert(s[2] == code && s[3] == TERMINATOR);
    assert(seq![].push(text_attribute_of(code).unwrap()) =~= seq![text_attribute_of(code).unwrap()]);
}

/// `ESC '[' prefix digit 'm'`, where `prefix` is `'3'` (foreground) or `'4'`
/// (background) and `digit` is one of `'0'..='7'`, scans to exactly the one
/// color that the pair names, over all five bytes.
pub proof fn lemma_single_color(prefix: u8, digit: u8)
    requires
        prefix == 0x33 || prefix == 0x34,
        is_color_digit(digit),
    ensures
        color_attribute_of(prefix, digit) is Some,
        scan(seq![ESC, OPEN_BRACKET, prefix, digit, TERMINATOR]) == Some(
            (seq![color_attribute_of(prefix, digit).unwrap()], 5nat),
        ),
{
    let s = seq![ESC, OPEN_BRACKET, prefix, digit, TERMINATOR];
    assert(s[2] == prefix && s[3] == digit && s[4] == TERMINATOR);
    assert(seq![].push(color_attribute_of(prefix, digit).unwrap()) =~= seq![
        color_attribute_of(prefix, digit).unwrap(),
    ]);
}

/// A body read from `i` that succeeds on `s` ends on a terminator within `s`,
/// past `i`.
proof fn lemma_body_span(s: Seq<u8>, i: nat, acc: Seq<AnsiTextFormatting>)
    requires
        scan_body(s, i, acc) is Some,
    ensures
        i < scan_body(s, i, acc).unwrap().1 <= s.len(),
        s[scan_body(s, i, acc).unwrap().1 - 1] == TERMINATOR,
    decreases s.len() - i,
{
    let k = i as int;
    if s[k] == TERMINATOR {
    } else if s[k] == SEPARATOR {
        if k + 1 < s.len() && s[k + 1] == SEPARATOR {
            lemma_body_span(s, i + 1, seq![]);
        } else {
            lemma_body_span(s, i + 1, acc);
        }
    } else if s[k + 1] == TERMINATOR {
    } else if s[k + 1] == SEPARATOR {
        lemma_body_span(s, i + 1, acc.push(text_attribute_of(s[k]).unwrap()));
    } else if s[k + 2] == SEPARATOR {
        lemma_body_span(s, i + 2, acc.push(color_attribute_of(s[k], s[k + 1]).unwrap()));
    }
}

/// A body read from `i` that succeeds on `s` looks at no byte past the
/// terminator it ends on: any `t` that agrees with `s` up to there reads the
/// same.
proof fn lemma_body_reads_only_its_span(
    s: Seq<u8>,
    t: Seq<u8>,
    i: nat,
    acc: Seq<AnsiTextFormatting>,
)
    requires
        scan_body(s, i, acc) is Some,
        scan_body(s, i, acc).unwrap().1 <= t.len(),
        forall|j: int| 0 <= j < scan_body(s, i, acc).unwrap().1 ==> #[trigger] t[j] == s[j],
    ensures
        scan_body(t, i, acc) == scan_body(s, i, acc),
    decreases s.len() - i,
{
    let k = i as int;
    lemma_body_span(s, i, acc);
    assert(t[k] == s[k]);
    if s[k] == TERMINATOR {
    } else if s[k] == SEPARATOR {
        if k + 1 < s.len() && s[k + 1] == SEPARATOR {
            lemma_body_span(s, i + 1, seq![]);
            lemma_body_reads_only_its_span(s, t, i + 1, seq![]);
            assert(t[k + 1] == s[k + 1]);
        } else {
            lemma_body_span(s, i + 1, acc);
            lemma_body_reads_only_its_span(s, t, i + 1, acc);
            assert(t[k + 1] == s[k + 1]);
        }
    } else if s[k + 1] == TERMINATOR {
        assert(t[k + 1] == s[k + 1]);
    } else if s[k + 1] == SEPARATOR {
        let a = text_attribute_of(s[k]).unwrap();
        lemma_body_span(s, i + 1, acc.push(a));
        lemma_body_reads_only_its_span(s, t, i + 1, acc.push(a));
        assert(t[k + 1] == s[k + 1]);
    } else {
        assert(t[k + 1] == s[k + 1]);
        assert(t[k + 2] == s[k + 2]);
        if s[k + 2] == SEPARATOR {
            let a = color_attribute_of(s[k], s[k + 1]).unwrap();
            lemma_body_reads_only_its_span(s, t, i + 2, acc.push(a));
        }
    }
}

/// A successful scan covers exactly one sequence: the bytes it spans begin
/// with `ESC '['` and end with the first terminator that closes the sequence,
/// and no byte after them is read: appending anything to those bytes scans
/// to the same attributes and the same span.
pub proof fn lemma_scan_reads_only_its_span(s: Seq<u8>, rest: Seq<u8>)
    requires
        scan(s) is Some,
    ensures
        3 <= scan(s).unwrap().1 <= s.len(),
        s[0] == ESC && s[1] == OPEN_BRACKET,
        s[scan(s).unwrap().1 - 1] == TERMINATOR,
        scan(s.take(scan(s).unwrap().1 as int) + rest) == scan(s),
{
    let n = scan(s).unwrap().1 as int;
    let t = s.take(n) + rest;
    lemma_body_span(s, 2, seq![]);
    assert forall|j: int| 0 <= j < n implies #[trigger] t[j] == s[j] by {
        assert(t[j] == s.take(n)[j]);
    }
    lemma_body_reads_only_its_span(s, t, 2, seq![]);
    assert(t[0] == s[0] && t[1] == s[1]);
}

} // verus!
