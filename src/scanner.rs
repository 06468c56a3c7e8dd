use vstd::prelude::*;
use crate::attribute::{
    AnsiTextFormatting, text_attribute_of, color_attribute_of, is_ansi_text_attribute,
    is_ansi_color_attribute,
};
use crate::cursor::ByteCursor;

verus! {

/// The escape byte that opens every sequence.
pub const ESC: u8 = 0x1b;

/// `'['`, the byte that follows `ESC`.
pub const OPEN_BRACKET: u8 = 0x5b;

/// `';'`, the separator between parameters.
pub const SEPARATOR: u8 = 0x3b;

/// `'m'`, the byte that ends a sequence.
pub const TERMINATOR: u8 = 0x6d;

/// Reads the body of a sequence from index `i` of `s`, where a parameter, a
/// separator or the terminator may stand; `acc` holds the attributes kept so
/// far. On success gives the attributes and the index just past the
/// terminator.
///
/// A parameter is one text-attribute byte followed by a separator or the
/// terminator, or a color prefix and digit, which must be followed by one of
/// the two as well. A separator directly followed by another separator
/// discards every attribute gathered so far.
pub open spec fn scan_body(s: Seq<u8>, i: nat, acc: Seq<AnsiTextFormatting>) -> Option<
    (Seq<AnsiTextFormatting>, nat),
>
    decreases s.len() - i,
{
    if i >= s.len() {
        None
    } else if s[i as int] == TERMINATOR {
        Some((acc, i + 1))
    } else if s[i as int] == SEPARATOR {
        if i + 1 < s.len() && s[i as int + 1] == SEPARATOR {
            scan_body(s, i + 1, seq![])
        } else {
            scan_body(s, i + 1, acc)
        }
    } else if i + 1 >= s.len() {
        None
    } else if s[i as int + 1] == TERMINATOR {
        match text_attribute_of(s[i as int]) {
            Some(a) => Some((acc.push(a), i + 2)),
            None => None,
        }
    } else if s[i as int + 1] == SEPARATOR {
        match text_attribute_of(s[i as int]) {
            Some(a) => scan_body(s, i + 1, acc.push(a)),
            None => None,
        }
    } else {
        match color_attribute_of(s[i as int], s[i as int + 1]) {
            Some(a) => if i + 2 >= s.len() {
                None
            } else if s[i as int + 2] == TERMINATOR {
                Some((acc.push(a), i + 3))
            } else if s[i as int + 2] == SEPARATOR {
                scan_body(s, i + 2, acc.push(a))
            } else {
                None
            },
            None => None,
        }
    }
}

/// What a scan of `s` from its first byte yields: the attributes of the
/// sequence `ESC '[' body 'm'` that `s` starts with, and the number of bytes
/// that sequence spans; `None` where `s` does not start with a valid one.
pub open spec fn scan(s: Seq<u8>) -> Option<(Seq<AnsiTextFormatting>, nat)> {
    if s.len() >= 2 && s[0] == ESC && s[1] == OPEN_BRACKET {
        scan_body(s, 2, seq![])
    } else {
        None
    }
}

/// Scans one escape sequence from the cursor. On success the cursor has moved
/// past exactly the bytes of the sequence; on failure it has moved forward by
/// an unspecified amount.
pub fn eat_parse_escape_codes(it: &mut ByteCursor) -> (r: Option<Vec<AnsiTextFormatting>>)
    ensures
        r is Some <==> scan(old(it)@) is Some,
        r is Some ==> r.unwrap()@ == scan(old(it)@).unwrap().0,
        r is Some ==> final(it)@ == old(it)@.skip(scan(old(it)@).unwrap().1 as int),
        final(it)@.len() <= old(it)@.len(),
        final(it)@ == old(it)@.skip(old(it)@.len() - final(it)@.len()),
{
    let ghost s = it@;
    match it.next_byte() {
        Some(b) => if b != ESC {
            proof { assert(it@ =~= s.skip(1)); }
            return None;
        },
        None => {
            proof { assert(it@ =~= s.skip(0)); }
            return None;
        },
    }
    match it.next_byte() {
        Some(b) => if b != OPEN_BRACKET {
            proof { assert(it@ =~= s.skip(2)); }
            return None;
        },
        None => {
            proof { assert(it@ =~= s.skip(1)); }
            return None;
        },
    }
    proof { assert(it@ =~= s.skip(2)); }
    let mut result: Vec<AnsiTextFormatting> = Vec::new();
    // a byte already taken from the cursor but not yet acted on
    let mut pending: Option<u8> = None;
    loop
        invariant
            s == old(it)@,
            s.len() - it@.len() >= 2,
            it@ == s.skip(s.len() - it@.len()),
            scan(s) == scan_body(s, 2, seq![]),
            pending is None ==> scan_body(s, (s.len() - it@.len()) as nat, result@) == scan(s),
            pending is Some ==> s[s.len() - it@.len() - 1] == pending.unwrap() && scan_body(
                s,
                (s.len() - it@.len() - 1) as nat,
                result@,
            ) == scan(s),
        decreases it@.len() + if pending is Some { 1int } else { 0int },
    {
        let b = match pending {
            Some(b) => b,
            None => match it.next_byte() {
                Some(b) => b,
                None => return None,
            },
        };
        // `b` stands at index `q` of `s`, and the cursor just past it
        let ghost q: nat = (s.len() - it@.len() - 1) as nat;
        proof {
            assert(it@ =~= s.skip(q + 1int));
            assert(scan_body(s, q, result@) == scan(s));
        }
        if b == TERMINATOR {
            return Some(result);
        }
        if b == SEPARATOR {
            match it.next_byte() {
                None => return None,
                Some(nb) => {
                    proof { assert(it@ =~= s.skip(q + 2int)); }
                    if nb == SEPARATOR {
                        result = Vec::new();
                        assert(result@ =~= seq![]);
                    }
                    pending = Some(nb);
                },
            }
        } else {
            let c = match it.next_byte() {
                Some(c) => c,
                None => return None,
            };
            proof { assert(it@ =~= s.skip(q + 2int)); }
            if c == TERMINATOR {
                match is_ansi_text_attribute(b) {
                    Some(a) => {
                        result.push(a);
                        return Some(result);
                    },
                    None => return None,
                }
            } else if c == SEPARATOR {
                match is_ansi_text_attribute(b) {
                    Some(a) => {
                        result.push(a);
                        pending = Some(SEPARATOR);
                    },
                    None => return None,
                }
            } else {
                match is_ansi_color_attribute(b, c) {
                    Some(a) => {
                        result.push(a);
                        match it.next_byte() {
                            None => return None,
                            Some(d) => {
                                proof { assert(it@ =~= s.skip(q + 3int)); }
                                if d == TERMINATOR {
                                    return Some(result);
                                } else if d == SEPARATOR {
                                    pending = Some(SEPARATOR);
                                } else {
                                    return None;
                                }
                            },
                        }
                    },
                    None => return None,
                }
            }
        }
    }
}

/// Scans the escape sequence that `bytes` starts with.
pub fn parse_escape_code_prefix(bytes: &[u8]) -> (r: Option<Vec<AnsiTextFormatting>>)
    ensures
        r is Some <==> scan(bytes@) is Some,
        r is Some ==> r.unwrap()@ == scan(bytes@).unwrap().0,
{
    let mut it = ByteCursor::new(bytes);
    eat_parse_escape_codes(&mut it)
}

} // verus!
