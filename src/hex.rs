//! Hex colour notation: `#RGB` and `#RRGGBB`, the `#` optional, digits in
//! either case.

use vstd::prelude::*;

use crate::error::{is_invalid_hex, VersionError};

verus! {

/// The value of one hexadecimal digit, upper or lower case.
pub open spec fn hex_digit(c: char) -> Option<u8> {
    let k = c as u32;
    if 48 <= k && k <= 57 {
        Some((k - 48) as u8)
    } else if 65 <= k && k <= 70 {
        Some((k - 55) as u8)
    } else if 97 <= k && k <= 102 {
        Some((k - 87) as u8)
    } else {
        None
    }
}

/// The channel that two digits spell, high digit first.
pub open spec fn channel(hi: char, lo: char) -> Option<u8> {
    match (hex_digit(hi), hex_digit(lo)) {
        (Some(h), Some(l)) => Some((h * 16 + l) as u8),
        _ => None,
    }
}

/// The digits of a colour: the text with one leading `#` removed, if there is one.
pub open spec fn strip_hash(s: Seq<char>) -> Seq<char> {
    if s.len() > 0 && s[0] == '#' {
        s.drop_first()
    } else {
        s
    }
}

/// Three channels, when all three were read.
pub open spec fn join(r: Option<u8>, g: Option<u8>, b: Option<u8>) -> Option<(u8, u8, u8)> {
    match (r, g, b) {
        (Some(r), Some(g), Some(b)) => Some((r, g, b)),
        _ => None,
    }
}

/// The colour that bare digits (no `#`) denote: six digits, two per
/// channel, or three, each doubled.
pub open spec fn digits_color(t: Seq<char>) -> Option<(u8, u8, u8)> {
    if t.len() == 6 {
        join(channel(t[0], t[1]), channel(t[2], t[3]), channel(t[4], t[5]))
    } else if t.len() == 3 {
        join(channel(t[0], t[0]), channel(t[1], t[1]), channel(t[2], t[2]))
    } else {
        None
    }
}

/// The colour that a hex string denotes, or `None` when it denotes none.
pub open spec fn hex_color(s: Seq<char>) -> Option<(u8, u8, u8)> {
    digits_color(strip_hash(s))
}

/// One hex digit's value.
fn digit_value(c: char) -> (r: Option<u8>)
    ensures
        r == hex_digit(c),
{
    let k = c as u32;
    if 48 <= k && k <= 57 {
        Some((k - 48) as u8)
    } else if 65 <= k && k <= 70 {
        Some((k - 55) as u8)
    } else if 97 <= k && k <= 102 {
        Some((k - 87) as u8)
    } else {
        None
    }
}

/// The channel two hex digits spell.
fn channel_value(hi: char, lo: char) -> (r: Option<u8>)
    ensures
        r == channel(hi, lo),
{
    match (digit_value(hi), digit_value(lo)) {
        (Some(h), Some(l)) => Some(h * 16 + l),
        _ => None,
    }
}

/// The channels that the digits `t` spell, `#` already removed.
fn read_channels(t: &str) -> (r: Option<(u8, u8, u8)>)
    ensures
        r == digits_color(t@),
{
    let m = t.unicode_len();
    let (r, g, b) = if m == 6 {
        (
            channel_value(t.get_char(0), t.get_char(1)),
            channel_value(t.get_char(2), t.get_char(3)),
            channel_value(t.get_char(4), t.get_char(5)),
        )
    } else if m == 3 {
        (
            channel_value(t.get_char(0), t.get_char(0)),
            channel_value(t.get_char(1), t.get_char(1)),
            channel_value(t.get_char(2), t.get_char(2)),
        )
    } else {
        return None;
    };
    match (r, g, b) {
        (Some(r), Some(g), Some(b)) => Some((r, g, b)),
        _ => None,
    }
}

/// Parses `#RRGGBB` or `#RGB` (the `#` optional, digits in either case) into
/// red, green and blue.
///
/// A three-digit colour doubles each digit: `#F80` is `#FF8800`. Any other
/// length, or a character that is not a hex digit, is an `InvalidHexColor`
/// error that holds the text after its leading `#`.
pub fn parse_hex(hex: &str) -> (r: Result<(u8, u8, u8), VersionError>)
    ensures
        match r {
            Ok(c) => hex_color(hex@) == Some(c),
            Err(e) => hex_color(hex@) is None && is_invalid_hex(e, strip_hash(hex@)),
        },
{
    let n = hex.unicode_len();
    let t: &str = if n > 0 && hex.get_char(0) == '#' {
        hex.substring_char(1, n)
    } else {
        hex
    };
    match read_channels(t) {
        Some(c) => Ok(c),
        None => Err(VersionError::invalid_hex(t)),
    }
}

/// The upper-case hex digit for a value below 16.
pub open spec fn digit_char(v: u8) -> char {
    if v < 10 {
        (48 + v) as char
    } else {
        (55 + v) as char
    }
}

/// `(r, g, b)` written as six upper-case hex digits, `RRGGBB`.
pub open spec fn hex6(r: u8, g: u8, b: u8) -> Seq<char> {
    seq![
        digit_char(r / 16),
        digit_char(r % 16),
        digit_char(g / 16),
        digit_char(g % 16),
        digit_char(b / 16),
        digit_char(b % 16),
    ]
}

proof fn lemma_digit_round_trip(v: u8)
    requires
        v < 16,
    ensures
        hex_digit(digit_char(v)) == Some(v),
{
}

proof fn lemma_channel_round_trip(v: u8)
    ensures
        channel(digit_char(v / 16), digit_char(v % 16)) == Some(v),
{
    lemma_digit_round_trip(v / 16);
    lemma_digit_round_trip(v % 16);
}

/// Writing a colour as six hex digits and reading it back gives the same
/// colour, with or without a leading `#`.
pub proof fn lemma_hex_round_trip(r: u8, g: u8, b: u8)
    ensures
        hex_color(hex6(r, g, b)) == Some((r, g, b)),
        hex_color(seq!['#'] + hex6(r, g, b)) == Some((r, g, b)),
{
    lemma_channel_round_trip(r);
    lemma_channel_round_trip(g);
    lemma_channel_round_trip(b);
    let t = hex6(r, g, b);
    assert((seq!['#'] + t).drop_first() =~= t);
    assert(strip_hash(t) == t);
}

} // verus!
