//! Percent-encoding of text that goes into a URL.
//!
//! A text is encoded byte by byte of its UTF-8 form. The unreserved
//! characters (ASCII letters, digits, `-`, `.`, `_` and `~`) stand for
//! themselves; every other byte is written as `%` and two upper-case
//! hexadecimal digits. Nothing of an encoded text can end a parameter, begin
//! a fragment or be read as a separator.

use vstd::prelude::*;
use vstd::string::*;
use vstd::utf8::encode_utf8;
use crate::percent::digit_char;

verus! {

/// Whether `b` is an ASCII letter, a digit, or one of `-`, `.`, `_`, `~`.
pub open spec fn is_unreserved(b: u8) -> bool {
    ||| 0x41 <= b <= 0x5a
    ||| 0x61 <= b <= 0x7a
    ||| 0x30 <= b <= 0x39
    ||| b == 0x2d
    ||| b == 0x2e
    ||| b == 0x5f
    ||| b == 0x7e
}

/// The character of a hexadecimal digit `d` in `0..=15`, letters in upper
/// case.
pub open spec fn hex_char(d: int) -> char {
    if d < 10 {
        digit_char(d)
    } else if d == 10 {
        'A'
    } else if d == 11 {
        'B'
    } else if d == 12 {
        'C'
    } else if d == 13 {
        'D'
    } else if d == 14 {
        'E'
    } else {
        'F'
    }
}

/// What one byte is written as.
pub open spec fn escaped_byte(b: u8) -> Seq<char> {
    if is_unreserved(b) {
        seq![b as char]
    } else {
        seq!['%', hex_char(b as int / 16), hex_char(b as int % 16)]
    }
}

/// What a run of bytes is written as.
pub open spec fn escaped(bytes: Seq<u8>) -> Seq<char>
    decreases bytes.len(),
{
    if bytes.len() == 0 {
        Seq::<char>::empty()
    } else {
        escaped(bytes.drop_last()) + escaped_byte(bytes.last())
    }
}

/// The percent-encoding of `text`.
pub open spec fn percent_encoded(text: Seq<char>) -> Seq<char> {
    escaped(encode_utf8(text))
}

/// The one-character text of a hexadecimal digit.
fn hex_text(d: u8) -> (text: &'static str)
    requires
        d < 16,
    ensures
        text@ == seq![hex_char(d as int)],
{
    let digits = "0123456789ABCDEF";
    proof {
        reveal_strlit("0123456789ABCDEF");
    }
    let text = digits.substring_ascii(d as usize, d as usize + 1);
    assert(text@ =~= seq![hex_char(d as int)]);
    text
}

/// The one-character text of an unreserved byte.
fn plain_text(b: u8) -> (text: &'static str)
    requires
        is_unreserved(b),
    ensures
        text@ == seq![b as char],
{
    let upper = "ABCDEFGHIJKLMNOPQRSTUVWXYZ";
    let lower = "abcdefghijklmnopqrstuvwxyz";
    let digits = "0123456789";
    let marks = "-._~";
    proof {
        reveal_strlit("ABCDEFGHIJKLMNOPQRSTUVWXYZ");
        reveal_strlit("abcdefghijklmnopqrstuvwxyz");
        reveal_strlit("0123456789");
        reveal_strlit("-._~");
    }
    let text = if 0x41 <= b && b <= 0x5a {
        let at: usize = (b - 0x41) as usize;
        upper.substring_ascii(at, at + 1)
    } else if 0x61 <= b && b <= 0x7a {
        let at: usize = (b - 0x61) as usize;
        lower.substring_ascii(at, at + 1)
    } else if 0x30 <= b && b <= 0x39 {
        let at: usize = (b - 0x30) as usize;
        digits.substring_ascii(at, at + 1)
    } else if b == 0x2d {
        marks.substring_ascii(0, 1)
    } else if b == 0x2e {
        marks.substring_ascii(1, 2)
    } else if b == 0x5f {
        marks.substring_ascii(2, 3)
    } else {
        marks.substring_ascii(3, 4)
    };
    assert(text@ =~= seq![b as char]);
    text
}

/// Appends the percent-encoding of `text` to `out`.
pub fn push_percent_encoded(out: &mut String, text: &str)
    ensures
        final(out)@ == old(out)@ + percent_encoded(text@),
{
    let bytes = text.as_bytes();
    let mut i: usize = 0;
    assert(bytes@.take(0) =~= Seq::<u8>::empty());
    while i < bytes.len()
        invariant
            i <= bytes.len(),
            bytes@ == encode_utf8(text@),
            out@ == old(out)@ + escaped(bytes@.take(i as int)),
        decreases bytes.len() - i,
    {
        let b: u8 = bytes[i];
        let ghost before = out@;
        assert(bytes@.take(i as int + 1).drop_last() =~= bytes@.take(i as int));
        if is_unreserved_byte(b) {
            out.append(plain_text(b));
        } else {
            out.append("%");
            out.append(hex_text(b / 16));
            out.append(hex_text(b % 16));
            proof {
                reveal_strlit("%");
            }
        }
        assert(out@ =~= before + escaped_byte(b));
        i = i + 1;
    }
    assert(bytes@.take(i as int) =~= bytes@);
}

/// Tells whether a byte stands for itself in an encoded text.
pub fn is_unreserved_byte(b: u8) -> (yes: bool)
    ensures
        yes == is_unreserved(b),
{
    (0x41 <= b && b <= 0x5a) || (0x61 <= b && b <= 0x7a) || (0x30 <= b && b <= 0x39) || b == 0x2d
        || b == 0x2e || b == 0x5f || b == 0x7e
}

/// Percent-encodes `text`.
pub fn percent_encode(text: &str) -> (encoded: String)
    ensures
        encoded@ == percent_encoded(text@),
{
    let mut encoded = String::new();
    push_percent_encoded(&mut encoded, text);
    encoded
}

} // verus!
