//! The little of HTTP that the decisions depend on.

use vstd::prelude::*;
use vstd::utf8::encode_utf8;

verus! {

/// Whether `status` is a success code, that is one of 200 to 299.
pub open spec fn success_code(status: u16) -> bool {
    200 <= status < 300
}

/// Whether a byte may stand in the value of a header: a tab, or anything
/// from 32 up but 127.
pub open spec fn header_byte(b: u8) -> bool {
    b == 9 || (b >= 32 && b != 127)
}

/// Whether `value` may stand as the value of a header: every byte of its
/// UTF-8 form may.
pub open spec fn header_text(value: Seq<char>) -> bool {
    forall|i: int|
        0 <= i < encode_utf8(value).len() ==> header_byte(#[trigger] encode_utf8(value)[i])
}

/// Tells whether a response status reports success.
pub fn is_success(status: u16) -> (yes: bool)
    ensures
        yes == success_code(status),
{
    200 <= status && status < 300
}

/// Tells whether `value` may stand as the value of a header.
pub fn is_header_text(value: &str) -> (yes: bool)
    ensures
        yes == header_text(value@),
{
    let bytes = value.as_bytes();
    let mut i: usize = 0;
    while i < bytes.len()
        invariant
            i <= bytes.len(),
            bytes@ == encode_utf8(value@),
            forall|k: int| 0 <= k < i ==> header_byte(#[trigger] bytes@[k]),
        decreases bytes.len() - i,
    {
        let b: u8 = bytes[i];
        if !(b == 9 || (b >= 32 && b != 127)) {
            return false;
        }
        i = i + 1;
    }
    true
}

} // verus!
