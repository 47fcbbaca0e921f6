//! Deciding whether a header value is readable text, and decoding it.
//!
//! HTTP clients hand header values out as bytes and decode them to text
//! only when every byte is visible ASCII (the printable range, plus the
//! horizontal tab). The same rule is applied here, so a `Location` value
//! that does not decode is treated as if it were absent.

use vstd::prelude::*;

verus! {

/// Whether `b` is a visible ASCII byte: the printable range 32-126, or
/// the horizontal tab.
pub open spec fn spec_is_visible_ascii(b: u8) -> bool {
    32 <= b < 127 || b == 9
}

/// Whether every byte of `v` is visible ASCII, so that `v` decodes as text.
pub open spec fn spec_is_text(v: Seq<u8>) -> bool {
    forall|i: int| 0 <= i < v.len() ==> spec_is_visible_ascii(v[i])
}

/// The text that an ASCII byte string decodes to: each byte becomes the
/// character with the same code point.
pub open spec fn spec_decode_text(v: Seq<u8>) -> Seq<char> {
    v.map_values(|b: u8| b as char)
}

/// Whether every byte of `v` is visible ASCII.
pub fn is_text(v: &[u8]) -> (r: bool)
    ensures
        r == spec_is_text(v@),
{
    let mut i: usize = 0;
    while i < v.len()
        invariant
            0 <= i <= v@.len(),
            forall|j: int| 0 <= j < i ==> spec_is_visible_ascii(v@[j]),
        decreases v@.len() - i,
    {
        let b = v[i];
        if !(32 <= b && b < 127 || b == 9) {
            return false;
        }
        i = i + 1;
    }
    true
}

/// Relies on `String::from_utf8`: bytes below 128 are ASCII, which is valid
/// UTF-8, and each such byte decodes to the character with its code point.
#[verifier::external_body]
pub(crate) fn decode_ascii(v: &Vec<u8>) -> (r: String)
    requires
        forall|i: int| 0 <= i < v@.len() ==> v@[i] < 128,
    ensures
        r@ == spec_decode_text(v@),
{
    match String::from_utf8(v.clone()) {
        Ok(s) => s,
        Err(_) => String::new(),
    }
}

} // verus!
