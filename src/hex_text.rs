//! Lowercase hexadecimal text for byte strings.
use vstd::prelude::*;

verus! {

/// The lowercase hexadecimal digit for a value below sixteen.
pub open spec fn hex_digit(n: u8) -> char {
    seq!['0', '1', '2', '3', '4', '5', '6', '7', '8', '9', 'a', 'b', 'c', 'd', 'e', 'f'][n as int]
}

/// Two lowercase hexadecimal digits per byte, high nibble first.
pub open spec fn hex_chars(b: Seq<u8>) -> Seq<char>
    decreases b.len(),
{
    if b.len() == 0 {
        Seq::empty()
    } else {
        hex_chars(b.drop_last()) + seq![hex_digit(b.last() / 16), hex_digit(b.last() % 16)]
    }
}

/// Relies on `hex::encode`: each byte becomes two lowercase hexadecimal digits, in order.
#[verifier::external_body]
pub(crate) fn hex_encode(b: &[u8]) -> (r: String)
    ensures
        r@ == hex_chars(b@),
{
    hex::encode(b)
}

} // verus!
