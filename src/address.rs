use vstd::prelude::*;

verus! {

/// The lowercase hexadecimal digit of a value below sixteen.
pub open spec fn hex_digit(n: int) -> char {
    seq!['0', '1', '2', '3', '4', '5', '6', '7', '8', '9', 'a', 'b', 'c', 'd', 'e', 'f'][n]
}

/// Two lowercase hexadecimal digits per byte, high nibble first.
pub open spec fn hex_lower(b: Seq<u8>) -> Seq<char> {
    Seq::new(
        2 * b.len(),
        |i: int|
            if i % 2 == 0 {
                hex_digit((b[i / 2] / 16) as int)
            } else {
                hex_digit((b[i / 2] % 16) as int)
            },
    )
}

/// The canonical text of an address: `0x` and the bytes in lowercase hex.
pub open spec fn address_text(b: Seq<u8>) -> Seq<char> {
    "0x"@ + hex_lower(b)
}

/// A 20-byte contract address.
#[derive(Debug, Clone, Copy, PartialEq, Eq)]
pub struct Address {
    pub bytes: [u8; 20],
}

impl Address {
    /// The address's canonical text, as `address_text` gives it.
    pub fn to_hex_string(&self) -> (r: String)
        ensures
            r@ == address_text(self.bytes@),
    {
        h160_debug_text(self.bytes)
    }
}

/// Relies on the `Debug` impl of ethers' `H160` (fixed-hash 0.8), which writes
/// `{:#x}`: `0x`, then each byte as two lowercase hex digits, in order.
#[verifier::external_body]
fn h160_debug_text(b: [u8; 20]) -> (r: String)
    ensures
        r@ == address_text(b@),
{
    format!("{:?}", ethers::types::H160::from(b))
}

} // verus!
