//! Ethereum-side account addresses: a 20-byte identifier, parsed from the
//! hexadecimal text form used in configuration files.

use vstd::prelude::*;

verus! {

/// A 20-byte Ethereum-side account address held as plain bytes.
#[derive(Clone, Copy, Debug)]
pub struct EthAddr {
    pub bytes: [u8; 20],
}

/// The all-zero address, reserved in configuration as a sentinel meaning
/// "derive this value from context" rather than "use this literal address".
pub open spec fn is_zero_addr(b: Seq<u8>) -> bool {
    forall|i: int| 0 <= i < b.len() ==> b[i] == 0
}

/// True of the characters whose byte the hex decoder accepts as a digit.
pub open spec fn is_hex_digit(c: char) -> bool {
    ('0' <= c && c <= '9') || ('a' <= c && c <= 'f') || ('A' <= c && c <= 'F')
}

/// The whitespace characters the hex decoder skips between digits.
pub open spec fn is_hex_whitespace(c: char) -> bool {
    c == ' ' || c == '\r' || c == '\n' || c == '\t'
}

/// Numeric value of a hex digit.
pub open spec fn hex_digit_value(c: char) -> u8 {
    if '0' <= c && c <= '9' {
        ((c as u8) - ('0' as u8)) as u8
    } else if 'a' <= c && c <= 'f' {
        ((c as u8) - ('a' as u8) + 10) as u8
    } else {
        ((c as u8) - ('A' as u8) + 10) as u8
    }
}

/// The input with a single leading "0x" removed, if present.
pub open spec fn strip_hex_prefix(s: Seq<char>) -> Seq<char> {
    if s.len() >= 2 && s[0] == '0' && s[1] == 'x' {
        s.skip(2)
    } else {
        s
    }
}

/// The hex digits of the input, in order, with skipped whitespace removed.
pub open spec fn hex_digits_of(s: Seq<char>) -> Seq<char> {
    s.filter(|c: char| is_hex_digit(c))
}

/// Whether the address parser accepts the input: after stripping one
/// optional "0x" prefix, every character is a hex digit or skippable
/// whitespace, and exactly 40 hex digits remain.
pub open spec fn parses_as_eth_address(s: Seq<char>) -> bool {
    let t = strip_hex_prefix(s);
    (forall|i: int| 0 <= i < t.len() ==> is_hex_digit(t[i]) || is_hex_whitespace(t[i]))
        && hex_digits_of(t).len() == 40
}

/// The 20 bytes an accepted input denotes: consecutive hex-digit pairs,
/// big endian within each byte.
pub open spec fn eth_address_bytes_of(s: Seq<char>) -> Seq<u8> {
    let d = hex_digits_of(strip_hex_prefix(s));
    Seq::new(20, |i: int| mul_16_add(hex_digit_value(d[2 * i]), hex_digit_value(d[2 * i + 1])))
}

/// High nibble shifted into place, plus the low nibble.
pub open spec fn mul_16_add(hi: u8, lo: u8) -> u8
    recommends
        hi < 16,
        lo < 16,
{
    (16 * hi + lo) as u8
}

/// Relies on the `FromStr` impl of `ethers_core::types::H160` (from the
/// `fixed-hash` crate, decoding with `rustc-hex`): it strips one optional
/// "0x" prefix, skips ASCII whitespace, and succeeds exactly when what
/// remains is 40 hex digits, yielding those digits' 20 bytes in order.
#[verifier::external_body]
pub(crate) fn parse_eth_address(s: &str) -> (r: Option<EthAddr>)
    ensures
        match r {
            Some(a) => parses_as_eth_address(s@) && a.bytes@ == eth_address_bytes_of(s@),
            None => !parses_as_eth_address(s@),
        },
{
    match <ethers_core::types::H160 as core::str::FromStr>::from_str(s) {
        Ok(h) => Some(EthAddr { bytes: h.0 }),
        Err(_) => None,
    }
}

impl EthAddr {
    /// Whether this is the reserved zero-sentinel address.
    pub fn is_zero(&self) -> (r: bool)
        ensures
            r <==> is_zero_addr(self.bytes@),
    {
        let mut i: usize = 0;
        while i < 20
            invariant
                i <= 20,
                forall|j: int| 0 <= j < i ==> self.bytes@[j] == 0,
            decreases 20 - i,
        {
            if self.bytes[i] != 0 {
                return false;
            }
            i += 1;
        }
        true
    }
}

} // verus!
