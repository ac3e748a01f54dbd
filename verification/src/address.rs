//! Peripheral hardware addresses.
//!
//! A peripheral is identified by a six-byte hardware address, written by
//! callers as the colon-separated hexadecimal form `"AA:BB:CC:DD:EE:FF"`.
//! Parsing is total and rejects every malformed string before any platform
//! call is made.

use vstd::prelude::*;
use crate::errors::BleError;

verus! {

/// A character is a hexadecimal digit (`0-9`, `a-f`, `A-F`).
pub open spec fn is_hex_digit(c: char) -> bool {
    (48 <= c as int && c as int <= 57)  // '0' ..= '9'
    || (97 <= c as int && c as int <= 102)  // 'a' ..= 'f'
    || (65 <= c as int && c as int <= 70)  // 'A' ..= 'F'
}

/// The numeric value of a hexadecimal digit.
pub open spec fn hex_digit_value(c: char) -> int {
    if 48 <= c as int && c as int <= 57 {
        c as int - 48
    } else if 97 <= c as int && c as int <= 102 {
        c as int - 87
    } else {
        c as int - 55
    }
}

/// Group `k` (0-based, six groups in all) of a candidate address string is
/// well-formed: two hexadecimal digits at positions `3k` and `3k + 1`,
/// followed by a colon separator except after the last group.
pub open spec fn address_group_ok(s: Seq<char>, k: int) -> bool {
    &&& is_hex_digit(s[3 * k])
    &&& is_hex_digit(s[3 * k + 1])
    &&& (k < 5 ==> s[3 * k + 2] == ':')
}

/// A string is a well-formed six-byte colon-separated hexadecimal address:
/// exactly 17 characters, `"XX:XX:XX:XX:XX:XX"`.
pub open spec fn valid_address_chars(s: Seq<char>) -> bool {
    &&& s.len() == 17
    &&& forall|k: int| 0 <= k < 6 ==> #[trigger] address_group_ok(s, k)
}

/// The value of byte `k` of a well-formed address string.
pub open spec fn byte_at(s: Seq<char>, k: int) -> int {
    16 * hex_digit_value(s[3 * k]) + hex_digit_value(s[3 * k + 1])
}

/// The value of the first `k` bytes of a well-formed address string, read as
/// a big-endian integer.
pub open spec fn prefix_value(s: Seq<char>, k: int) -> int
    decreases k,
{
    if k <= 0 {
        0
    } else {
        256 * prefix_value(s, k - 1) + byte_at(s, k - 1)
    }
}

/// The 48-bit integer value of a well-formed address string: its six bytes
/// read big-endian, so `"AA:BB:CC:DD:EE:FF"` has value `0xAABBCCDDEEFF`.
pub open spec fn address_value(s: Seq<char>) -> int {
    prefix_value(s, 6)
}

/// `256^k` for the small exponents the parser needs.
pub open spec fn pow256(k: int) -> int {
    if k <= 0 {
        1
    } else if k == 1 {
        0x100
    } else if k == 2 {
        0x10000
    } else if k == 3 {
        0x1000000
    } else if k == 4 {
        0x100000000
    } else if k == 5 {
        0x10000000000
    } else {
        0x1000000000000
    }
}

/// A parsed six-byte peripheral hardware address, held as its 48-bit value.
#[derive(Clone, Copy, Debug, PartialEq, Eq, Hash, Structural)]
pub struct PeripheralAddress {
    pub value: u64,
}

impl PeripheralAddress {
    /// A well-formed address fits in 48 bits.
    pub open spec fn wf(self) -> bool {
        self.value < 0x1000000000000
    }
}

/// The numeric value of one character, if it is a hexadecimal digit.
fn hex_char_value(c: char) -> (v: Option<u8>)
    ensures
        match v {
            Some(x) => is_hex_digit(c) && x as int == hex_digit_value(c) && x < 16,
            None => !is_hex_digit(c),
        },
{
    let x = c as u32;
    if 48 <= x && x <= 57 {
        Some((x - 48) as u8)
    } else if 97 <= x && x <= 102 {
        Some((x - 87) as u8)
    } else if 65 <= x && x <= 70 {
        Some((x - 55) as u8)
    } else {
        None
    }
}

/// Parses a colon-separated hexadecimal address string.
///
/// Exactly the well-formed strings are accepted; every other input is
/// rejected with `AddressParseError` — before any platform interaction, since
/// parsing looks at the characters alone.
pub fn parse_address(s: &str) -> (r: Result<PeripheralAddress, BleError>)
    ensures
        valid_address_chars(s@) ==> (r matches Ok(a) && a.value as int == address_value(s@)
            && a.wf()),
        !valid_address_chars(s@) ==> r == Err::<PeripheralAddress, BleError>(
            BleError::AddressParseError,
        ),
{
    if s.unicode_len() != 17 {
        return Err(BleError::AddressParseError);
    }
    let mut value: u64 = 0;
    let mut k: usize = 0;
    while k < 6
        invariant
            s@.len() == 17,
            k <= 6,
            forall|j: int| 0 <= j < k ==> #[trigger] address_group_ok(s@, j),
            value as int == prefix_value(s@, k as int),
            value < pow256(k as int),
        decreases 6 - k,
    {
        let hi = s.get_char(3 * k);
        let lo = s.get_char(3 * k + 1);
        let h: u8;
        let l: u8;
        match (hex_char_value(hi), hex_char_value(lo)) {
            (Some(x), Some(y)) => {
                h = x;
                l = y;
            },
            _ => {
                proof {
                    assert(!address_group_ok(s@, k as int));
                }
                return Err(BleError::AddressParseError);
            },
        }
        if k < 5 {
            let sep = s.get_char(3 * k + 2);
            if sep != ':' {
                proof {
                    assert(!address_group_ok(s@, k as int));
                }
                return Err(BleError::AddressParseError);
            }
        }
        proof {
            assert(address_group_ok(s@, k as int));
            assert(pow256(k as int) <= 0x10000000000);
        }
        value = value * 256 + (h as u64) * 16 + (l as u64);
        k = k + 1;
    }
    Ok(PeripheralAddress { value })
}

/// The value of a well-formed address string is non-negative and fits in 48
/// bits, so it can always be held in a `PeripheralAddress`.
pub proof fn lemma_address_value_bounded(s: Seq<char>)
    ensures
        0 <= prefix_value(s, 0),
        forall|k: int| 0 <= k <= 6 && valid_address_chars(s) ==> 0 <= #[trigger] prefix_value(
            s,
            k,
        ) < pow256(k),
{
    assert forall|k: int| 0 <= k <= 6 && valid_address_chars(s) implies 0 <= #[trigger] prefix_value(
        s,
        k,
    ) < pow256(k) by {
        lemma_prefix_value_bounded(s, k);
    }
}

proof fn lemma_prefix_value_bounded(s: Seq<char>, k: int)
    requires
        valid_address_chars(s),
        0 <= k <= 6,
    ensures
        0 <= prefix_value(s, k) < pow256(k),
    decreases k,
{
    if k > 0 {
        lemma_prefix_value_bounded(s, k - 1);
        assert(address_group_ok(s, k - 1));
    }
}

} // verus!
