//! Typed blockchain values: a fixed-length account/contract address and a
//! 32-byte block hash, each parsed from a `0x`-prefixed hexadecimal string.

use vstd::prelude::*;

verus! {

/// Number of bytes in an address.
pub const ADDRESS_BYTES: usize = 20;

/// Number of bytes in a block hash.
pub const HASH_BYTES: usize = 32;

/// Value of one hexadecimal digit character, or `None` for any other
/// character. Both lower-case and upper-case digits are accepted.
pub open spec fn hex_digit_value(c: char) -> Option<u8> {
    let u = c as u32;
    if ('0' as u32) <= u && u <= ('9' as u32) {
        Some((u - ('0' as u32)) as u8)
    } else if ('a' as u32) <= u && u <= ('f' as u32) {
        Some((u - ('a' as u32) + 10) as u8)
    } else if ('A' as u32) <= u && u <= ('F' as u32) {
        Some((u - ('A' as u32) + 10) as u8)
    } else {
        None
    }
}

/// The string is exactly `0x` followed by `2 * n` hexadecimal digits.
pub open spec fn is_hex_encoding(s: Seq<char>, n: nat) -> bool {
    &&& s.len() == 2 + 2 * n
    &&& s[0] == '0'
    &&& s[1] == 'x'
    &&& forall|i: int| 2 <= i < s.len() ==> #[trigger] hex_digit_value(s[i]) is Some
}

/// The `n` bytes encoded by a well-formed hexadecimal string (two digits per
/// byte, high digit first).
pub open spec fn hex_bytes(s: Seq<char>, n: nat) -> Seq<u8> {
    Seq::new(
        n,
        |i: int|
            (hex_digit_value(s[2 + 2 * i])->0 * 16 + hex_digit_value(s[3 + 2 * i])->0) as u8,
    )
}

/// An address is encoded by `0x` and forty hexadecimal digits; the parsed
/// value is its twenty bytes.
pub open spec fn spec_parse_address(s: Seq<char>) -> Option<Seq<u8>> {
    if is_hex_encoding(s, ADDRESS_BYTES as nat) {
        Some(hex_bytes(s, ADDRESS_BYTES as nat))
    } else {
        None
    }
}

/// A hash is encoded by `0x` and sixty-four hexadecimal digits; the parsed
/// value is its thirty-two bytes.
pub open spec fn spec_parse_hash(s: Seq<char>) -> Option<Seq<u8>> {
    if is_hex_encoding(s, HASH_BYTES as nat) {
        Some(hex_bytes(s, HASH_BYTES as nat))
    } else {
        None
    }
}

/// Parse of an optional raw address string: `None` for a present string that
/// is no address; otherwise the parsed bytes of the string, where present.
pub open spec fn spec_opt_address(o: Option<Seq<char>>) -> Option<Option<Seq<u8>>> {
    match o {
        None => Some(None),
        Some(s) => match spec_parse_address(s) {
            Some(b) => Some(Some(b)),
            None => None,
        },
    }
}

/// Parse of an optional raw hash string: `None` for a present string that is
/// no hash; otherwise the parsed bytes of the string, where present.
pub open spec fn spec_opt_hash(o: Option<Seq<char>>) -> Option<Option<Seq<u8>>> {
    match o {
        None => Some(None),
        Some(s) => match spec_parse_hash(s) {
            Some(b) => Some(Some(b)),
            None => None,
        },
    }
}

/// Value of one hexadecimal digit character.
fn hex_digit(c: char) -> (r: Option<u8>)
    ensures
        r == hex_digit_value(c),
{
    let u = c as u32;
    if 48 <= u && u <= 57 {
        Some((u - 48) as u8)
    } else if 97 <= u && u <= 102 {
        Some((u - 87) as u8)
    } else if 65 <= u && u <= 70 {
        Some((u - 55) as u8)
    } else {
        None
    }
}

/// Decodes a `0x`-prefixed hexadecimal string of exactly `n` bytes.
fn parse_hex(s: &str, n: usize) -> (r: Option<Vec<u8>>)
    requires
        2 + 2 * (n as int) <= usize::MAX,
    ensures
        r is Some <==> is_hex_encoding(s@, n as nat),
        r is Some ==> r->0@ == hex_bytes(s@, n as nat),
{
    let len = s.unicode_len();
    if len != 2 + 2 * n {
        return None;
    }
    if s.get_char(0) != '0' || s.get_char(1) != 'x' {
        return None;
    }
    let mut out: Vec<u8> = Vec::new();
    let mut i: usize = 0;
    while i < n
        invariant
            2 + 2 * (n as int) <= usize::MAX,
            s@.len() == 2 + 2 * n,
            s@[0] == '0',
            s@[1] == 'x',
            i <= n,
            out@.len() == i,
            forall|j: int|
                0 <= j < i ==> #[trigger] hex_digit_value(s@[2 + 2 * j]) is Some
                    && hex_digit_value(s@[3 + 2 * j]) is Some,
            forall|j: int|
                0 <= j < i ==> #[trigger] out@[j] == (hex_digit_value(s@[2 + 2 * j])->0 * 16
                    + hex_digit_value(s@[3 + 2 * j])->0) as u8,
        decreases n - i,
    {
        let hi = hex_digit(s.get_char(2 + 2 * i));
        let lo = hex_digit(s.get_char(3 + 2 * i));
        match (hi, lo) {
            (Some(h), Some(l)) => out.push(h * 16 + l),
            _ => {
                return None;
            },
        }
        i += 1;
    }
    proof {
        assert forall|k: int| 2 <= k < s@.len() implies #[trigger] hex_digit_value(
            s@[k],
        ) is Some by {
            let j = (k - 2) / 2;
            assert(k == 2 + 2 * j || k == 3 + 2 * j);
            assert(hex_digit_value(s@[2 + 2 * j]) is Some);
            assert(hex_digit_value(s@[3 + 2 * j]) is Some);
        }
        assert(out@ =~= hex_bytes(s@, n as nat));
    }
    Some(out)
}

/// A validated fixed-length contract/account address.
#[derive(Debug, Clone)]
pub struct Address {
    bytes: Vec<u8>,
}

impl View for Address {
    type V = Seq<u8>;

    closed spec fn view(&self) -> Seq<u8> {
        self.bytes@
    }
}

impl Address {
    /// The address holds exactly its fixed number of bytes.
    pub open spec fn wf(&self) -> bool {
        self@.len() == ADDRESS_BYTES
    }

    /// Parses an address from a `0x`-prefixed hexadecimal string of exactly
    /// forty digits.
    pub fn parse(s: &str) -> (r: Option<Address>)
        ensures
            r is Some <==> spec_parse_address(s@) is Some,
            r is Some ==> Some(r->0@) == spec_parse_address(s@) && r->0.wf(),
    {
        match parse_hex(s, ADDRESS_BYTES) {
            Some(bytes) => Some(Address { bytes }),
            None => None,
        }
    }

    /// The decoded bytes of the address.
    pub fn as_bytes(&self) -> (r: &Vec<u8>)
        ensures
            r@ == self@,
    {
        &self.bytes
    }
}

impl PartialEq for Address {
    fn eq(&self, other: &Address) -> (r: bool) {
        let r = self.bytes == other.bytes;
        proof {
            if r {
                assert(self.bytes@ =~= other.bytes@);
            }
        }
        r
    }
}

impl Eq for Address {

}

impl vstd::std_specs::cmp::PartialEqSpecImpl for Address {
    open spec fn obeys_eq_spec() -> bool {
        true
    }

    open spec fn eq_spec(&self, other: &Address) -> bool {
        self@ == other@
    }
}

/// A validated 32-byte hash.
#[derive(Debug, Clone)]
pub struct Hash {
    bytes: Vec<u8>,
}

impl View for Hash {
    type V = Seq<u8>;

    closed spec fn view(&self) -> Seq<u8> {
        self.bytes@
    }
}

impl Hash {
    /// The hash holds exactly its fixed number of bytes.
    pub open spec fn wf(&self) -> bool {
        self@.len() == HASH_BYTES
    }

    /// Parses a hash from a `0x`-prefixed hexadecimal string of exactly
    /// sixty-four digits.
    pub fn parse(s: &str) -> (r: Option<Hash>)
        ensures
            r is Some <==> spec_parse_hash(s@) is Some,
            r is Some ==> Some(r->0@) == spec_parse_hash(s@) && r->0.wf(),
    {
        match parse_hex(s, HASH_BYTES) {
            Some(bytes) => Some(Hash { bytes }),
            None => None,
        }
    }

    /// The decoded bytes of the hash.
    pub fn as_bytes(&self) -> (r: &Vec<u8>)
        ensures
            r@ == self@,
    {
        &self.bytes
    }
}

impl PartialEq for Hash {
    fn eq(&self, other: &Hash) -> (r: bool) {
        let r = self.bytes == other.bytes;
        proof {
            if r {
                assert(self.bytes@ =~= other.bytes@);
            }
        }
        r
    }
}

impl Eq for Hash {

}

impl vstd::std_specs::cmp::PartialEqSpecImpl for Hash {
    open spec fn obeys_eq_spec() -> bool {
        true
    }

    open spec fn eq_spec(&self, other: &Hash) -> bool {
        self@ == other@
    }
}

} // verus!
