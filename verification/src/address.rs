//! Contract addresses: 32 bytes, written in hexadecimal or in base 58.

use vstd::prelude::*;
use vstd::string::*;
use vstd::array::*;

verus! {

/// A 32-byte value: an address or a key.
#[derive(Debug, Clone, Copy, PartialEq, Eq)]
pub struct H256 {
    pub bytes: [u8; 32],
}

impl View for H256 {
    type V = Seq<u8>;

    open spec fn view(&self) -> Seq<u8> {
        self.bytes@
    }
}

/// Why a text is no address.
#[derive(Debug, Clone, Copy, PartialEq, Eq, Structural)]
pub enum AddressError {
    /// It starts with `0x` but has neither 66 nor 42 characters.
    InvalidHexLength,
    /// It starts with `0x` and has the right length, but what follows is
    /// not made of hexadecimal digits alone.
    InvalidHexDigits,
    /// It is not a text in base 58.
    InvalidBase58,
    /// It is a text in base 58 that does not stand for 32 bytes.
    InvalidBase58Length,
}

/// The value of a hexadecimal digit, in either case.
pub open spec fn hex_value(c: char) -> Option<nat> {
    if '0' <= c && c <= '9' {
        Some((c as u32 - '0' as u32) as nat)
    } else if 'a' <= c && c <= 'f' {
        Some((c as u32 - 'a' as u32 + 10) as nat)
    } else if 'A' <= c && c <= 'F' {
        Some((c as u32 - 'A' as u32 + 10) as nat)
    } else {
        None
    }
}

/// The blanks that may stand between hexadecimal digits.
pub open spec fn is_hex_blank(c: char) -> bool {
    c == ' ' || c == '\r' || c == '\n' || c == '\t'
}

/// Whether a text starts with `0x`.
pub open spec fn has_hex_prefix(s: Seq<char>) -> bool {
    s.len() >= 2 && s[0] == '0' && s[1] == 'x'
}

/// The digits of a hexadecimal text: what follows the prefix `0x`, if
/// there is one, without the blanks.
pub open spec fn hex_digits(s: Seq<char>) -> Seq<char> {
    let body = if has_hex_prefix(s) {
        s.subrange(2, s.len() as int)
    } else {
        s
    };
    body.filter(|c: char| !is_hex_blank(c))
}

/// Whether a text is made of hexadecimal digits alone.
pub open spec fn all_hex(s: Seq<char>) -> bool {
    forall|i: int| 0 <= i < s.len() ==> hex_value(#[trigger] s[i]) is Some
}

/// The `n` bytes that a hexadecimal text stands for, most significant
/// digit first; `None` unless the text holds exactly `2 * n` digits and
/// nothing else but blanks.
pub open spec fn hex_bytes(s: Seq<char>, n: nat) -> Option<Seq<u8>> {
    let d = hex_digits(s);
    if d.len() == 2 * n && all_hex(d) {
        Some(
            Seq::new(
                n,
                |i: int| (16 * hex_value(d[2 * i])->0 + hex_value(d[2 * i + 1])->0) as u8,
            ),
        )
    } else {
        None
    }
}

/// The bytes that a text in base 58 stands for, in the Bitcoin alphabet
/// and without a checksum; `None` where the text is not in base 58.
pub uninterp spec fn base58_decoding(s: Seq<char>) -> Option<Seq<u8>>;

/// The 32 bytes that a short, 20-byte hash is widened to: twelve zero
/// bytes, then the hash.
pub open spec fn widened(short: Seq<u8>) -> Seq<u8> {
    Seq::new(12, |i: int| 0u8) + short
}

/// What a decoded base-58 text yields as an address.
pub open spec fn address_of_decoded(decoded: Option<Seq<u8>>) -> Result<Seq<u8>, AddressError> {
    match decoded {
        Some(b) => if b.len() == 32 {
            Ok(b)
        } else {
            Err(AddressError::InvalidBase58Length)
        },
        None => Err(AddressError::InvalidBase58),
    }
}

/// The address that a text stands for. With the prefix `0x` it is read
/// as hexadecimal: 66 characters give the 32 bytes, 42 characters give
/// 20 bytes that are widened to 32. Without the prefix it is read as
/// base 58 and must stand for 32 bytes.
pub open spec fn address_of(s: Seq<char>) -> Result<Seq<u8>, AddressError> {
    if has_hex_prefix(s) {
        if s.len() == 66 {
            match hex_bytes(s, 32) {
                Some(b) => Ok(b),
                None => Err(AddressError::InvalidHexDigits),
            }
        } else if s.len() == 42 {
            match hex_bytes(s, 20) {
                Some(b) => Ok(widened(b)),
                None => Err(AddressError::InvalidHexDigits),
            }
        } else {
            Err(AddressError::InvalidHexLength)
        }
    } else {
        address_of_decoded(base58_decoding(s))
    }
}

/// Calls `H256::from_str` of `primitive_types`, which drops one leading
/// `0x`, skips blanks, and then wants exactly 64 hexadecimal digits, two
/// for each byte, the more significant first.
#[verifier::external_body]
fn parse_hash(s: &str) -> (r: Option<[u8; 32]>)
    ensures
        match r {
            Some(b) => hex_bytes(s@, 32) == Some(b@),
            None => hex_bytes(s@, 32) is None,
        },
{
    s.parse::<primitive_types::H256>().ok().map(|h| h.0)
}

/// Calls `H160::from_str` of `primitive_types`, which drops one leading
/// `0x`, skips blanks, and then wants exactly 40 hexadecimal digits, two
/// for each byte, the more significant first.
#[verifier::external_body]
fn parse_short_hash(s: &str) -> (r: Option<[u8; 20]>)
    ensures
        match r {
            Some(b) => hex_bytes(s@, 20) == Some(b@),
            None => hex_bytes(s@, 20) is None,
        },
{
    s.parse::<primitive_types::H160>().ok().map(|h| h.0)
}

/// Calls `bs58::decode(..).into_vec()`, which decodes a text in the
/// Bitcoin alphabet without a checksum. The bytes depend on the text
/// alone; the contract gives them a name and says nothing more of them.
#[verifier::external_body]
fn decode_base58(s: &str) -> (r: Option<Vec<u8>>)
    ensures
        match r {
            Some(v) => base58_decoding(s@) == Some(v@),
            None => base58_decoding(s@) is None,
        },
{
    bs58::decode(s).into_vec().ok()
}

impl H256 {
    /// The value made of 32 zero bytes.
    pub fn zero() -> (h: Self)
        ensures
            h@ == Seq::new(32, |i: int| 0u8),
    {
        let h = H256 { bytes: [0u8; 32] };
        assert(h@ =~= Seq::new(32, |i: int| 0u8));
        h
    }

    /// Widens a 20-byte hash to 32 bytes by putting zero bytes in front.
    pub fn from_short(short: &[u8; 20]) -> (h: Self)
        ensures
            h@ == widened(short@),
    {
        let mut bytes = [0u8; 32];
        let mut i: usize = 0;
        while i < 20
            invariant
                i <= 20,
                forall|j: int| 0 <= j < 12 ==> bytes@[j] == 0u8,
                forall|j: int| 0 <= j < i ==> bytes@[12 + j] == short@[j],
            decreases 20 - i,
        {
            bytes[12 + i] = short[i];
            i += 1;
        }
        let h = H256 { bytes };
        assert(h@ =~= widened(short@));
        h
    }

    /// The address that decoded base-58 bytes stand for: they must be
    /// there, and be 32.
    pub fn from_decoded(decoded: Option<Vec<u8>>) -> (r: Result<H256, AddressError>)
        ensures
            match r {
                Ok(h) => address_of_decoded(decoded_view(decoded)) == Ok::<Seq<u8>, AddressError>(h@),
                Err(e) => address_of_decoded(decoded_view(decoded)) == Err::<Seq<u8>, AddressError>(e),
            },
    {
        match decoded {
            None => Err(AddressError::InvalidBase58),
            Some(v) => {
                if v.len() != 32 {
                    return Err(AddressError::InvalidBase58Length);
                }
                let mut bytes = [0u8; 32];
                let mut i: usize = 0;
                while i < 32
                    invariant
                        i <= 32,
                        v@.len() == 32,
                        forall|j: int| 0 <= j < i ==> bytes@[j] == v@[j],
                    decreases 32 - i,
                {
                    bytes[i] = v[i];
                    i += 1;
                }
                let h = H256 { bytes };
                assert(h@ =~= v@);
                Ok(h)
            },
        }
    }
}

/// The bytes of an optional vector.
pub open spec fn decoded_view(decoded: Option<Vec<u8>>) -> Option<Seq<u8>> {
    match decoded {
        Some(v) => Some(v@),
        None => None,
    }
}

/// Whether a text starts with `0x`.
pub fn starts_with_hex_prefix(s: &str) -> (b: bool)
    ensures
        b == has_hex_prefix(s@),
{
    s.unicode_len() >= 2 && s.get_char(0) == '0' && s.get_char(1) == 'x'
}

/// Reads an address that is written in hexadecimal with the prefix `0x`,
/// or else in base 58.
pub fn hex_or_base58_to_h256(s: &str) -> (r: Result<H256, AddressError>)
    ensures
        match r {
            Ok(h) => address_of(s@) == Ok::<Seq<u8>, AddressError>(h@),
            Err(e) => address_of(s@) == Err::<Seq<u8>, AddressError>(e),
        },
{
    if starts_with_hex_prefix(s) {
        let n = s.unicode_len();
        if n == 66 {
            match parse_hash(s) {
                Some(bytes) => Ok(H256 { bytes }),
                None => Err(AddressError::InvalidHexDigits),
            }
        } else if n == 42 {
            match parse_short_hash(s) {
                Some(short) => Ok(H256::from_short(&short)),
                None => Err(AddressError::InvalidHexDigits),
            }
        } else {
            Err(AddressError::InvalidHexLength)
        }
    } else {
        H256::from_decoded(decode_base58(s))
    }
}

/// Reads a 32-byte key written as 64 hexadecimal digits, with or without
/// the prefix `0x`.
pub fn parse_key(s: &str) -> (r: Option<H256>)
    ensures
        match r {
            Some(h) => hex_bytes(s@, 32) == Some(h@),
            None => hex_bytes(s@, 32) is None,
        },
{
    match parse_hash(s) {
        Some(bytes) => Some(H256 { bytes }),
        None => None,
    }
}

} // verus!
