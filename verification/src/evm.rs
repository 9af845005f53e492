//! Calls into alloy for the Ethereum primitives the library relies on:
//! Keccak-256, hex encoding, EIP-55 address parsing, JSON-RPC error payload
//! inspection and Solidity `Error(string)` decoding.
use vstd::prelude::*;
use vstd::utf8::encode_utf8;

use vstd::string::StringExecFns;

use crate::text::{digit_char, has_substring};

verus! {

// ---------------------------------------------------------------------------
// Names for results of outside functions
// ---------------------------------------------------------------------------
/// The Keccak-256 digest of `data`.
pub uninterp spec fn keccak256_digest(data: Seq<u8>) -> Seq<u8>;

/// The text of the error `Address::parse_checksummed(s, None)` gives for
/// `s`.
pub uninterp spec fn checksummed_address_error(s: Seq<char>) -> Seq<char>;

/// What `ErrorPayload::as_revert_data` extracts from a JSON-RPC error payload
/// with message `message` and raw JSON data `data`.
pub uninterp spec fn payload_revert_data(message: Seq<char>, data: Option<Seq<char>>) -> Option<
    Seq<u8>,
>;


/// The reason string that `Revert::abi_decode` extracts from revert data
/// (`None` when the data is not an ABI-encoded `Error(string)`).
pub uninterp spec fn revert_reason(data: Seq<u8>) -> Option<Seq<char>>;

/// The text of the error `<Address as FromStr>::from_str` gives for `s`.
pub uninterp spec fn address_hex_error(s: Seq<char>) -> Seq<char>;

/// The text of the error `<U256 as FromStr>::from_str` gives for `s`.
pub uninterp spec fn u256_hex_error(s: Seq<char>) -> Seq<char>;

// ---------------------------------------------------------------------------
// Specifications stated in full
// ---------------------------------------------------------------------------
/// What `ErrorPayload::is_retry_err` answers for a payload with `code` and
/// `message`: the rate-limit and load-balancer codes and messages of the
/// common node providers.
pub open spec fn payload_is_retry_err(code: i64, m: Seq<char>) -> bool {
    ||| code == 429
    ||| code == -32005
    ||| code == -32016 && has_substring(m, "rate limit"@)
    ||| code == -32012 && has_substring(m, "credits"@)
    ||| code == -32007 && has_substring(m, "request limit reached"@)
    ||| code == 1008
    ||| code == -32055
    ||| m == "header not found"@
    ||| m == "daily request count exceeded, request rate limited"@
    ||| has_substring(m, "rate limit"@)
    ||| has_substring(m, "rate exceeded"@)
    ||| has_substring(m, "too many requests"@)
    ||| has_substring(m, "credits limited"@)
    ||| has_substring(m, "request limit"@)
    ||| has_substring(m, "maximum number of concurrent requests"@)
}

/// The value of a hex digit byte, either case.
pub open spec fn hex_nibble(b: u8) -> Option<int> {
    if 48 <= b <= 57 {
        Some(b - 48)
    } else if 97 <= b <= 102 {
        Some(b - 87)
    } else if 65 <= b <= 70 {
        Some(b - 55)
    } else {
        None
    }
}

/// The value of a hex digit character, either case.
pub open spec fn hex_char_value(c: char) -> Option<int> {
    if '0' <= c <= '9' {
        Some(c as int - 48)
    } else if 'a' <= c <= 'f' {
        Some(c as int - 87)
    } else if 'A' <= c <= 'F' {
        Some(c as int - 55)
    } else {
        None
    }
}

/// The number that the hex digits `t` denote, most significant first.
pub open spec fn hex_digits_value(t: Seq<char>) -> int
    decreases t.len(),
{
    if t.len() == 0 {
        0
    } else {
        hex_digits_value(t.drop_last()) * 16 + hex_char_value(t.last()).unwrap_or(0)
    }
}

/// `s` without a leading lowercase `0x`.
pub open spec fn strip_lower_0x(s: Seq<char>) -> Seq<char> {
    if s.len() >= 2 && s[0] == '0' && s[1] == 'x' {
        s.skip(2)
    } else {
        s
    }
}

/// The 256-bit number a hex string denotes: at most sixty-four hex digits,
/// either case, after an optional lowercase `0x`; no digits at all denote 0.
pub open spec fn u256_from_hex(s: Seq<char>) -> Option<int> {
    let t = strip_lower_0x(s);
    if t.len() > 64 || exists|i: int| 0 <= i < t.len() && #[trigger] hex_char_value(t[i]) is None {
        None
    } else {
        Some(hex_digits_value(t))
    }
}

/// The number that four 64-bit limbs denote, least significant first.
pub open spec fn limbs_value(w: [u64; 4]) -> int {
    w[0] + w[1] * 0x1_0000_0000_0000_0000 + w[2] * 0x1_0000_0000_0000_0000_0000_0000_0000_0000
        + w[3] * 0x1_0000_0000_0000_0000_0000_0000_0000_0000_0000_0000_0000_0000
}

/// `b` without a leading `0x` or `0X`.
pub open spec fn strip_hex_prefix(b: Seq<u8>) -> Seq<u8> {
    if b.len() >= 2 && b[0] == 48 && (b[1] == 120 || b[1] == 88) {
        b.skip(2)
    } else {
        b
    }
}

/// The EIP-55 rendering of a hex digit at position `i` of an address: a
/// letter is uppercase when the matching nibble of `hash` is 8 or more.
pub open spec fn eip55_digit(c: char, hash: Seq<u8>, i: int) -> char {
    let nibble = if i % 2 == 0 {
        hash[i / 2] / 16
    } else {
        hash[i / 2] % 16
    };
    if 'a' <= c <= 'f' && nibble >= 8 {
        ((c as u32) - 32) as char
    } else {
        c
    }
}

/// The EIP-55 checksummed rendering of an address (without chain ID): `0x`
/// and its lowercase hex digits, each letter cased by the Keccak-256 digest
/// of the lowercase digits.
pub open spec fn eip55_checksum(a: Seq<u8>) -> Seq<char> {
    let lower = hex_lower(a);
    let hash = keccak256_digest(encode_utf8(lower));
    seq!['0', 'x'] + Seq::new(lower.len(), |i: int| eip55_digit(lower[i], hash, i))
}

/// What `Address::parse_checksummed(s, None)` yields for `s`: the address
/// when `s` starts with `0x`, parses as a hex address and is its EIP-55
/// rendering; otherwise the text of the error.
pub open spec fn checksummed_address(s: Seq<char>) -> Result<Seq<u8>, Seq<char>> {
    if s.len() >= 2 && s[0] == '0' && s[1] == 'x' && hex_address(s) is Some && s
        == eip55_checksum(hex_address(s)->0) {
        Ok(hex_address(s)->0)
    } else {
        Err(checksummed_address_error(s))
    }
}

/// The 20 bytes a hex address string denotes: an even number of bytes in
/// all, forty hex digits after an optional `0x` prefix.
pub open spec fn hex_address(s: Seq<char>) -> Option<Seq<u8>> {
    let b = encode_utf8(s);
    let t = strip_hex_prefix(b);
    if b.len() % 2 != 0 || t.len() != 40 || exists|i: int|
        0 <= i < t.len() && #[trigger] hex_nibble(t[i]) is None {
        None
    } else {
        Some(
            Seq::new(
                20,
                |i: int| (hex_nibble(t[2 * i])->0 * 16 + hex_nibble(t[2 * i + 1])->0) as u8,
            ),
        )
    }
}

/// The 32 bytes a hex private key string denotes: an even number of bytes
/// in all, sixty-four hex digits after an optional `0x` prefix.
pub open spec fn hex_key(s: Seq<char>) -> Option<Seq<u8>> {
    let b = encode_utf8(s);
    let t = strip_hex_prefix(b);
    if b.len() % 2 != 0 || t.len() != 64 || exists|i: int|
        0 <= i < t.len() && #[trigger] hex_nibble(t[i]) is None {
        None
    } else {
        Some(
            Seq::new(
                32,
                |i: int| (hex_nibble(t[2 * i])->0 * 16 + hex_nibble(t[2 * i + 1])->0) as u8,
            ),
        )
    }
}

/// The number that bytes denote, most significant first.
pub open spec fn be_value(b: Seq<u8>) -> int
    decreases b.len(),
{
    if b.len() == 0 {
        0
    } else {
        be_value(b.drop_last()) * 256 + b.last()
    }
}

/// The order of the secp256k1 group.
pub open spec fn secp256k1_order() -> int {
    0xFFFF_FFFF_FFFF_FFFF_FFFF_FFFF_FFFF_FFFE_BAAE_DCE6_AF48_A03B_BFD2_5E8C_D036_4141int
}

/// The secret key a private key string denotes: its 32 bytes, where they
/// are a nonzero number below the secp256k1 order.
pub open spec fn private_key_of(s: Seq<char>) -> Option<Seq<u8>> {
    match hex_key(s) {
        Some(b) => if 0 < be_value(b) < secp256k1_order() {
            Some(b)
        } else {
            None
        },
        None => None,
    }
}

/// Lowercase hex digit of a nibble.
pub open spec fn hex_digit(n: int) -> char {
    if n < 10 {
        digit_char(n)
    } else if n == 10 {
        'a'
    } else if n == 11 {
        'b'
    } else if n == 12 {
        'c'
    } else if n == 13 {
        'd'
    } else if n == 14 {
        'e'
    } else {
        'f'
    }
}

/// Lowercase hex encoding of `b`, two digits per byte, without prefix.
pub open spec fn hex_lower(b: Seq<u8>) -> Seq<char>
    decreases b.len(),
{
    if b.len() == 0 {
        seq![]
    } else {
        hex_lower(b.drop_last()) + seq![
            hex_digit((b.last() / 16) as int),
            hex_digit((b.last() % 16) as int),
        ]
    }
}

/// The 4-byte selector of a Solidity error or function signature.
pub open spec fn selector_of(signature: Seq<char>) -> Seq<u8> {
    keccak256_digest(encode_utf8(signature)).take(4)
}

/// The selector of Solidity's built-in `Error(string)` revert.
pub open spec fn error_string_selector() -> Seq<u8> {
    seq![0x08u8, 0xc3u8, 0x79u8, 0xa0u8]
}

/// An optional string's view.
pub open spec fn opt_view(s: Option<String>) -> Option<Seq<char>> {
    match s {
        Some(x) => Some(x@),
        None => None,
    }
}

/// An optional string slice's view.
pub open spec fn opt_str_view(s: Option<&str>) -> Option<Seq<char>> {
    match s {
        Some(x) => Some(x@),
        None => None,
    }
}

/// An optional byte vector's view.
pub open spec fn opt_bytes_view(b: Option<Vec<u8>>) -> Option<Seq<u8>> {
    match b {
        Some(x) => Some(x@),
        None => None,
    }
}

// ---------------------------------------------------------------------------
// Trusted calls
// ---------------------------------------------------------------------------
/// Calls `alloy_primitives::keccak256`. The contract names the digest of the
/// input; it states nothing of the hash function itself.
#[verifier::external_body]
pub(crate) fn keccak256(data: &[u8]) -> (h: [u8; 32])
    ensures
        h@ == keccak256_digest(data@),
{
    alloy::primitives::keccak256(data).0
}

/// Calls `alloy::hex::encode`, which renders bytes as lowercase hex without a
/// `0x` prefix.
#[verifier::external_body]
pub(crate) fn hex_encode(data: &[u8]) -> (r: String)
    ensures
        r@ == hex_lower(data@),
{
    alloy::hex::encode(data)
}

/// Calls `alloy_primitives::Address::parse_checksummed(s, None)`. Its source
/// rejects a string without the `0x` prefix, parses the rest as a hex
/// address and accepts it only when the string equals the address's EIP-55
/// rendering; the text of the error is only named.
#[verifier::external_body]
pub(crate) fn parse_checksummed_address(s: &str) -> (r: Result<[u8; 20], String>)
    ensures
        match r {
            Ok(a) => checksummed_address(s@) == Ok::<Seq<u8>, Seq<char>>(a@),
            Err(e) => checksummed_address(s@) is Err && e@ == checksummed_address_error(s@),
        },
{
    alloy::primitives::Address::parse_checksummed(s, None).map(|a| a.into_array()).map_err(
        |e| e.to_string(),
    )
}

/// Calls `<alloy_primitives::Address as FromStr>::from_str`, which its
/// source defines as const-hex's `decode_to_array`: an odd number of bytes
/// or other than forty digits after an optional `0x`/`0X` prefix, or a
/// non-hex digit, is an error; otherwise the digits are decoded pairwise. The
/// text of the error is only named.
#[verifier::external_body]
pub(crate) fn parse_address(s: &str) -> (r: Result<[u8; 20], String>)
    ensures
        match r {
            Ok(a) => hex_address(s@) == Some(a@),
            Err(e) => hex_address(s@) is None && e@ == address_hex_error(s@),
        },
{
    s.parse::<alloy::primitives::Address>().map(|a| a.into_array()).map_err(|e| e.to_string())
}

/// Calls `<U256 as FromStr>::from_str` of primitive-types and hands out the
/// number's little-endian 64-bit limbs. Its source strips a lowercase `0x`,
/// refuses more than sixty-four remaining bytes, pads an odd count with a
/// leading `0` and decodes the digits with the hex crate, in either case; the
/// text of the error is only named.
#[verifier::external_body]
pub(crate) fn parse_u256(s: &str) -> (r: Result<[u64; 4], String>)
    ensures
        match r {
            Ok(w) => u256_from_hex(s@) == Some(limbs_value(w)),
            Err(e) => u256_from_hex(s@) is None && e@ == u256_hex_error(s@),
        },
{
    s.parse::<primitive_types::U256>().map(|v| v.0).map_err(|e| e.to_string())
}

/// Calls `<PrivateKeySigner as FromStr>::from_str` of alloy's local signer
/// and hands out the key's 32 bytes. Its source decodes exactly 32 bytes of
/// hex with const-hex (`decode_to_array`) and builds a k256 signing key from
/// them, which accepts a nonzero number below the curve order; the signer
/// gives those bytes back.
#[verifier::external_body]
pub(crate) fn parse_private_key(s: &str) -> (r: Option<[u8; 32]>)
    ensures
        match r {
            Some(k) => private_key_of(s@) == Some(k@),
            None => private_key_of(s@) is None,
        },
{
    s.parse::<alloy::signers::local::PrivateKeySigner>().ok().map(|k| k.to_bytes().0)
}

/// Calls `ErrorPayload::as_revert_data` on a payload rebuilt from its message
/// and raw JSON data. Its source returns `None` whenever the message does not
/// contain `revert`; which hex string it picks out of the data is only named.
#[verifier::external_body]
pub(crate) fn revert_data(message: &str, data: Option<&str>) -> (r: Option<Vec<u8>>)
    ensures
        opt_bytes_view(r) == payload_revert_data(message@, opt_str_view(data)),
        r is Some ==> has_substring(message@, "revert"@),
{
    let payload = alloy::rpc::json_rpc::ErrorPayload {
        code: 0,
        message: message.to_string().into(),
        data: data.and_then(|d| serde_json::value::RawValue::from_string(d.to_string()).ok()),
    };
    payload.as_revert_data().map(|b| b.to_vec())
}

/// Calls `ErrorPayload::is_retry_err` on a payload rebuilt from its code and
/// message (the method reads nothing else); the contract lists the codes and
/// messages its source recognises.
#[verifier::external_body]
pub(crate) fn is_retry_err(code: i64, message: &str) -> (r: bool)
    ensures
        r == payload_is_retry_err(code, message@),
{
    let payload: alloy::rpc::json_rpc::ErrorPayload = alloy::rpc::json_rpc::ErrorPayload {
        code,
        message: message.to_string().into(),
        data: None,
    };
    payload.is_retry_err()
}

/// Calls `<alloy_sol_types::Revert as SolError>::abi_decode` and keeps the
/// reason string. Its source strips the `Error(string)` selector first, so a
/// decoded reason implies the data starts with that selector; the decoding of
/// the string itself is only named.
#[verifier::external_body]
pub(crate) fn decode_revert_reason(data: &[u8]) -> (r: Option<String>)
    ensures
        opt_view(r) == revert_reason(data@),
        r is Some ==> data@.len() >= 4 && data@.take(4) == error_string_selector(),
{
    <alloy_sol_types::Revert as alloy_sol_types::SolError>::abi_decode(data).ok().map(|r| r.reason)
}

// ---------------------------------------------------------------------------
// Verified helpers
// ---------------------------------------------------------------------------
/// The 4-byte selector of a Solidity signature such as `ZeroAddress()`.
pub fn selector(signature: &str) -> (s: [u8; 4])
    ensures
        s@ == selector_of(signature@),
{
    let h = keccak256(signature.as_bytes());
    let s = [h[0], h[1], h[2], h[3]];
    assert(s@ == h@.take(4));
    s
}

/// `0x` followed by the lowercase hex encoding of `data`.
pub fn prefixed_hex(data: &[u8]) -> (r: String)
    ensures
        r@ == seq!['0', 'x'] + hex_lower(data@),
{
    let mut r = "0x".to_owned();
    let h = hex_encode(data);
    proof {
        reveal_strlit("0x");
    }
    r.append(h.as_str());
    r
}

} // verus!
