//! Base64 decoding of the binary payloads the Mina daemon embeds in its
//! GraphQL answers (protocol states, state proofs, accounts).
use vstd::prelude::*;

verus! {

/// The two base64 alphabets the daemon uses: protocol states and accounts
/// come in the standard alphabet, state proofs in the URL-safe one; both
/// padded.
#[derive(Debug, Clone, Copy, PartialEq, Eq, Structural)]
pub enum Base64Alphabet {
    Standard,
    UrlSafe,
}

/// What the `base64` crate's padded standard engine yields for `input`: the
/// decoded bytes, or the text of the decoding error.
pub uninterp spec fn standard_base64_decoded(input: Seq<char>) -> Result<Seq<u8>, Seq<char>>;

/// What the `base64` crate's padded URL-safe engine yields for `input`: the
/// decoded bytes, or the text of the decoding error.
pub uninterp spec fn url_safe_base64_decoded(input: Seq<char>) -> Result<Seq<u8>, Seq<char>>;

/// The outcome of decoding `input` in `alphabet`.
pub open spec fn base64_decoded(alphabet: Base64Alphabet, input: Seq<char>) -> Result<
    Seq<u8>,
    Seq<char>,
> {
    match alphabet {
        Base64Alphabet::Standard => standard_base64_decoded(input),
        Base64Alphabet::UrlSafe => url_safe_base64_decoded(input),
    }
}

/// A decoding outcome seen through its views.
pub open spec fn bytes_or_text(r: Result<Vec<u8>, String>) -> Result<Seq<u8>, Seq<char>> {
    match r {
        Ok(b) => Ok(b@),
        Err(e) => Err(e@),
    }
}

/// Calls `base64::Engine::decode` on `base64::engine::general_purpose::STANDARD`
/// and renders a failure as its `Display` text. The contract names the
/// outcome; it states nothing of base64 itself.
#[verifier::external_body]
fn decode_standard(input: &str) -> (r: Result<Vec<u8>, String>)
    ensures
        bytes_or_text(r) == standard_base64_decoded(input@),
{
    base64::Engine::decode(&base64::engine::general_purpose::STANDARD, input).map_err(
        |e| e.to_string(),
    )
}

/// Calls `base64::Engine::decode` on `base64::engine::general_purpose::URL_SAFE`
/// and renders a failure as its `Display` text. The contract names the
/// outcome; it states nothing of base64 itself.
#[verifier::external_body]
fn decode_url_safe(input: &str) -> (r: Result<Vec<u8>, String>)
    ensures
        bytes_or_text(r) == url_safe_base64_decoded(input@),
{
    base64::Engine::decode(&base64::engine::general_purpose::URL_SAFE, input).map_err(
        |e| e.to_string(),
    )
}

/// Decodes a base64 payload in the given alphabet.
pub fn decode_base64(alphabet: Base64Alphabet, input: &str) -> (r: Result<Vec<u8>, String>)
    ensures
        bytes_or_text(r) == base64_decoded(alphabet, input@),
{
    match alphabet {
        Base64Alphabet::Standard => decode_standard(input),
        Base64Alphabet::UrlSafe => decode_url_safe(input),
    }
}

} // verus!
