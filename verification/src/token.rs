//! Signed-token handling: picking the payload out of a dot-separated token,
//! padding it to a base64 length, and decoding it to text.

use vstd::prelude::*;
use vstd::utf8::{decode_utf8, valid_utf8};
use crate::scan::{find_char_from, lemma_spec_find, spec_find};
use base64::Engine as _;

verus! {

/// The second dot-separated component of `s`: the characters between the
/// first dot and the next dot (or the end). `None` when `s` holds no dot,
/// that is, fewer than two components.
pub open spec fn spec_token_payload(s: Seq<char>) -> Option<Seq<char>> {
    let d1 = spec_find(s, '.', 0);
    if d1 == s.len() {
        None
    } else {
        Some(s.subrange(d1 + 1, spec_find(s, '.', d1 + 1)))
    }
}

/// Returns the payload component of a dot-separated signed token, or `None`
/// when the token has fewer than two components.
pub fn token_payload(token: &str) -> (r: Option<String>)
    ensures
        r matches Some(p) ==> spec_token_payload(token@) == Some(p@),
        r is None <==> spec_token_payload(token@) is None,
{
    let n = token.unicode_len();
    let d1 = find_char_from(token, '.', 0);
    proof {
        lemma_spec_find(token@, '.', 0);
    }
    if d1 == n {
        return None;
    }
    let d2 = find_char_from(token, '.', d1 + 1);
    proof {
        lemma_spec_find(token@, '.', d1 + 1);
    }
    let p = token.substring_char(d1 + 1, d2);
    Some(p.to_owned())
}

/// The padding the base64 decoder is handed: a payload whose length leaves
/// remainder 2 modulo 4 gains `==`, remainder 3 gains `=`, and remainders 0
/// and 1 pass through unchanged (1 is left for the decoder to reject).
pub open spec fn spec_padded(p: Seq<char>) -> Seq<char> {
    if p.len() % 4 == 2 {
        p + "=="@
    } else if p.len() % 4 == 3 {
        p + "="@
    } else {
        p
    }
}

/// Pads a token payload to a multiple of four characters by the standard
/// base64 rule.
pub fn pad_base64(payload: &str) -> (r: String)
    ensures
        r@ == spec_padded(payload@),
{
    let n = payload.unicode_len();
    if n % 4 == 2 {
        String::from_str(payload).concat("==")
    } else if n % 4 == 3 {
        String::from_str(payload).concat("=")
    } else {
        String::from_str(payload)
    }
}

/// The bytes that the standard base64 alphabet decoding assigns to `s`, or
/// `None` when `s` is not valid padded base64. The exact byte values are a
/// function of `s` alone and are left to the decoder.
pub uninterp spec fn b64_decoded(s: Seq<char>) -> Option<Seq<u8>>;

/// Relies on base64's `Engine::decode` with the standard padded alphabet:
/// the outcome is determined by the input characters alone.
#[verifier::external_body]
pub(crate) fn decode_base64(s: &str) -> (r: Option<Vec<u8>>)
    ensures
        r matches Some(b) ==> b64_decoded(s@) == Some(b@),
        r is None <==> b64_decoded(s@) is None,
{
    base64::engine::general_purpose::STANDARD.decode(s).ok()
}

/// Relies on `String::from_utf8`, which succeeds exactly on valid UTF-8 and
/// then returns the decoding of the bytes.
#[verifier::external_body]
pub(crate) fn utf8_to_string(bytes: Vec<u8>) -> (r: Option<String>)
    ensures
        r matches Some(t) ==> valid_utf8(bytes@) && t@ == decode_utf8(bytes@),
        r is None <==> !valid_utf8(bytes@),
{
    String::from_utf8(bytes).ok()
}

} // verus!
