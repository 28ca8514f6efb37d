//! Resource locator: turns the site-configuration response body into the
//! resource path it carries. The body holds a JSON document with a signed
//! token at `c.req`; the token's payload is base64 text whose JSON carries
//! the path at `l`. Every stage fails on its own and is reported apart.

use vstd::prelude::*;
use vstd::utf8::{decode_utf8, valid_utf8};
use crate::token::{
    b64_decoded, decode_base64, pad_base64, spec_padded, spec_token_payload, token_payload,
    utf8_to_string,
};

verus! {

/// One failure per stage of resolution, so a caller can tell a changed
/// remote format from a transient decoding problem.
#[derive(Clone, Copy, Debug, PartialEq, Eq, Structural)]
pub enum LocatorError {
    /// The site-configuration response is not JSON.
    ConfigParse,
    /// The response carries no string at `c.req`.
    TokenMissing,
    /// The signed token has fewer than two dot-separated components.
    TokenMalformed,
    /// The padded payload is not valid base64.
    PayloadDecode,
    /// The decoded payload bytes are not UTF-8.
    PayloadUtf8,
    /// The decoded payload text is not JSON.
    PayloadParse,
    /// The payload carries no string at `l`.
    LocationMissing,
}

/// Whether the text parses as a JSON document.
pub uninterp spec fn json_document_valid(s: Seq<char>) -> bool;

/// The string at the nested path `c.req` of the JSON document `s`, when `s`
/// parses and holds one there.
pub uninterp spec fn site_config_token(s: Seq<char>) -> Option<Seq<char>>;

/// The string at `l` of the JSON document `s`, when `s` parses and holds one
/// there.
pub uninterp spec fn payload_location(s: Seq<char>) -> Option<Seq<char>>;

/// Tells a document that does not parse from one that parses but lacks the
/// wanted string field.
#[derive(Clone, Copy, Debug, PartialEq, Eq, Structural)]
pub enum JsonFieldError {
    NotJson,
    FieldMissing,
}

/// Relies on serde_json's `from_str` for what parses as JSON, and on
/// `Value::get` and `Value::as_str` for the string at `c.req`.
#[verifier::external_body]
pub(crate) fn extract_site_token(body: &str) -> (r: Result<String, JsonFieldError>)
    ensures
        r matches Ok(t) ==> json_document_valid(body@) && site_config_token(body@) == Some(t@),
        site_config_token(body@) is Some ==> r is Ok,
        r matches Err(e) ==> site_config_token(body@) is None && ((e == JsonFieldError::NotJson)
            <==> !json_document_valid(body@)),
{
    match serde_json::from_str::<serde_json::Value>(body) {
        Err(_) => Err(JsonFieldError::NotJson),
        Ok(v) => match v.get("c").and_then(|c| c.get("req")).and_then(|q| q.as_str()) {
            Some(s) => Ok(s.to_string()),
            None => Err(JsonFieldError::FieldMissing),
        },
    }
}

/// Relies on serde_json's `from_str` for what parses as JSON, and on
/// `Value::get` and `Value::as_str` for the string at `l`.
#[verifier::external_body]
pub(crate) fn extract_payload_location(text: &str) -> (r: Result<String, JsonFieldError>)
    ensures
        r matches Ok(l) ==> json_document_valid(text@) && payload_location(text@) == Some(l@),
        payload_location(text@) is Some ==> r is Ok,
        r matches Err(e) ==> payload_location(text@) is None && ((e == JsonFieldError::NotJson)
            <==> !json_document_valid(text@)),
{
    match serde_json::from_str::<serde_json::Value>(text) {
        Err(_) => Err(JsonFieldError::NotJson),
        Ok(v) => match v.get("l").and_then(|l| l.as_str()) {
            Some(s) => Ok(s.to_string()),
            None => Err(JsonFieldError::FieldMissing),
        },
    }
}

/// The text a token payload decodes to: pad, base64-decode, UTF-8-decode,
/// with the stage that failed.
pub open spec fn spec_decoded_text(payload: Seq<char>) -> Result<Seq<char>, LocatorError> {
    match b64_decoded(spec_padded(payload)) {
        None => Err(LocatorError::PayloadDecode),
        Some(bytes) => if valid_utf8(bytes) {
            Ok(decode_utf8(bytes))
        } else {
            Err(LocatorError::PayloadUtf8)
        },
    }
}

/// The resource path of a decoded payload text, with the stage that failed.
pub open spec fn spec_extract_location(text: Seq<char>) -> Result<Seq<char>, LocatorError> {
    if !json_document_valid(text) {
        Err(LocatorError::PayloadParse)
    } else {
        match payload_location(text) {
            None => Err(LocatorError::LocationMissing),
            Some(l) => Ok(l),
        }
    }
}

/// The resource path a site-configuration response resolves to, with the
/// stage that failed.
pub open spec fn spec_resolve(body: Seq<char>) -> Result<Seq<char>, LocatorError> {
    if !json_document_valid(body) {
        Err(LocatorError::ConfigParse)
    } else {
        match site_config_token(body) {
            None => Err(LocatorError::TokenMissing),
            Some(tok) => match spec_token_payload(tok) {
                None => Err(LocatorError::TokenMalformed),
                Some(payload) => match spec_decoded_text(payload) {
                    Err(e) => Err(e),
                    Ok(text) => spec_extract_location(text),
                },
            },
        }
    }
}

/// Decodes a signed token's payload to its text: pad to a base64 length,
/// base64-decode, UTF-8-decode.
pub fn decode_token_payload(payload: &str) -> (r: Result<String, LocatorError>)
    ensures
        r matches Ok(t) ==> spec_decoded_text(payload@) == Ok::<Seq<char>, LocatorError>(t@),
        r matches Err(e) ==> spec_decoded_text(payload@) == Err::<Seq<char>, LocatorError>(e),
{
    let padded = pad_base64(payload);
    let bytes = match decode_base64(padded.as_str()) {
        Some(b) => b,
        None => {
            return Err(LocatorError::PayloadDecode);
        },
    };
    match utf8_to_string(bytes) {
        Some(t) => Ok(t),
        None => Err(LocatorError::PayloadUtf8),
    }
}

/// Resolves a site-configuration response body to the resource path it
/// carries: the string at `c.req` is a signed token, the token's second
/// dot-separated component is a base64 payload, and the payload's JSON
/// carries the path at `l`. The result, success or the stage that failed,
/// is exactly what `spec_resolve` says of the body.
pub fn resolve_resource_path(body: &str) -> (r: Result<String, LocatorError>)
    ensures
        r matches Ok(p) ==> spec_resolve(body@) == Ok::<Seq<char>, LocatorError>(p@),
        r matches Err(e) ==> spec_resolve(body@) == Err::<Seq<char>, LocatorError>(e),
{
    let tok = match extract_site_token(body) {
        Ok(t) => t,
        Err(JsonFieldError::NotJson) => {
            return Err(LocatorError::ConfigParse);
        },
        Err(JsonFieldError::FieldMissing) => {
            return Err(LocatorError::TokenMissing);
        },
    };
    let payload = match token_payload(tok.as_str()) {
        Some(p) => p,
        None => {
            return Err(LocatorError::TokenMalformed);
        },
    };
    let text = match decode_token_payload(payload.as_str()) {
        Ok(t) => t,
        Err(e) => {
            return Err(e);
        },
    };
    match extract_payload_location(text.as_str()) {
        Ok(l) => Ok(l),
        Err(JsonFieldError::NotJson) => Err(LocatorError::PayloadParse),
        Err(JsonFieldError::FieldMissing) => Err(LocatorError::LocationMissing),
    }
}

} // verus!
