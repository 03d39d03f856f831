//! The boundary to the `jsonwebtoken` and `serde_json` crates.
//!
//! Everything in this file is believed, not proved: each contract restates
//! what the named outside function does.

use vstd::prelude::*;

verus! {

/// `jsonwebtoken::DecodingKey`, carried through as an opaque value.
#[verifier::external_type_specification]
#[verifier::external_body]
pub struct ExDecodingKey(jsonwebtoken::DecodingKey);

/// `jsonwebtoken::Validation`, carried through as an opaque value.
#[verifier::external_type_specification]
#[verifier::external_body]
pub struct ExValidation(jsonwebtoken::Validation);

/// `jsonwebtoken::errors::Error`, carried through as an opaque value.
#[verifier::external_type_specification]
#[verifier::external_body]
pub struct ExJwtError(jsonwebtoken::errors::Error);

/// `serde_json::Value`; as a token payload it is read as a collection of
/// named claims.
#[verifier::external_type_specification]
#[verifier::external_body]
pub struct ExJsonValue(serde_json::Value);

/// `serde_json::Error`, carried through as an opaque value.
#[verifier::external_type_specification]
#[verifier::external_body]
pub struct ExJsonError(serde_json::Error);

/// What `jsonwebtoken::decode_header` makes of a token: `None` where it
/// fails, else the header's `kid` field, itself `None` where the header has
/// none.
pub uninterp spec fn header_key_id(token: Seq<char>) -> Option<Option<Seq<char>>>;

/// Whether `jsonwebtoken::DecodingKey::from_rsa_components` accepts a modulus
/// and an exponent (both must be unpadded URL-safe base64).
pub uninterp spec fn rsa_components_accepted(modulus: Seq<char>, exponent: Seq<char>) -> bool;

/// The string-valued members of a JSON value, by name. Empty unless the value
/// is an object.
pub uninterp spec fn text_claims(payload: serde_json::Value) -> Map<Seq<char>, Seq<char>>;

/// The members of a JSON value that are integers within `i64`, by name. Empty
/// unless the value is an object.
pub uninterp spec fn integer_claims(payload: serde_json::Value) -> Map<Seq<char>, int>;

/// The length of the array that is the member `name` of a JSON object; `None`
/// where the value is no object, has no such member, or the member is no
/// array.
pub uninterp spec fn array_length(document: serde_json::Value, name: Seq<char>) -> Option<nat>;

/// The string-valued members of the element at `index` of the array that is
/// the member `name` of a JSON object, by their names. Empty where there is no
/// such element or it is no object.
pub uninterp spec fn element_texts(document: serde_json::Value, name: Seq<char>, index: int) -> Map<
    Seq<char>,
    Seq<char>,
>;

/// What `serde_json::from_str` makes of a text: the JSON value that the text
/// describes, `None` where it fails.
pub uninterp spec fn parsed_document(body: Seq<char>) -> Option<serde_json::Value>;

/// Calls `serde_json::from_str`, which parses a text as JSON and looks at
/// nothing but the text. The contract only says that the outcome is the same
/// for the same text.
#[verifier::external_body]
pub(crate) fn parse_json(body: &str) -> (r: Result<serde_json::Value, serde_json::Error>)
    ensures
        match r {
            Ok(document) => parsed_document(body@) == Some(document),
            Err(_) => parsed_document(body@).is_none(),
        },
{
    serde_json::from_str::<serde_json::Value>(body)
}

/// Calls `serde_json::Value::get`, which finds a member by name in an object
/// and nothing in any other value, and hands out the length of the member if
/// it is an array.
#[verifier::external_body]
pub(crate) fn array_len(document: &serde_json::Value, name: &str) -> (r: Option<usize>)
    ensures
        match r {
            Some(length) => array_length(*document, name@) == Some(length as nat),
            None => array_length(*document, name@).is_none(),
        },
{
    match document.get(name) {
        Some(serde_json::Value::Array(items)) => Some(items.len()),
        _ => None,
    }
}

/// Calls `serde_json::Value::get` three times: by name for the array, by
/// index for its element (which finds nothing unless the value is an array
/// that long), and by name for the element's member, which is handed out if
/// it is a string.
#[verifier::external_body]
pub(crate) fn element_text(document: &serde_json::Value, array: &str, index: usize, name: &str) -> (r:
    Option<String>)
    ensures
        r.is_some() == element_texts(*document, array@, index as int).contains_key(name@),
        r matches Some(text) ==> text@ == element_texts(*document, array@, index as int)[name@],
{
    let element = match document.get(array) {
        Some(items) => items.get(index),
        None => None,
    };
    match element {
        Some(item) => match item.get(name) {
            Some(serde_json::Value::String(text)) => Some(text.clone()),
            _ => None,
        },
        None => None,
    }
}

/// Calls `jsonwebtoken::decode_header`, which splits the token at its dots,
/// decodes the first segment and parses it as a header, all without looking at
/// the signature. The result is the header's `kid`; the contract only says
/// that it is the same for the same token.
#[verifier::external_body]
pub(crate) fn decode_header_key_id(token: &str) -> (r: Result<Option<String>, jsonwebtoken::errors::Error>)
    ensures
        match r {
            Ok(Some(kid)) => header_key_id(token@) == Some(Some(kid@)),
            Ok(None) => header_key_id(token@) == Some(None::<Seq<char>>),
            Err(_) => header_key_id(token@).is_none(),
        },
{
    jsonwebtoken::decode_header(token).map(|header| header.kid)
}

/// Calls `jsonwebtoken::DecodingKey::from_rsa_components`, which fails exactly
/// when the modulus or the exponent is not base64 it can decode.
#[verifier::external_body]
pub(crate) fn rsa_decoding_key(modulus: &str, exponent: &str) -> (r: Result<
    jsonwebtoken::DecodingKey,
    jsonwebtoken::errors::Error,
>)
    ensures
        r.is_ok() == rsa_components_accepted(modulus@, exponent@),
{
    jsonwebtoken::DecodingKey::from_rsa_components(modulus, exponent)
}

/// Calls `jsonwebtoken::Validation::new` for RSA with SHA-256: the settings
/// then accept that algorithm alone, require `exp` and check it against the
/// clock. Nothing is claimed of the value.
#[verifier::external_body]
pub(crate) fn rs256_validation() -> jsonwebtoken::Validation {
    jsonwebtoken::Validation::new(jsonwebtoken::Algorithm::RS256)
}

/// Calls `jsonwebtoken::decode`, which checks the signature with the key, then
/// the payload against the settings and the machine's clock, and hands out the
/// payload as JSON. The outcome depends on the time of the call, so nothing is
/// claimed of it. (The crate reads the clock as seconds since 1970 and gives
/// up on a machine whose clock stands before that.)
#[verifier::external_body]
pub(crate) fn decode_payload(
    token: &str,
    key: &jsonwebtoken::DecodingKey,
    validation: &jsonwebtoken::Validation,
) -> Result<serde_json::Value, jsonwebtoken::errors::Error> {
    jsonwebtoken::decode::<serde_json::Value>(token, key, validation).map(|data| data.claims)
}

/// Calls `serde_json::Value::get`, which finds a member by name in an object
/// and nothing in any other value, and hands the member out if it is a
/// string.
#[verifier::external_body]
pub(crate) fn text_claim(payload: &serde_json::Value, name: &str) -> (r: Option<String>)
    ensures
        r.is_some() == text_claims(*payload).contains_key(name@),
        r matches Some(text) ==> text@ == text_claims(*payload)[name@],
{
    match payload.get(name) {
        Some(serde_json::Value::String(text)) => Some(text.clone()),
        _ => None,
    }
}

/// Calls `serde_json::Value::get`, which finds a member by name in an object
/// and nothing in any other value, and `Value::as_i64`, which hands a number
/// out if it is an integer that fits `i64`.
#[verifier::external_body]
pub(crate) fn integer_claim(payload: &serde_json::Value, name: &str) -> (r: Option<i64>)
    ensures
        r.is_some() == integer_claims(*payload).contains_key(name@),
        r matches Some(number) ==> number == integer_claims(*payload)[name@],
{
    match payload.get(name) {
        Some(member) => member.as_i64(),
        None => None,
    }
}

} // verus!
