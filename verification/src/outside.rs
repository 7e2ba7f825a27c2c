//! The trusted boundary: every call into an outside crate goes through one of
//! the wrappers below. Each wrapper's contract names or states what the call
//! returns; nothing else in the library is taken on trust.

use vstd::prelude::*;

verus! {

/// Whether `t` is a structurally well-formed JWT whose RS256 signature
/// verifies under the RSA public key `pem`.
pub uninterp spec fn rs256_valid_spec(t: Seq<char>, pem: Seq<char>) -> bool;

/// Relies on jsonwebtoken::DecodingKey::from_rsa_pem and jsonwebtoken::decode:
/// with audience, expiry and required-claim checks switched off, `decode`
/// succeeds exactly when the token has three dot-separated parts, its header
/// parses with `alg` RS256, its payload is a JSON document, and its signature
/// verifies under the key. The outcome is a function of the token and the key
/// material alone.
#[verifier::external_body]
pub(crate) fn rs256_verify(token: &str, pem: &str) -> (r: bool)
    ensures
        r == rs256_valid_spec(token@, pem@),
{
    let key = match jsonwebtoken::DecodingKey::from_rsa_pem(pem.as_bytes()) {
        Ok(k) => k,
        Err(_) => return false,
    };
    let mut validation = jsonwebtoken::Validation::new(jsonwebtoken::Algorithm::RS256);
    validation.validate_exp = false;
    validation.validate_aud = false;
    validation.required_spec_claims = std::collections::HashSet::new();
    jsonwebtoken::decode::<serde_json::Value>(token, &key, &validation).is_ok()
}

/// The bytes that `s` denotes in unpadded URL-safe base64, if it is valid.
pub uninterp spec fn b64url_of(s: Seq<char>) -> Option<Seq<u8>>;

/// Relies on base64's URL_SAFE_NO_PAD engine: decoding depends on the input
/// characters alone and fails exactly on input that is not unpadded URL-safe
/// base64.
#[verifier::external_body]
pub(crate) fn b64url_decode(s: &str) -> (r: Option<Vec<u8>>)
    ensures
        match r {
            Some(v) => b64url_of(s@) == Some(v@),
            None => b64url_of(s@) is None,
        },
{
    base64::Engine::decode(&base64::engine::general_purpose::URL_SAFE_NO_PAD, s).ok()
}

/// The string value of field `key` at the top level of the JSON document
/// `doc`, if `doc` parses and the field is a string.
pub uninterp spec fn json_string_field_of(doc: Seq<u8>, key: Seq<char>) -> Option<Seq<char>>;

/// Relies on serde_json::from_slice and serde_json::Value::{get, as_str}: the
/// result is a function of the document bytes and the key alone.
#[verifier::external_body]
pub(crate) fn json_string_field(doc: &[u8], key: &str) -> (r: Option<String>)
    ensures
        match r {
            Some(v) => json_string_field_of(doc@, key@) == Some(v@),
            None => json_string_field_of(doc@, key@) is None,
        },
{
    let value: serde_json::Value = serde_json::from_slice(doc).ok()?;
    Some(value.get(key)?.as_str()?.to_string())
}

/// The unsigned 64-bit value of field `key` at the top level of the JSON
/// document `doc`, if `doc` parses and the field is such a number.
pub uninterp spec fn json_u64_field_of(doc: Seq<u8>, key: Seq<char>) -> Option<u64>;

/// Relies on serde_json::from_slice and serde_json::Value::{get, as_u64}: the
/// result is a function of the document bytes and the key alone.
#[verifier::external_body]
pub(crate) fn json_u64_field(doc: &[u8], key: &str) -> (r: Option<u64>)
    ensures
        r == json_u64_field_of(doc@, key@),
{
    let value: serde_json::Value = serde_json::from_slice(doc).ok()?;
    value.get(key)?.as_u64()
}

/// The boolean value of field `key` at the top level of the JSON document
/// `doc`, if `doc` parses and the field is a boolean.
pub uninterp spec fn json_bool_field_of(doc: Seq<u8>, key: Seq<char>) -> Option<bool>;

/// Relies on serde_json::from_slice and serde_json::Value::{get, as_bool}: the
/// result is a function of the document bytes and the key alone.
#[verifier::external_body]
pub(crate) fn json_bool_field(doc: &[u8], key: &str) -> (r: Option<bool>)
    ensures
        r == json_bool_field_of(doc@, key@),
{
    let value: serde_json::Value = serde_json::from_slice(doc).ok()?;
    value.get(key)?.as_bool()
}

/// The key-id-to-PEM pairs of the JSON object `body`, in ascending key order,
/// if `body` is a JSON object whose values are all strings.
pub uninterp spec fn key_pairs_of(body: Seq<char>) -> Option<Seq<(Seq<char>, Seq<char>)>>;

pub open spec fn pairs_deep(v: Seq<(String, String)>) -> Seq<(Seq<char>, Seq<char>)> {
    v.map_values(|p: (String, String)| (p.0@, p.1@))
}

/// Relies on serde_json::from_str deserializing into a
/// std::collections::BTreeMap<String, String>: parsing fails exactly when the
/// body is not such an object, and iterating the map yields each key once, in
/// ascending order. The pairs are a function of the body alone.
#[verifier::external_body]
pub(crate) fn parse_key_pairs(body: &str) -> (r: Option<Vec<(String, String)>>)
    ensures
        match r {
            Some(v) => key_pairs_of(body@) == Some(pairs_deep(v@)) && forall|i: int, j: int|
                0 <= i < j < v@.len() ==> v@[i].0@ != v@[j].0@,
            None => key_pairs_of(body@) is None,
        },
{
    let map: std::collections::BTreeMap<String, String> = serde_json::from_str(body).ok()?;
    Some(map.into_iter().collect())
}

/// Relies on String::push: appends the given character to the end of the
/// string.
#[verifier::external_body]
pub(crate) fn push_char(s: &mut String, c: char)
    ensures
        final(s)@ == old(s)@.push(c),
{
    s.push(c);
}

/// The name `s` with path separators and other unsafe characters removed.
pub uninterp spec fn sanitized_of(s: Seq<char>) -> Seq<char>;

/// Relies on sanitize_filename::sanitize_with_options with fixed options
/// (non-Windows rules, truncation, empty replacement), so the result is a
/// function of the input characters alone.
#[verifier::external_body]
pub(crate) fn sanitize_name(name: &str) -> (r: String)
    ensures
        r@ == sanitized_of(name@),
{
    let options = sanitize_filename::Options { windows: false, truncate: true, replacement: "" };
    sanitize_filename::sanitize_with_options(name, options)
}

} // verus!
