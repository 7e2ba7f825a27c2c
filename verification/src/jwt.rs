//! The JWT surface structure: three dot-separated base64url segments, a JSON
//! header carrying the key id, and a JSON payload carrying the claims.

use vstd::prelude::*;

use crate::outside::{b64url_decode, b64url_of, json_string_field, json_string_field_of};
use crate::strings::{find_char_from, spec_find_char};

verus! {

/// The header, payload and signature segments of `t`, when `t` consists of
/// exactly three dot-separated parts.
pub open spec fn spec_segments(t: Seq<char>) -> Option<(Seq<char>, Seq<char>, Seq<char>)> {
    match spec_find_char(t, '.', 0) {
        None => None,
        Some(i) => match spec_find_char(t, '.', i + 1) {
            None => None,
            Some(j) => if spec_find_char(t, '.', j + 1) is Some {
                None
            } else {
                Some((t.subrange(0, i), t.subrange(i + 1, j), t.subrange(j + 1, t.len() as int)))
            },
        },
    }
}

/// Split a token into its three segments; `None` unless there are exactly
/// two dots.
pub fn token_segments<'a>(t: &'a str) -> (r: Option<(&'a str, &'a str, &'a str)>)
    ensures
        match r {
            Some(seg) => spec_segments(t@) == Some((seg.0@, seg.1@, seg.2@)),
            None => spec_segments(t@) is None,
        },
{
    let n = t.unicode_len();
    let i = match find_char_from(t, '.', 0) {
        Some(i) => i,
        None => {
            return None;
        },
    };
    let j = match find_char_from(t, '.', i + 1) {
        Some(j) => j,
        None => {
            return None;
        },
    };
    match find_char_from(t, '.', j + 1) {
        Some(_) => None,
        None => {
            let header = t.substring_char(0, i);
            let payload = t.substring_char(i + 1, j);
            let signature = t.substring_char(j + 1, n);
            Some((header, payload, signature))
        },
    }
}

/// The decoded bytes of the token's header segment.
pub open spec fn spec_header_doc(t: Seq<char>) -> Option<Seq<u8>> {
    match spec_segments(t) {
        None => None,
        Some(seg) => b64url_of(seg.0),
    }
}

/// The decoded bytes of the token's payload segment.
pub open spec fn spec_payload_doc(t: Seq<char>) -> Option<Seq<u8>> {
    match spec_segments(t) {
        None => None,
        Some(seg) => b64url_of(seg.1),
    }
}

/// The key id named by the token's header, when the token has three
/// segments, the header decodes, and it carries a string field `kid`.
pub open spec fn spec_kid(t: Seq<char>) -> Option<Seq<char>> {
    match spec_header_doc(t) {
        None => None,
        Some(doc) => json_string_field_of(doc, "kid"@),
    }
}

/// Extract the key id from the token's unverified header.
pub fn parse_kid(t: &str) -> (r: Option<String>)
    ensures
        match r {
            Some(kid) => spec_kid(t@) == Some(kid@),
            None => spec_kid(t@) is None,
        },
{
    let seg = match token_segments(t) {
        Some(seg) => seg,
        None => {
            return None;
        },
    };
    let doc = match b64url_decode(seg.0) {
        Some(doc) => doc,
        None => {
            return None;
        },
    };
    json_string_field(doc.as_slice(), "kid")
}

/// Decode the token's payload segment to the claim document's bytes.
pub fn payload_doc(t: &str) -> (r: Option<Vec<u8>>)
    ensures
        match r {
            Some(doc) => spec_payload_doc(t@) == Some(doc@),
            None => spec_payload_doc(t@) is None,
        },
{
    let seg = match token_segments(t) {
        Some(seg) => seg,
        None => {
            return None;
        },
    };
    b64url_decode(seg.1)
}

} // verus!
