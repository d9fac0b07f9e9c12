use vstd::prelude::*;

use super::payload::{
    distinct_names, lookup, payload_view, ClaimEntry, ClaimEntryView, ClaimValue, ClaimValueView,
};

verus! {

/// The error type of the `jsonwebtoken` crate, carried through unread.
#[verifier::external_type_specification]
#[verifier::external_body]
pub struct ExTokenCrateError(jsonwebtoken::errors::Error);

/// Why a token could not be decoded.
#[derive(Clone, Copy, Debug, PartialEq, Eq, Structural)]
pub enum DecodeFault {
    /// The signature is not the one that the secret gives.
    BadSignature,
    /// Anything else: the shape, the encoding, the header or the payload.
    Unreadable,
}

/// The token that `jsonwebtoken::encode` builds from the default header
/// (HS256), a JSON object with the entries of `payload`, and an HMAC key made
/// of `secret`.
pub uninterp spec fn jwt_encoding(payload: Seq<ClaimEntryView>, secret: Seq<u8>) -> Seq<char>;

/// What `jsonwebtoken::decode` makes of `token` under an HMAC key made of
/// `secret`, with HS256 as the only algorithm and without its own check of
/// the expiry time: the entries of the payload object, or the fault.
pub uninterp spec fn jwt_decoding(token: Seq<char>, secret: Seq<u8>) -> Result<
    Seq<ClaimEntryView>,
    DecodeFault,
>;

/// The signature that `jsonwebtoken::crypto::sign` computes with HS256 over
/// the UTF-8 bytes of `message`, under an HMAC key made of `secret`.
pub uninterp spec fn hs256_signature(message: Seq<char>, secret: Seq<u8>) -> Seq<char>;

/// `segment` holds no dot.
pub open spec fn no_dot(segment: Seq<char>) -> bool {
    forall|i: int| 0 <= i < segment.len() ==> segment[i] != '.'
}

/// Two segments joined by a dot.
pub open spec fn dotted(left: Seq<char>, right: Seq<char>) -> Seq<char> {
    left + seq!['.'] + right
}

/// The compact form of a token: header, body and signature, joined by dots.
pub open spec fn compact(header: Seq<char>, body: Seq<char>, signature: Seq<char>) -> Seq<char> {
    dotted(dotted(header, body), signature)
}

/// `token` is the compact form of the three segments, none of which holds a
/// dot.
pub open spec fn sealed(
    token: Seq<char>,
    header: Seq<char>,
    body: Seq<char>,
    signature: Seq<char>,
) -> bool {
    &&& no_dot(header)
    &&& no_dot(body)
    &&& no_dot(signature)
    &&& token == compact(header, body, signature)
}

/// `token` has three dot-free segments, and the third is the signature of the
/// first two under `secret`.
pub open spec fn signed(token: Seq<char>, secret: Seq<u8>) -> bool {
    exists|header: Seq<char>, body: Seq<char>| #[trigger]
        sealed(token, header, body, hs256_signature(dotted(header, body), secret))
}

/// `token` is signed under `secret`, and none of its three segments is empty.
pub open spec fn signed_in_full(token: Seq<char>, secret: Seq<u8>) -> bool {
    exists|header: Seq<char>, body: Seq<char>|
        {
            &&& #[trigger] sealed(
                token,
                header,
                body,
                hs256_signature(dotted(header, body), secret),
            )
            &&& header.len() > 0
            &&& body.len() > 0
            &&& hs256_signature(dotted(header, body), secret).len() > 0
        }
}

/// `token` has three segments of which the first two hold no dot, and the
/// third is not the signature of the first two under `secret`.
pub open spec fn wrongly_signed(token: Seq<char>, secret: Seq<u8>) -> bool {
    exists|header: Seq<char>, body: Seq<char>, signature: Seq<char>|
        {
            &&& no_dot(header)
            &&& no_dot(body)
            &&& no_dot(signature)
            &&& token == #[trigger] compact(header, body, signature)
            &&& signature != hs256_signature(dotted(header, body), secret)
        }
}

/// `token` does not fall into three segments: it holds fewer than two dots.
pub open spec fn unsplit(token: Seq<char>) -> bool {
    forall|header: Seq<char>, body: Seq<char>, signature: Seq<char>|
        token != #[trigger] compact(header, body, signature)
}

/// Both payloads give the same value, or none, under every name.
pub open spec fn same_claims(a: Seq<ClaimEntryView>, b: Seq<ClaimEntryView>) -> bool {
    forall|name: Seq<char>| #[trigger] lookup(a, name) == lookup(b, name)
}

/// Every value of the payload is one that a JSON object holds as it is: a
/// text, or an integer from the least `i64` to the greatest `u64`.
pub open spec fn encodable(payload: Seq<ClaimEntryView>) -> bool {
    forall|i: int|
        0 <= i < payload.len() ==> match (#[trigger] payload[i]).value {
            ClaimValueView::Text(_) => true,
            ClaimValueView::Integer(n) => i64::MIN <= n <= u64::MAX,
            ClaimValueView::Other => false,
        }
}

/// The payloads that an encoding followed by a decoding hands back as they
/// were: they are encodable, the names differ from each other, `exp` is a
/// non-negative integer, and none of the other registered claims that the
/// decoder looks at is there.
pub open spec fn carried_intact(payload: Seq<ClaimEntryView>) -> bool {
    &&& encodable(payload)
    &&& distinct_names(payload)
    &&& lookup(payload, "exp"@) matches Some(ClaimValueView::Integer(n)) && 0 <= n
    &&& lookup(payload, "aud"@) is None
    &&& lookup(payload, "iss"@) is None
    &&& lookup(payload, "sub"@) is None
    &&& lookup(payload, "nbf"@) is None
}

/// The decoding succeeded, with a payload that holds the claims of `payload`.
pub open spec fn restores(
    decoded: Result<Seq<ClaimEntryView>, DecodeFault>,
    payload: Seq<ClaimEntryView>,
) -> bool {
    decoded matches Ok(entries) && same_claims(entries, payload)
}

/// The view of what a decoding returned.
pub open spec fn decoded_view(decoded: Result<Vec<ClaimEntry>, DecodeFault>) -> Result<
    Seq<ClaimEntryView>,
    DecodeFault,
> {
    match decoded {
        Ok(entries) => Ok(payload_view(entries@)),
        Err(fault) => Err(fault),
    }
}

/// Calls `jsonwebtoken::encode` with the default header, a JSON object made
/// of the entries of `payload` (a later entry replaces an earlier one of the
/// same name) and an HMAC key made of `secret`. Trusted:
/// - the call succeeds: an HMAC key fits the header's algorithm, a JSON
///   object of texts and integers is always written out, and signing with
///   HMAC does not fail;
/// - the token is the one named by `jwt_encoding`;
/// - it has three non-empty, dot-free segments, the third being the
///   signature that `jsonwebtoken::crypto::sign` gives for the first two.
#[verifier::external_body]
pub(crate) fn encode_payload(payload: &Vec<ClaimEntry>, secret: &[u8]) -> (r: Result<
    String,
    jsonwebtoken::errors::Error,
>)
    requires
        encodable(payload_view(payload@)),
    ensures
        r is Ok,
        r matches Ok(token) ==> token@ == jwt_encoding(payload_view(payload@), secret@),
        r matches Ok(token) ==> signed_in_full(token@, secret@),
{
    let mut object = serde_json::Map::new();
    for entry in payload {
        let value = match &entry.value {
            ClaimValue::Text(text) => serde_json::Value::from(text.as_str()),
            ClaimValue::Integer(i) => serde_json::Number::from_i128(*i).map_or(
                serde_json::Value::Null,
                serde_json::Value::Number,
            ),
            ClaimValue::Other => serde_json::Value::Null,
        };
        object.insert(entry.name.clone(), value);
    }
    let key = jsonwebtoken::EncodingKey::from_secret(secret);
    jsonwebtoken::encode(&jsonwebtoken::Header::default(), &object, &key)
}

/// Calls `jsonwebtoken::crypto::sign` with HS256 on the bytes of `message`,
/// under an HMAC key made of `secret`. Trusted: the call succeeds, as signing
/// with HMAC does not fail, and gives the signature named by
/// `hs256_signature`.
#[verifier::external_body]
pub(crate) fn sign_message(message: &str, secret: &[u8]) -> (r: Result<
    String,
    jsonwebtoken::errors::Error,
>)
    ensures
        r is Ok,
        r matches Ok(signature) ==> signature@ == hs256_signature(message@, secret@),
{
    let key = jsonwebtoken::EncodingKey::from_secret(secret);
    jsonwebtoken::crypto::sign(message.as_bytes(), &key, jsonwebtoken::Algorithm::HS256)
}

/// Calls `jsonwebtoken::decode` with an HMAC key made of `secret`, HS256 as
/// the only algorithm and the crate's own expiry check switched off, and
/// hands the payload object out entry by entry. Trusted:
/// - the outcome is the one named by `jwt_decoding`;
/// - a token that decodes has three dot-free segments, the third being the
///   signature that `jsonwebtoken::crypto::sign` gives for the first two;
/// - a token that `jsonwebtoken::encode` built under the same secret from a
///   payload that is `carried_intact` decodes to a payload with the same
///   value under every name;
/// - the fault is `BadSignature` only for a token of three dot-free segments
///   whose third is not that signature;
/// - a token with fewer than two dots is `Unreadable`.
#[verifier::external_body]
pub(crate) fn decode_payload(token: &str, secret: &[u8]) -> (r: Result<Vec<ClaimEntry>, DecodeFault>)
    ensures
        decoded_view(r) == jwt_decoding(token@, secret@),
        r is Ok ==> exists|header: Seq<char>, body: Seq<char>| #[trigger]
            sealed(token@, header, body, hs256_signature(dotted(header, body), secret@)),
        forall|payload: Seq<ClaimEntryView>|
            carried_intact(payload) && token@ == #[trigger] jwt_encoding(payload, secret@)
                ==> restores(decoded_view(r), payload),
        r matches Err(DecodeFault::BadSignature) ==> wrongly_signed(token@, secret@),
        unsplit(token@) ==> r matches Err(DecodeFault::Unreadable),
{
    let mut validation = jsonwebtoken::Validation::new(jsonwebtoken::Algorithm::HS256);
    validation.validate_exp = false;
    let key = jsonwebtoken::DecodingKey::from_secret(secret);
    match jsonwebtoken::decode::<serde_json::Map<String, serde_json::Value>>(token, &key, &validation) {
        Ok(data) => Ok(data.claims.into_iter().map(|(name, value)| ClaimEntry { name, value: match value {
            serde_json::Value::String(text) => ClaimValue::Text(text),
            serde_json::Value::Number(n) => n.as_i128().map_or(ClaimValue::Other, ClaimValue::Integer),
            _ => ClaimValue::Other,
        } }).collect()),
        Err(e) => Err(match e.kind() {
            jsonwebtoken::errors::ErrorKind::InvalidSignature => DecodeFault::BadSignature,
            _ => DecodeFault::Unreadable,
        }),
    }
}

} // verus!
