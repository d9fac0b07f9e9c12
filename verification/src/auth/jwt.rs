use vstd::prelude::*;
use vstd::string::StringExecFns;
use vstd::utf8::encode_utf8;

use super::middleware::{AuthError, AuthErrorKind};
use super::payload::{
    find_claim, lookup, payload_view, ClaimEntry, ClaimEntryView, ClaimValue, ClaimValueView,
};
use super::signing::{
    carried_intact, compact, decode_payload, decoded_view, dotted, encode_payload,
    hs256_signature, jwt_decoding, jwt_encoding, no_dot, restores, sealed, sign_message, signed,
    signed_in_full, unsplit, wrongly_signed, DecodeFault,
};

verus! {

/// The lifetime, in seconds, that the login flow gives a token.
pub const DEFAULT_TOKEN_LIFETIME: usize = 3600;

/// The signed payload of a token: who the principal is, what it may do, and
/// the second (since the epoch) at which the token stops being valid.
#[derive(Debug, Clone, PartialEq, Eq)]
pub struct Claims {
    pub user_id: String,
    pub email: String,
    pub role: i16,
    pub exp: usize,
}

pub struct ClaimsView {
    pub user_id: Seq<char>,
    pub email: Seq<char>,
    pub role: i16,
    pub exp: usize,
}

impl View for Claims {
    type V = ClaimsView;

    open spec fn view(&self) -> ClaimsView {
        ClaimsView { user_id: self.user_id@, email: self.email@, role: self.role, exp: self.exp }
    }
}

/// The expiry of a token issued at `issued_at` for `lifetime` seconds: their
/// sum, or the largest instant that can be written where the sum exceeds it.
pub open spec fn expiry(issued_at: usize, lifetime: usize) -> usize {
    if issued_at + lifetime > usize::MAX {
        usize::MAX
    } else {
        (issued_at + lifetime) as usize
    }
}

impl Claims {
    /// The claims of a principal, valid for `lifetime` seconds from `issued_at`.
    pub fn new(user_id: String, email: String, role: i16, issued_at: usize, lifetime: usize) -> (claims:
        Claims)
        ensures
            claims@ == (ClaimsView {
                user_id: user_id@,
                email: email@,
                role,
                exp: expiry(issued_at, lifetime),
            }),
    {
        let exp = issued_at.saturating_add(lifetime);
        Claims { user_id, email, role, exp }
    }
}

/// Why a token was not issued or not accepted.
#[derive(Clone, Copy, Debug, PartialEq, Eq, Structural)]
pub enum TokenError {
    /// The token could not be encoded or signed.
    Signing,
    /// The signature is not the one that the secret gives.
    InvalidSignature,
    /// The current time is at or past the expiry.
    Expired,
    /// The token does not have the expected structure.
    Malformed,
}

/// The secret that signs tokens and checks their signatures.
pub struct SigningSecret {
    value: String,
}

impl View for SigningSecret {
    type V = Seq<u8>;

    closed spec fn view(&self) -> Seq<u8> {
        encode_utf8(self.value@)
    }
}

impl SigningSecret {
    /// A secret made of the UTF-8 bytes of `value`.
    pub fn new(value: String) -> (secret: SigningSecret)
        ensures
            secret@ == encode_utf8(value@),
    {
        SigningSecret { value }
    }

    /// The secret that the configuration holds. A service without one must
    /// not start: the absence is a `ConfigurationError`.
    pub fn from_config(configured: Option<String>) -> (r: Result<SigningSecret, AuthError>)
        ensures
            match configured {
                Some(value) => r matches Ok(secret) && secret@ == encode_utf8(value@),
                None => r matches Err(e) && e.kind == AuthErrorKind::ConfigurationError && e.message@
                    == AuthErrorKind::ConfigurationError.message_spec() && e.cause is None,
            },
    {
        match configured {
            Some(value) => Ok(SigningSecret::new(value)),
            None => Err(AuthError::new(AuthErrorKind::ConfigurationError)),
        }
    }

    /// The bytes of the secret.
    pub fn as_bytes(&self) -> (bytes: &[u8])
        ensures
            bytes@ == self@,
    {
        self.value.as_str().as_bytes()
    }
}

/// The payload that carries `claims`.
pub open spec fn claims_payload(claims: ClaimsView) -> Seq<ClaimEntryView> {
    seq![
        ClaimEntryView { name: "user_id"@, value: ClaimValueView::Text(claims.user_id) },
        ClaimEntryView { name: "email"@, value: ClaimValueView::Text(claims.email) },
        ClaimEntryView { name: "role"@, value: ClaimValueView::Integer(claims.role as int) },
        ClaimEntryView { name: "exp"@, value: ClaimValueView::Integer(claims.exp as int) },
    ]
}

/// The claims that `payload` carries: `user_id` and `email` as texts, `role`
/// and `exp` as integers that fit their fields. `None` where one of them is
/// missing or of another kind.
pub open spec fn payload_claims(payload: Seq<ClaimEntryView>) -> Option<ClaimsView> {
    match (
        lookup(payload, "user_id"@),
        lookup(payload, "email"@),
        lookup(payload, "role"@),
        lookup(payload, "exp"@),
    ) {
        (
            Some(ClaimValueView::Text(user_id)),
            Some(ClaimValueView::Text(email)),
            Some(ClaimValueView::Integer(role)),
            Some(ClaimValueView::Integer(exp)),
        ) => if i16::MIN <= role <= i16::MAX && 0 <= exp <= usize::MAX {
            Some(ClaimsView { user_id, email, role: role as i16, exp: exp as usize })
        } else {
            None
        },
        _ => None,
    }
}

/// The token that carries `claims` under `secret`.
pub open spec fn issued_token(claims: ClaimsView, secret: Seq<u8>) -> Seq<char> {
    jwt_encoding(claims_payload(claims), secret)
}

/// What verification answers at time `now`, given what decoding returned:
/// the fault of the decoding; `Malformed` for a payload without the claims;
/// `Expired` from the expiry on; else the claims.
pub open spec fn verify_outcome(
    decoded: Result<Seq<ClaimEntryView>, DecodeFault>,
    now: usize,
) -> Result<ClaimsView, TokenError> {
    match decoded {
        Err(DecodeFault::BadSignature) => Err(TokenError::InvalidSignature),
        Err(DecodeFault::Unreadable) => Err(TokenError::Malformed),
        Ok(payload) => match payload_claims(payload) {
            None => Err(TokenError::Malformed),
            Some(claims) => if now < claims.exp {
                Ok(claims)
            } else {
                Err(TokenError::Expired)
            },
        },
    }
}

/// The view of what a verification returned.
pub open spec fn verified_view(verified: Result<Claims, TokenError>) -> Result<
    ClaimsView,
    TokenError,
> {
    match verified {
        Ok(claims) => Ok(claims@),
        Err(e) => Err(e),
    }
}

/// `lookup` on a payload of four entries, written out.
proof fn lemma_lookup_four(payload: Seq<ClaimEntryView>, name: Seq<char>)
    requires
        payload.len() == 4,
    ensures
        lookup(payload, name) == if payload[0].name == name {
            Some(payload[0].value)
        } else if payload[1].name == name {
            Some(payload[1].value)
        } else if payload[2].name == name {
            Some(payload[2].value)
        } else if payload[3].name == name {
            Some(payload[3].value)
        } else {
            None::<ClaimValueView>
        },
{
    let from_second = payload.drop_first();
    let from_third = from_second.drop_first();
    let from_fourth = from_third.drop_first();
    let past_all = from_fourth.drop_first();
    assert(from_second[0] == payload[1]);
    assert(from_third[0] == payload[2]);
    assert(from_fourth[0] == payload[3]);
    assert(past_all.len() == 0);
    assert(lookup(past_all, name) is None);
    assert(lookup(from_fourth, name) == if from_fourth[0].name == name {
        Some(from_fourth[0].value)
    } else {
        lookup(past_all, name)
    });
    assert(lookup(from_third, name) == if from_third[0].name == name {
        Some(from_third[0].value)
    } else {
        lookup(from_fourth, name)
    });
    assert(lookup(from_second, name) == if from_second[0].name == name {
        Some(from_second[0].value)
    } else {
        lookup(from_third, name)
    });
}

/// The payload of a set of claims holds them, and is one that encoding and
/// decoding hand back as it was.
pub proof fn lemma_claims_payload(claims: ClaimsView)
    ensures
        payload_claims(claims_payload(claims)) == Some(claims),
        carried_intact(claims_payload(claims)),
{
    reveal_strlit("user_id");
    reveal_strlit("email");
    reveal_strlit("role");
    reveal_strlit("exp");
    reveal_strlit("aud");
    reveal_strlit("iss");
    reveal_strlit("sub");
    reveal_strlit("nbf");
    let p = claims_payload(claims);
    assert("user_id"@.len() == 7);
    assert("email"@.len() == 5);
    assert("role"@.len() == 4);
    assert("exp"@.len() == 3);
    assert("exp"@[0] == 'e');
    assert("aud"@[0] == 'a');
    assert("iss"@[0] == 'i');
    assert("sub"@[0] == 's');
    assert("nbf"@[0] == 'n');
    lemma_lookup_four(p, "user_id"@);
    lemma_lookup_four(p, "email"@);
    lemma_lookup_four(p, "role"@);
    lemma_lookup_four(p, "exp"@);
    lemma_lookup_four(p, "aud"@);
    lemma_lookup_four(p, "iss"@);
    lemma_lookup_four(p, "sub"@);
    lemma_lookup_four(p, "nbf"@);
}

/// A decoding that restores the payload of a set of claims is verified to
/// those claims before their expiry, and to `Expired` from then on.
pub proof fn lemma_restored_claims_verify(
    claims: ClaimsView,
    decoded: Result<Seq<ClaimEntryView>, DecodeFault>,
    now: usize,
)
    requires
        restores(decoded, claims_payload(claims)),
    ensures
        verify_outcome(decoded, now) == if now < claims.exp {
            Ok::<ClaimsView, TokenError>(claims)
        } else {
            Err::<ClaimsView, TokenError>(TokenError::Expired)
        },
{
    lemma_claims_payload(claims);
    let payload = claims_payload(claims);
    let restored = decoded->Ok_0;
    assert(lookup(restored, "user_id"@) == lookup(payload, "user_id"@));
    assert(lookup(restored, "email"@) == lookup(payload, "email"@));
    assert(lookup(restored, "role"@) == lookup(payload, "role"@));
    assert(lookup(restored, "exp"@) == lookup(payload, "exp"@));
}

/// A compact token splits into its three segments in one way only.
pub proof fn lemma_compact_unique(
    header: Seq<char>,
    body: Seq<char>,
    signature: Seq<char>,
    other_header: Seq<char>,
    other_body: Seq<char>,
    other_signature: Seq<char>,
)
    requires
        no_dot(header),
        no_dot(body),
        no_dot(other_header),
        no_dot(other_body),
        compact(header, body, signature) == compact(other_header, other_body, other_signature),
    ensures
        header == other_header,
        body == other_body,
        signature == other_signature,
{
    let t = compact(header, body, signature);
    let u = compact(other_header, other_body, other_signature);
    let h = header.len() as int;
    let k = other_header.len() as int;
    assert(t[h] == '.');
    assert(u[k] == '.');
    if h < k {
        assert(u[h] == other_header[h]);
    }
    if k < h {
        assert(t[k] == header[k]);
    }
    assert(h == k);
    assert(header =~= other_header) by {
        assert forall|i: int| 0 <= i < h implies header[i] == other_header[i] by {
            assert(t[i] == header[i]);
            assert(u[i] == other_header[i]);
        }
    }
    let b = body.len() as int;
    let c = other_body.len() as int;
    assert(t[h + 1 + b] == '.');
    assert(u[h + 1 + c] == '.');
    if b < c {
        assert(u[h + 1 + b] == other_body[b]);
    }
    if c < b {
        assert(t[h + 1 + c] == body[c]);
    }
    assert(b == c);
    assert(body =~= other_body) by {
        assert forall|i: int| 0 <= i < b implies body[i] == other_body[i] by {
            assert(t[h + 1 + i] == body[i]);
            assert(u[h + 1 + i] == other_body[i]);
        }
    }
    assert(signature =~= other_signature) by {
        assert(t.len() == u.len());
        assert forall|i: int| 0 <= i < signature.len() implies signature[i] == other_signature[i] by {
            assert(t[h + b + 2 + i] == signature[i]);
            assert(u[h + b + 2 + i] == other_signature[i]);
        }
    }
}

/// Writes `claims` out as the payload of a token.
pub fn claims_entries(claims: &Claims) -> (entries: Vec<ClaimEntry>)
    ensures
        payload_view(entries@) == claims_payload(claims@),
{
    let mut entries: Vec<ClaimEntry> = Vec::new();
    entries.push(
        ClaimEntry { name: "user_id".to_owned(), value: ClaimValue::Text(claims.user_id.clone()) },
    );
    entries.push(
        ClaimEntry { name: "email".to_owned(), value: ClaimValue::Text(claims.email.clone()) },
    );
    entries.push(
        ClaimEntry { name: "role".to_owned(), value: ClaimValue::Integer(claims.role as i128) },
    );
    entries.push(
        ClaimEntry { name: "exp".to_owned(), value: ClaimValue::Integer(claims.exp as i128) },
    );
    assert(payload_view(entries@) =~= claims_payload(claims@));
    entries
}

/// Reads the claims out of a decoded payload.
pub fn claims_from_payload(entries: &Vec<ClaimEntry>) -> (claims: Option<Claims>)
    ensures
        match claims {
            Some(c) => payload_claims(payload_view(entries@)) == Some(c@),
            None => payload_claims(payload_view(entries@)) is None,
        },
{
    let user_id = match find_claim(entries, "user_id") {
        Some(ClaimValue::Text(text)) => text.clone(),
        _ => { return None; },
    };
    let email = match find_claim(entries, "email") {
        Some(ClaimValue::Text(text)) => text.clone(),
        _ => { return None; },
    };
    let role: i16 = match find_claim(entries, "role") {
        Some(ClaimValue::Integer(i)) => {
            if *i < i16::MIN as i128 || *i > i16::MAX as i128 {
                return None;
            }
            *i as i16
        },
        _ => { return None; },
    };
    let exp: usize = match find_claim(entries, "exp") {
        Some(ClaimValue::Integer(i)) => {
            if *i < 0 || *i > usize::MAX as i128 {
                return None;
            }
            *i as usize
        },
        _ => { return None; },
    };
    Some(Claims { user_id, email, role, exp })
}

/// What issuing answers, given what the encoding returned: the token, or
/// `Signing` for any failure of the encoding.
pub fn token_from_encoding(encoded: Result<String, jsonwebtoken::errors::Error>) -> (r: Result<
    String,
    TokenError,
>)
    ensures
        match encoded {
            Ok(token) => r == Ok::<String, TokenError>(token),
            Err(_) => r == Err::<String, TokenError>(TokenError::Signing),
        },
{
    match encoded {
        Ok(token) => Ok(token),
        Err(_) => Err(TokenError::Signing),
    }
}

/// Issues the token that carries `claims`, signed with `secret`.
///
/// Issuing succeeds whatever the claims hold. The token is
/// `issued_token(claims, secret)`: it depends on the claims and the secret
/// alone. It has three non-empty segments, the third being the signature of
/// the first two.
pub fn create_token(claims: Claims, secret: &SigningSecret) -> (r: Result<String, TokenError>)
    ensures
        r matches Ok(token) && token@ == issued_token(claims@, secret@),
        r matches Ok(token) ==> signed_in_full(token@, secret@),
{
    let entries = claims_entries(&claims);
    proof {
        lemma_claims_payload(claims@);
    }
    token_from_encoding(encode_payload(&entries, secret.as_bytes()))
}

/// The signature that a token with the given first two segments carries
/// under `secret`: the third segment of every token that is accepted.
pub fn token_signature(header: &str, body: &str, secret: &SigningSecret) -> (r: Result<
    String,
    TokenError,
>)
    ensures
        r matches Ok(signature) && signature@ == hs256_signature(dotted(header@, body@), secret@),
{
    proof {
        reveal_strlit(".");
    }
    let message = String::from_str(header).concat(".").concat(body);
    assert(message@ =~= dotted(header@, body@));
    token_from_encoding(sign_message(message.as_str(), secret.as_bytes()))
}

/// What verification answers at time `now`, given what the decoding returned.
pub fn claims_from_decoded(decoded: Result<Vec<ClaimEntry>, DecodeFault>, now: usize) -> (r: Result<
    Claims,
    TokenError,
>)
    ensures
        verified_view(r) == verify_outcome(decoded_view(decoded), now),
{
    match decoded {
        Err(DecodeFault::BadSignature) => Err(TokenError::InvalidSignature),
        Err(DecodeFault::Unreadable) => Err(TokenError::Malformed),
        Ok(entries) => match claims_from_payload(&entries) {
            None => Err(TokenError::Malformed),
            Some(claims) => if now < claims.exp {
                Ok(claims)
            } else {
                Err(TokenError::Expired)
            },
        },
    }
}

/// Verifies `token` against `secret` at time `now` (seconds since the epoch).
///
/// The answer is `verify_outcome` of what the decoding makes of the token.
/// In particular:
/// - a token issued under the same secret is accepted, with the claims it was
///   issued for, as long as `now` is before their expiry, and answered with
///   `Expired` from then on;
/// - a token that is accepted has three dot-free segments, the third being
///   the signature of the first two; one whose third segment is anything
///   else is never accepted;
/// - `InvalidSignature` is the answer only to a token of three dot-free
///   segments with another third segment than that signature;
/// - a token with fewer than two dots is `Malformed`.
pub fn verify_token(token: &str, secret: &SigningSecret, now: usize) -> (r: Result<Claims, TokenError>)
    ensures
        verified_view(r) == verify_outcome(jwt_decoding(token@, secret@), now),
        forall|claims: ClaimsView|
            token@ == #[trigger] issued_token(claims, secret@) ==> verified_view(r) == if now
                < claims.exp {
                Ok::<ClaimsView, TokenError>(claims)
            } else {
                Err::<ClaimsView, TokenError>(TokenError::Expired)
            },
        forall|header: Seq<char>, body: Seq<char>, signature: Seq<char>|
            no_dot(header) && no_dot(body) && token@ == #[trigger] compact(header, body, signature)
                && signature != hs256_signature(dotted(header, body), secret@) ==> r is Err,
        r is Ok ==> signed(token@, secret@),
        r matches Err(TokenError::InvalidSignature) ==> wrongly_signed(token@, secret@),
        unsplit(token@) ==> r matches Err(TokenError::Malformed),
{
    let decoded = decode_payload(token, secret.as_bytes());
    proof {
        assert forall|claims: ClaimsView|
            token@ == #[trigger] issued_token(claims, secret@) implies verify_outcome(
            decoded_view(decoded),
            now,
        ) == if now < claims.exp {
            Ok::<ClaimsView, TokenError>(claims)
        } else {
            Err::<ClaimsView, TokenError>(TokenError::Expired)
        } by {
            lemma_claims_payload(claims);
            assert(token@ == jwt_encoding(claims_payload(claims), secret@));
            lemma_restored_claims_verify(claims, decoded_view(decoded), now);
        }
        assert forall|header: Seq<char>, body: Seq<char>, signature: Seq<char>|
            no_dot(header) && no_dot(body) && token@ == #[trigger] compact(header, body, signature)
                && signature != hs256_signature(dotted(header, body), secret@) implies decoded
            is Err by {
            if decoded is Ok {
                let (h, b) = choose|h: Seq<char>, b: Seq<char>| #[trigger]
                    sealed(token@, h, b, hs256_signature(dotted(h, b), secret@));
                lemma_compact_unique(
                    header,
                    body,
                    signature,
                    h,
                    b,
                    hs256_signature(dotted(h, b), secret@),
                );
            }
        }
    }
    claims_from_decoded(decoded, now)
}

} // verus!
