use vstd::prelude::*;
use vstd::string::StrSliceExecFns;

use super::jwt::{
    issued_token, verified_view, verify_outcome, verify_token, Claims, ClaimsView, SigningSecret,
    TokenError,
};
use super::signing::{compact, dotted, hs256_signature, jwt_decoding, no_dot, signed};
use crate::utils::errors::Status;
use crate::utils::text::{
    eq_either_case, has_prefix, matches_either_case, optional_text_view, starts_with,
};

verus! {

/// The kinds of failure of authentication and authorization.
#[derive(Clone, Copy, Debug, PartialEq, Eq, Structural)]
pub enum AuthErrorKind {
    /// The request carries no `Authorization` header.
    MissingCredential,
    /// The header does not have the form `Bearer <token>`.
    MalformedCredential,
    /// The token was not accepted, for whatever reason.
    InvalidCredential,
    /// The identity is not privileged enough for the operation.
    Forbidden,
    /// The signing secret is not configured.
    ConfigurationError,
}

impl AuthErrorKind {
    /// The status that reports a failure of this kind. A configuration error
    /// is reported to nobody: it stops the service before it takes requests.
    pub open spec fn status_spec(self) -> Option<Status> {
        match self {
            AuthErrorKind::MissingCredential => Some(Status::Unauthorized),
            AuthErrorKind::MalformedCredential => Some(Status::Unauthorized),
            AuthErrorKind::InvalidCredential => Some(Status::Unauthorized),
            AuthErrorKind::Forbidden => Some(Status::Forbidden),
            AuthErrorKind::ConfigurationError => None,
        }
    }

    pub fn status(self) -> (status: Option<Status>)
        ensures
            status == self.status_spec(),
    {
        match self {
            AuthErrorKind::MissingCredential => Some(Status::Unauthorized),
            AuthErrorKind::MalformedCredential => Some(Status::Unauthorized),
            AuthErrorKind::InvalidCredential => Some(Status::Unauthorized),
            AuthErrorKind::Forbidden => Some(Status::Forbidden),
            AuthErrorKind::ConfigurationError => None,
        }
    }

    /// The message shown for a failure of this kind.
    pub open spec fn message_spec(self) -> Seq<char> {
        match self {
            AuthErrorKind::MissingCredential => "Missing Authorization header"@,
            AuthErrorKind::MalformedCredential => "Invalid Authorization header format"@,
            AuthErrorKind::InvalidCredential => "Invalid or expired token"@,
            AuthErrorKind::Forbidden => "Insufficient permissions"@,
            AuthErrorKind::ConfigurationError => "JWT_SECRET must be set"@,
        }
    }

    pub fn message(self) -> (message: String)
        ensures
            message@ == self.message_spec(),
    {
        match self {
            AuthErrorKind::MissingCredential => "Missing Authorization header".to_owned(),
            AuthErrorKind::MalformedCredential => "Invalid Authorization header format".to_owned(),
            AuthErrorKind::InvalidCredential => "Invalid or expired token".to_owned(),
            AuthErrorKind::Forbidden => "Insufficient permissions".to_owned(),
            AuthErrorKind::ConfigurationError => "JWT_SECRET must be set".to_owned(),
        }
    }
}

/// A failure of authentication or authorization. The kind and the message
/// are for the client. The cause is for the service's own records: it tells
/// why a token was not accepted, which the client must not learn.
#[derive(Debug, Clone, PartialEq, Eq)]
pub struct AuthError {
    pub kind: AuthErrorKind,
    pub message: String,
    pub cause: Option<TokenError>,
}

impl AuthError {
    /// The failure of the given kind, with the message of that kind.
    pub fn new(kind: AuthErrorKind) -> (e: AuthError)
        ensures
            e.kind == kind,
            e.message@ == kind.message_spec(),
            e.cause is None,
    {
        AuthError { kind, message: kind.message(), cause: None }
    }

    /// The rejection of a token that was not accepted because of `cause`.
    /// What the client sees of it does not depend on the cause.
    pub fn invalid_credential(cause: TokenError) -> (e: AuthError)
        ensures
            e.kind == AuthErrorKind::InvalidCredential,
            e.message@ == AuthErrorKind::InvalidCredential.message_spec(),
            e.cause == Some(cause),
    {
        AuthError {
            kind: AuthErrorKind::InvalidCredential,
            message: AuthErrorKind::InvalidCredential.message(),
            cause: Some(cause),
        }
    }

    /// The status that reports this failure.
    pub fn status(&self) -> (status: Option<Status>)
        ensures
            status == self.kind.status_spec(),
    {
        self.kind.status()
    }
}

/// The identity that a request was made under, read from an accepted token.
#[derive(Debug, Clone, PartialEq, Eq)]
pub struct AuthenticatedUser {
    pub user_id: String,
    pub email: String,
    pub role: i16,
}

pub struct AuthenticatedUserView {
    pub user_id: Seq<char>,
    pub email: Seq<char>,
    pub role: i16,
}

impl View for AuthenticatedUser {
    type V = AuthenticatedUserView;

    open spec fn view(&self) -> AuthenticatedUserView {
        AuthenticatedUserView { user_id: self.user_id@, email: self.email@, role: self.role }
    }
}

/// The identity that a set of claims stands for.
pub open spec fn identity_of(claims: ClaimsView) -> AuthenticatedUserView {
    AuthenticatedUserView { user_id: claims.user_id, email: claims.email, role: claims.role }
}

impl AuthenticatedUser {
    /// The identity that `claims` stands for.
    pub fn from_claims(claims: Claims) -> (user: AuthenticatedUser)
        ensures
            user@ == identity_of(claims@),
    {
        AuthenticatedUser { user_id: claims.user_id, email: claims.email, role: claims.role }
    }

    /// Accepts the identity for an operation that asks for `max_role`: a lower
    /// role is a higher privilege, so it passes exactly when its role is at
    /// most `max_role`.
    pub fn require_role(&self, max_role: i16) -> (r: Result<(), AuthError>)
        ensures
            r is Ok <==> self.role <= max_role,
            r matches Err(e) ==> e.kind == AuthErrorKind::Forbidden && e.message@
                == AuthErrorKind::Forbidden.message_spec() && e.cause is None,
    {
        if self.role <= max_role {
            Ok(())
        } else {
            Err(AuthError::new(AuthErrorKind::Forbidden))
        }
    }
}

/// One header of a request: its name, and its value where that is text.
#[derive(Debug, Clone, PartialEq, Eq)]
pub struct RequestHeader {
    pub name: String,
    pub value: Option<String>,
}

pub struct RequestHeaderView {
    pub name: Seq<char>,
    pub value: Option<Seq<char>>,
}

impl View for RequestHeader {
    type V = RequestHeaderView;

    open spec fn view(&self) -> RequestHeaderView {
        RequestHeaderView { name: self.name@, value: optional_text_view(self.value) }
    }
}

/// The headers of a request as the sequence of their views.
pub open spec fn headers_view(headers: Seq<RequestHeader>) -> Seq<RequestHeaderView> {
    headers.map_values(|h: RequestHeader| h@)
}

/// `name` is `Authorization`, in whatever case its letters are written.
pub open spec fn is_authorization(name: Seq<char>) -> bool {
    matches_either_case(name, "authorization"@, "AUTHORIZATION"@)
}

/// The value of the first `Authorization` header, if there is one and its
/// value is text. Headers after the first of that name are not looked at.
pub open spec fn authorization_value(headers: Seq<RequestHeaderView>) -> Option<Seq<char>>
    decreases headers.len(),
{
    if headers.len() == 0 {
        None
    } else if is_authorization(headers[0].name) {
        headers[0].value
    } else {
        authorization_value(headers.drop_first())
    }
}

/// The token of a header value of the form `Bearer <token>`: all that follows
/// the prefix, as it stands. `None` where the prefix is missing or nothing
/// follows it.
pub open spec fn bearer_token(value: Seq<char>) -> Option<Seq<char>> {
    if starts_with(value, "Bearer "@) && value.len() > "Bearer "@.len() {
        Some(value.subrange("Bearer "@.len() as int, value.len() as int))
    } else {
        None
    }
}

/// The token that a request presents, or why it presents none.
pub open spec fn credential(headers: Seq<RequestHeaderView>) -> Result<Seq<char>, AuthErrorKind> {
    match authorization_value(headers) {
        None => Err(AuthErrorKind::MissingCredential),
        Some(value) => match bearer_token(value) {
            None => Err(AuthErrorKind::MalformedCredential),
            Some(token) => Ok(token),
        },
    }
}

/// The identity that a verification stands for. Every failure of the
/// verification is the same to the client.
pub open spec fn identity_outcome(verified: Result<ClaimsView, TokenError>) -> Result<
    AuthenticatedUserView,
    AuthErrorKind,
> {
    match verified {
        Ok(claims) => Ok(identity_of(claims)),
        Err(_) => Err(AuthErrorKind::InvalidCredential),
    }
}

/// The identity of a request with the given headers at time `now`, or why it
/// has none.
pub open spec fn authentication(
    headers: Seq<RequestHeaderView>,
    secret: Seq<u8>,
    now: usize,
) -> Result<AuthenticatedUserView, AuthErrorKind> {
    match credential(headers) {
        Err(kind) => Err(kind),
        Ok(token) => identity_outcome(verify_outcome(jwt_decoding(token, secret), now)),
    }
}

/// Why the token of a request was not accepted, where that is why the
/// request has no identity.
pub open spec fn rejection_cause(
    headers: Seq<RequestHeaderView>,
    secret: Seq<u8>,
    now: usize,
) -> Option<TokenError> {
    match credential(headers) {
        Err(_) => None,
        Ok(token) => match verify_outcome(jwt_decoding(token, secret), now) {
            Ok(_) => None,
            Err(cause) => Some(cause),
        },
    }
}

/// The view of what an authentication returned.
pub open spec fn authenticated_view(r: Result<AuthenticatedUser, AuthError>) -> Result<
    AuthenticatedUserView,
    AuthErrorKind,
> {
    match r {
        Ok(user) => Ok(user@),
        Err(e) => Err(e.kind),
    }
}

/// `authorization_value` skips the headers before `from` when none of them is
/// an `Authorization` header.
pub proof fn lemma_authorization_skip(headers: Seq<RequestHeaderView>, from: int)
    requires
        0 <= from <= headers.len(),
        forall|k: int| 0 <= k < from ==> !is_authorization((#[trigger] headers[k]).name),
    ensures
        authorization_value(headers) == authorization_value(headers.skip(from)),
    decreases from,
{
    if from == 0 {
        assert(headers.skip(0) =~= headers);
    } else {
        assert(!is_authorization(headers[0].name));
        let rest = headers.drop_first();
        assert forall|k: int| 0 <= k < from - 1 implies !is_authorization(
            (#[trigger] rest[k]).name,
        ) by {
            assert(rest[k] == headers[k + 1]);
        }
        lemma_authorization_skip(rest, from - 1);
        assert(rest.skip(from - 1) =~= headers.skip(from));
    }
}

/// Finds the value of the first `Authorization` header, where it is text.
pub fn find_authorization<'a>(headers: &'a Vec<RequestHeader>) -> (found: Option<&'a str>)
    ensures
        match found {
            Some(value) => authorization_value(headers_view(headers@)) == Some(value@),
            None => authorization_value(headers_view(headers@)) is None,
        },
{
    let ghost all = headers_view(headers@);
    let mut i: usize = 0;
    while i < headers.len()
        invariant
            i <= headers.len(),
            all == headers_view(headers@),
            forall|k: int| 0 <= k < i ==> !is_authorization((#[trigger] all[k]).name),
        decreases headers.len() - i,
    {
        if eq_either_case(headers[i].name.as_str(), "authorization", "AUTHORIZATION") {
            proof {
                lemma_authorization_skip(all, i as int);
                assert(all.skip(i as int)[0] == headers@[i as int]@);
            }
            return match &headers[i].value {
                Some(value) => Some(value.as_str()),
                None => None,
            };
        }
        i += 1;
    }
    proof {
        lemma_authorization_skip(all, all.len() as int);
    }
    None
}

/// Takes the token out of a header value of the form `Bearer <token>`.
pub fn parse_bearer<'a>(value: &'a str) -> (token: Option<&'a str>)
    ensures
        match token {
            Some(t) => bearer_token(value@) == Some(t@),
            None => bearer_token(value@) is None,
        },
{
    proof {
        reveal_strlit("Bearer ");
    }
    if !has_prefix(value, "Bearer ") {
        return None;
    }
    let len = value.unicode_len();
    if len <= 7 {
        return None;
    }
    Some(value.substring_char(7, len))
}

/// Locates the bearer token of a request: the first two steps of the
/// authentication, which look at nothing but the headers.
pub fn extract_credential<'a>(headers: &'a Vec<RequestHeader>) -> (r: Result<&'a str, AuthError>)
    ensures
        match r {
            Ok(token) => credential(headers_view(headers@)) == Ok::<Seq<char>, AuthErrorKind>(
                token@,
            ),
            Err(e) => credential(headers_view(headers@)) == Err::<Seq<char>, AuthErrorKind>(e.kind)
                && e.message@ == e.kind.message_spec() && e.cause is None,
        },
{
    match find_authorization(headers) {
        None => Err(AuthError::new(AuthErrorKind::MissingCredential)),
        Some(value) => match parse_bearer(value) {
            None => Err(AuthError::new(AuthErrorKind::MalformedCredential)),
            Some(token) => Ok(token),
        },
    }
}

/// Turns what the verification of a token returned into the identity of the
/// request, or into the one rejection that stands for every failure of it.
pub fn identity_from_verified(verified: Result<Claims, TokenError>) -> (r: Result<
    AuthenticatedUser,
    AuthError,
>)
    ensures
        authenticated_view(r) == identity_outcome(verified_view(verified)),
        r matches Err(e) ==> e.message@ == e.kind.message_spec(),
        r matches Err(e) ==> (verified matches Err(cause) && e.cause == Some(cause)),
{
    match verified {
        Ok(claims) => Ok(AuthenticatedUser::from_claims(claims)),
        Err(cause) => Err(AuthError::invalid_credential(cause)),
    }
}

/// Authenticates a request from its headers, at time `now`.
///
/// A request without an `Authorization` header, or with one that is not of
/// the form `Bearer <token>`, is rejected for that alone. Otherwise the token
/// decides: it is verified against `secret`, and every failure of that is an
/// `InvalidCredential`, whose cause is kept beside it. A rejection is always
/// of the unauthorized class. An identity is given only to a request whose
/// token has three dot-free segments, the third being the signature of the
/// first two.
pub fn auth_middleware(headers: &Vec<RequestHeader>, secret: &SigningSecret, now: usize) -> (r:
    Result<AuthenticatedUser, AuthError>)
    ensures
        authenticated_view(r) == authentication(headers_view(headers@), secret@, now),
        r matches Err(e) ==> e.message@ == e.kind.message_spec() && e.kind.status_spec() == Some(
            Status::Unauthorized,
        ) && e.cause == rejection_cause(headers_view(headers@), secret@, now),
        r is Ok ==> (credential(headers_view(headers@)) matches Ok(token) && signed(
            token,
            secret@,
        )),
        forall|claims: ClaimsView|
            credential(headers_view(headers@)) == Ok::<Seq<char>, AuthErrorKind>(
                #[trigger] issued_token(claims, secret@),
            ) ==> authenticated_view(r) == if now < claims.exp {
                Ok::<AuthenticatedUserView, AuthErrorKind>(identity_of(claims))
            } else {
                Err::<AuthenticatedUserView, AuthErrorKind>(AuthErrorKind::InvalidCredential)
            },
        forall|header: Seq<char>, body: Seq<char>, signature: Seq<char>|
            no_dot(header) && no_dot(body) && credential(headers_view(headers@)) == Ok::<
                Seq<char>,
                AuthErrorKind,
            >(#[trigger] compact(header, body, signature)) && signature != hs256_signature(
                dotted(header, body),
                secret@,
            ) ==> authenticated_view(r) == Err::<AuthenticatedUserView, AuthErrorKind>(
                AuthErrorKind::InvalidCredential,
            ),
{
    match extract_credential(headers) {
        Err(e) => Err(e),
        Ok(token) => identity_from_verified(verify_token(token, secret, now)),
    }
}

} // verus!
