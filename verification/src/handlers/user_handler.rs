use vstd::prelude::*;

use crate::auth::jwt::{
    create_token, expiry, issued_token, Claims, ClaimsView, SigningSecret, DEFAULT_TOKEN_LIFETIME,
};
use crate::auth::middleware::{AuthErrorKind, AuthenticatedUser};
use crate::auth::password::{bcrypt_verification, hash_password, verify_password};
use crate::dtos::user_dto::{
    CreateUserRequest, LoginRequest, LoginResponse, UpdateUserRequest, UserResponse,
    UserResponseView,
};
use crate::models::object_id::{
    is_object_id_text, object_id_bytes, object_id_text, optional_hex, to_optional_hex, ObjectId,
};
use crate::models::time::Timestamp;
use crate::models::user::{User, UserView};
use crate::utils::errors::{fails_with, AppError, Status};
use crate::utils::result_ext::ResultExt;

verus! {

/// The role that may create and change users.
pub const ADMIN_ROLE: i16 = 0;

/// How the user stored under `id` is shown.
pub open spec fn user_response_of(id: Seq<u8>, user: UserView) -> UserResponseView {
    UserResponseView {
        id: object_id_text(id),
        full_name: user.full_name,
        email: user.email,
        role: user.role,
        created_by: optional_hex(user.created_by),
        updated_by: optional_hex(user.updated_by),
        created_at: user.created_at,
        updated_at: user.updated_at,
    }
}

/// Shows the user stored under `id`.
pub fn user_response(id: &ObjectId, user: User) -> (response: UserResponse)
    ensures
        response@ == user_response_of(id@, user@),
{
    UserResponse {
        id: id.to_hex(),
        created_by: to_optional_hex(&user.created_by),
        updated_by: to_optional_hex(&user.updated_by),
        full_name: user.full_name,
        email: user.email,
        role: user.role,
        created_at: user.created_at,
        updated_at: user.updated_at,
    }
}

/// Admits an identity to the operations on users. The role is judged first:
/// an identity that is not an administrator is `Forbidden` whatever else it
/// holds. An administrator whose identifier is not that of a stored record
/// is a bad request. This comes before anything is read or written.
pub fn authorize_admin(admin: &AuthenticatedUser) -> (r: Result<ObjectId, AppError>)
    ensures
        match r {
            Ok(id) => admin.role <= ADMIN_ROLE && is_object_id_text(admin.user_id@) && id@
                == object_id_bytes(admin.user_id@),
            Err(e) => if admin.role > ADMIN_ROLE {
                e.status == Status::Forbidden && e.message@
                    == AuthErrorKind::Forbidden.message_spec()
            } else {
                !is_object_id_text(admin.user_id@) && e.status == Status::BadRequest && e.message@
                    == "Invalid user ID"@
            },
        },
{
    match admin.require_role(ADMIN_ROLE) {
        Ok(_) => {},
        Err(e) => { return Err(AppError::forbidden(e.message.as_str())); },
    }
    ObjectId::parse_str(admin.user_id.as_str()).bad_request("Invalid user ID")
}

/// The record of a user that `admin` creates at `now` from `payload`, with
/// the given hash of the password.
pub open spec fn new_user_of(
    admin: Seq<u8>,
    payload: CreateUserRequest,
    password_hash: Seq<char>,
    now: Timestamp,
) -> UserView {
    UserView {
        id: None,
        full_name: payload.full_name@,
        email: payload.email@,
        password: password_hash,
        role: payload.role,
        created_by: Some(admin),
        updated_by: Some(admin),
        deleted: false,
        created_at: Some(now),
        updated_at: Some(now),
    }
}

/// What creating a user answers, given what hashing the password returned.
pub fn user_from_hashing(
    hashed: Result<String, bcrypt::BcryptError>,
    admin_id: ObjectId,
    payload: CreateUserRequest,
    now: Timestamp,
) -> (r: Result<User, AppError>)
    ensures
        match hashed {
            Ok(hash) => r matches Ok(user) && user@ == new_user_of(admin_id@, payload, hash@, now),
            Err(_) => fails_with(r, Status::InternalServerError, "Failed to hash password"@),
        },
{
    let password = hashed.internal_error("Failed to hash password")?;
    Ok(
        User {
            id: None,
            full_name: payload.full_name,
            email: payload.email,
            password,
            role: payload.role,
            created_by: Some(admin_id),
            updated_by: Some(admin_id),
            deleted: false,
            created_at: Some(now),
            updated_at: Some(now),
        },
    )
}

/// Decides the creation of a user by the administrator `admin_id`, once it
/// is known whether a user with the same email is stored: a conflict if one
/// is; else the record to store, with a hash in place of the password that
/// the password is found to match.
pub fn create_user(
    admin_id: ObjectId,
    payload: CreateUserRequest,
    email_taken: bool,
    now: Timestamp,
) -> (r: Result<User, AppError>)
    ensures
        email_taken ==> fails_with(r, Status::Conflict, "User already exists"@),
        !email_taken ==> match r {
            Ok(user) => user@ == new_user_of(admin_id@, payload, user.password@, now)
                && bcrypt_verification(payload.password@, user.password@) == Some(true),
            Err(e) => fails_with(r, Status::InternalServerError, "Failed to hash password"@),
        },
{
    if email_taken {
        return Err(AppError::conflict("User already exists"));
    }
    let hashed = hash_password(payload.password.as_str());
    user_from_hashing(hashed, admin_id, payload, now)
}

/// Shows a user that was just stored, under the identifier that the store
/// gave it.
pub fn created_user_response(user: User, inserted_id: Option<ObjectId>) -> (r: Result<
    UserResponse,
    AppError,
>)
    ensures
        match inserted_id {
            Some(id) => r matches Ok(response) && response@ == user_response_of(id@, user@),
            None => fails_with(r, Status::InternalServerError, "Failed to get inserted user ID"@),
        },
{
    match inserted_id {
        Some(id) => Ok(user_response(&id, user)),
        None => Err(AppError::internal_error("Failed to get inserted user ID")),
    }
}

/// Answers the request for one user, given what the store found.
pub fn get_user(found: Option<User>) -> (r: Result<UserResponse, AppError>)
    requires
        found matches Some(user) ==> user.id is Some,
    ensures
        match found {
            Some(user) => r matches Ok(response) && response@ == user_response_of(
                user@.id->0,
                user@,
            ),
            None => fails_with(r, Status::NotFound, "User not found"@),
        },
{
    match found {
        None => Err(AppError::not_found("User not found")),
        Some(user) => {
            let id = user.id.unwrap();
            Ok(user_response(&id, user))
        },
    }
}

/// Answers the request for all users, given what the store found: each user
/// shown, in the order found.
pub fn list_users(found: Vec<User>) -> (responses: Vec<UserResponse>)
    requires
        forall|i: int| 0 <= i < found.len() ==> (#[trigger] found[i]).id is Some,
    ensures
        responses.len() == found.len(),
        forall|i: int|
            0 <= i < found.len() ==> (#[trigger] responses[i])@ == user_response_of(
                found[i]@.id->0,
                found[i]@,
            ),
{
    let mut responses: Vec<UserResponse> = Vec::new();
    let mut i: usize = 0;
    while i < found.len()
        invariant
            i <= found.len(),
            responses.len() == i,
            forall|k: int| 0 <= k < found.len() ==> (#[trigger] found[k]).id is Some,
            forall|k: int|
                0 <= k < i ==> (#[trigger] responses[k])@ == user_response_of(
                    found[k]@.id->0,
                    found[k]@,
                ),
        decreases found.len() - i,
    {
        let user = &found[i];
        let id = user.id.unwrap();
        let response = UserResponse {
            id: id.to_hex(),
            created_by: to_optional_hex(&user.created_by),
            updated_by: to_optional_hex(&user.updated_by),
            full_name: user.full_name.clone(),
            email: user.email.clone(),
            role: user.role,
            created_at: user.created_at,
            updated_at: user.updated_at,
        };
        responses.push(response);
        i += 1;
    }
    responses
}

/// The record of the user `id` after `admin` has changed it at `now`: the
/// fields that `payload` names are replaced, and the administrator is noted.
pub open spec fn updated_user_of(
    id: Seq<u8>,
    admin: Seq<u8>,
    existing: UserView,
    payload: UpdateUserRequest,
    now: Timestamp,
) -> UserView {
    UserView {
        id: Some(id),
        full_name: match payload.full_name {
            Some(full_name) => full_name@,
            None => existing.full_name,
        },
        email: match payload.email {
            Some(email) => email@,
            None => existing.email,
        },
        password: match payload.password {
            Some(password) => password@,
            None => existing.password,
        },
        role: match payload.role {
            Some(role) => role,
            None => existing.role,
        },
        created_by: Some(admin),
        updated_by: Some(admin),
        deleted: existing.deleted,
        created_at: existing.created_at,
        updated_at: Some(now),
    }
}

/// Decides the change of the user `id` by the administrator `admin_id`,
/// given what the store found under `id`.
pub fn update_user(
    id: ObjectId,
    admin_id: ObjectId,
    existing: Option<User>,
    payload: UpdateUserRequest,
    now: Timestamp,
) -> (r: Result<User, AppError>)
    ensures
        match existing {
            Some(user) => r matches Ok(updated) && updated@ == updated_user_of(
                id@,
                admin_id@,
                user@,
                payload,
                now,
            ),
            None => fails_with(r, Status::NotFound, "User not found"@),
        },
{
    let user = match existing {
        Some(user) => user,
        None => { return Err(AppError::not_found("User not found")); },
    };
    Ok(
        User {
            id: Some(id),
            full_name: match payload.full_name {
                Some(full_name) => full_name,
                None => user.full_name,
            },
            email: match payload.email {
                Some(email) => email,
                None => user.email,
            },
            password: match payload.password {
                Some(password) => password,
                None => user.password,
            },
            role: match payload.role {
                Some(role) => role,
                None => user.role,
            },
            created_by: Some(admin_id),
            updated_by: Some(admin_id),
            deleted: user.deleted,
            created_at: user.created_at,
            updated_at: Some(now),
        },
    )
}

/// The claims of the token that a login at `now` gives the stored user.
pub open spec fn login_claims(user: UserView, now: usize) -> ClaimsView {
    ClaimsView {
        user_id: object_id_text(user.id->0),
        email: user.email,
        role: user.role,
        exp: expiry(now, DEFAULT_TOKEN_LIFETIME),
    }
}

/// Answers a login at `now`, given the user that the store found under the
/// email of the request. Without a user there is nothing to log in to. The
/// password is checked once against the stored hash: a hash that cannot be
/// read is an internal error, a password that does not match is refused, and
/// one that matches gets a token for the default lifetime.
pub fn login(found: Option<User>, payload: &LoginRequest, secret: &SigningSecret, now: usize) -> (r:
    Result<LoginResponse, AppError>)
    requires
        found matches Some(user) ==> user.id is Some,
    ensures
        match found {
            None => fails_with(r, Status::NotFound, "User not found"@),
            Some(user) => match bcrypt_verification(payload.password@, user.password@) {
                None => fails_with(r, Status::InternalServerError, "Failed to verify password"@),
                Some(false) => fails_with(r, Status::Unauthorized, "Invalid credentials"@),
                Some(true) => r matches Ok(response) && response.token@ == issued_token(
                    login_claims(user@, now),
                    secret@,
                ),
            },
        },
{
    let user = match found {
        Some(user) => user,
        None => { return Err(AppError::not_found("User not found")); },
    };
    let matched = verify_password(payload.password.as_str(), user.password.as_str()).internal_error(
        "Failed to verify password",
    )?;
    if !matched {
        return Err(AppError::unauthorized("Invalid credentials"));
    }
    let id = user.id.unwrap();
    let claims = Claims::new(id.to_hex(), user.email, user.role, now, DEFAULT_TOKEN_LIFETIME);
    let token = create_token(claims, secret).internal_error("Failed to create token")?;
    Ok(LoginResponse { token })
}

} // verus!
