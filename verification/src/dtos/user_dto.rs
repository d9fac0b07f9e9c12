use vstd::prelude::*;

use crate::models::time::Timestamp;
use crate::utils::text::optional_text_view;

verus! {

/// What a caller sends to create a user.
#[derive(Debug, Clone, PartialEq, Eq)]
pub struct CreateUserRequest {
    pub full_name: String,
    pub email: String,
    pub password: String,
    pub role: i16,
}

/// What a caller sends to change a user: the fields to replace.
#[derive(Debug, Clone, PartialEq, Eq)]
pub struct UpdateUserRequest {
    pub full_name: Option<String>,
    pub email: Option<String>,
    pub password: Option<String>,
    pub role: Option<i16>,
}

/// A user as it is shown: without the password, identifiers in hexadecimal.
#[derive(Debug, Clone, PartialEq, Eq)]
pub struct UserResponse {
    pub id: String,
    pub full_name: String,
    pub email: String,
    pub role: i16,
    pub created_by: Option<String>,
    pub updated_by: Option<String>,
    pub created_at: Option<Timestamp>,
    pub updated_at: Option<Timestamp>,
}

pub struct UserResponseView {
    pub id: Seq<char>,
    pub full_name: Seq<char>,
    pub email: Seq<char>,
    pub role: i16,
    pub created_by: Option<Seq<char>>,
    pub updated_by: Option<Seq<char>>,
    pub created_at: Option<Timestamp>,
    pub updated_at: Option<Timestamp>,
}

impl View for UserResponse {
    type V = UserResponseView;

    open spec fn view(&self) -> UserResponseView {
        UserResponseView {
            id: self.id@,
            full_name: self.full_name@,
            email: self.email@,
            role: self.role,
            created_by: optional_text_view(self.created_by),
            updated_by: optional_text_view(self.updated_by),
            created_at: self.created_at,
            updated_at: self.updated_at,
        }
    }
}

/// What a caller sends to log in.
#[derive(Debug, Clone, PartialEq, Eq)]
pub struct LoginRequest {
    pub email: String,
    pub password: String,
}

/// The answer to a successful login: the token to present from then on.
#[derive(Debug, Clone, PartialEq, Eq)]
pub struct LoginResponse {
    pub token: String,
}

} // verus!
