pub mod jwt;
pub mod middleware;
pub mod password;
pub mod payload;
pub mod signing;

pub use jwt::{create_token, verify_token, Claims, SigningSecret, TokenError};
pub use middleware::{auth_middleware, AuthError, AuthErrorKind, AuthenticatedUser, RequestHeader};
