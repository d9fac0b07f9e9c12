use vstd::prelude::*;

verus! {

/// The error type of the `bcrypt` crate, carried through unread.
#[verifier::external_type_specification]
#[verifier::external_body]
pub struct ExBcryptError(bcrypt::BcryptError);

/// What `bcrypt::verify` makes of a password and a stored hash: whether they
/// match, or `None` where it fails on the hash.
pub uninterp spec fn bcrypt_verification(password: Seq<char>, hash: Seq<char>) -> Option<bool>;

/// Calls `bcrypt::verify`. Trusted: its answer depends on the password and
/// the hash alone, and is the one named by `bcrypt_verification`.
#[verifier::external_body]
pub(crate) fn verify_password(password: &str, hash: &str) -> (r: Result<bool, bcrypt::BcryptError>)
    ensures
        match r {
            Ok(matched) => bcrypt_verification(password@, hash@) == Some(matched),
            Err(_) => bcrypt_verification(password@, hash@) is None,
        },
{
    bcrypt::verify(password, hash)
}

/// Calls `bcrypt::hash` with the crate's default cost. The salt is drawn at
/// random, so two calls on one password differ. Trusted: whatever hash comes
/// back, `bcrypt::verify` finds that the password matches it.
#[verifier::external_body]
pub(crate) fn hash_password(password: &str) -> (r: Result<String, bcrypt::BcryptError>)
    ensures
        r matches Ok(hash) ==> bcrypt_verification(password@, hash@) == Some(true),
{
    bcrypt::hash(password, bcrypt::DEFAULT_COST)
}

} // verus!
