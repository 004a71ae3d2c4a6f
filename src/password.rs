//! One-way salted password hashing.

use vstd::prelude::*;

verus! {

#[verifier::external_type_specification]
#[verifier::external_body]
pub struct ExBcryptError(bcrypt::BcryptError);

/// Whether `s` has the shape of a bcrypt hash made at cost twelve:
/// sixty characters that begin with `$2b$12$`.
pub open spec fn is_password_hash(s: Seq<char>) -> bool {
    &&& s.len() == 60
    &&& s[0] == '$'
    &&& s[1] == '2'
    &&& s[2] == 'b'
    &&& s[3] == '$'
    &&& s[4] == '1'
    &&& s[5] == '2'
    &&& s[6] == '$'
}

/// The bcrypt hash string, version 2b at cost twelve, of `password` with the
/// base-64 salt text `salt`.
pub uninterp spec fn bcrypt_of(password: Seq<char>, salt: Seq<char>) -> Seq<char>;

/// The salt text of a bcrypt hash string: the twenty-two characters after
/// the `$2b$12$` prefix.
pub open spec fn salt_of(h: Seq<char>) -> Seq<char> {
    h.subrange(7, 29)
}

/// Relies on `bcrypt::hash` with `bcrypt::DEFAULT_COST` (twelve): it draws a
/// random salt and, on success, returns the sixty-character hash string in the
/// `$2b$12$` format: the hash of `password` with that salt, whose text stands
/// at characters seven to twenty-eight. It fails only when no random salt can
/// be drawn.
#[verifier::external_body]
fn bcrypt_hash(password: &str) -> (r: Result<String, bcrypt::BcryptError>)
    ensures
        r matches Ok(h) ==> is_password_hash(h@),
        r matches Ok(h) ==> h@ == bcrypt_of(password@, salt_of(h@)),
{
    bcrypt::hash(password, bcrypt::DEFAULT_COST)
}

/// Hashes `password` with a fresh random salt; `None` when the hashing
/// step could not run.
pub fn hash_password(password: &str) -> (r: Option<String>)
    ensures
        r matches Some(h) ==> is_password_hash(h@),
        r matches Some(h) ==> h@ == bcrypt_of(password@, salt_of(h@)),
{
    match bcrypt_hash(password) {
        Ok(h) => Some(h),
        Err(_) => None,
    }
}

} // verus!
