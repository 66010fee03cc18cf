//! Password hashing with Argon2id, as `user_permission_core` stores passwords.
use vstd::prelude::*;

use crate::error::{from_core, BindingError};

verus! {

/// Whether `password` matches the PHC-formatted Argon2 hash `hashed`; false
/// for a text that is not such a hash.
pub uninterp spec fn password_matches(password: Seq<char>, hashed: Seq<char>) -> bool;

/// Calls `user_permission_core::password::hash`, which hashes with Argon2id
/// under a fresh random salt. The hash depends on the salt and is not
/// claimed. Claims: hashing succeeds for a password of at most `0x3fff_ffff`
/// characters (Argon2 refuses only passwords over `u32::MAX` bytes, and a
/// character takes at most four), and a returned hash matches the password
/// (verification recomputes it from the salt and parameters the hash carries).
#[verifier::external_body]
fn core_hash_password(password: &str) -> (r: Result<String, user_permission_core::Error>)
    ensures
        password@.len() <= 0x3fff_ffff ==> r is Ok,
        r matches Ok(hashed) ==> password_matches(password@, hashed@),
{
    user_permission_core::password::hash(password)
}

/// Calls `user_permission_core::password::verify`. Claims: the answer is
/// `password_matches`.
#[verifier::external_body]
fn core_verify_password(password: &str, hashed: &str) -> (r: bool)
    ensures
        r == password_matches(password@, hashed@),
{
    user_permission_core::password::verify(password, hashed)
}

/// Hashes `password` for storage; the hash it returns matches the password.
/// Hashing succeeds for every password of at most `0x3fff_ffff` characters.
pub fn hash_password(password: &str) -> (r: Result<String, BindingError>)
    ensures
        password@.len() <= 0x3fff_ffff ==> r is Ok,
        r matches Err(e) ==> e is Core,
        r matches Ok(hashed) ==> password_matches(password@, hashed@),
{
    from_core(core_hash_password(password))
}

/// Whether `password` matches the stored hash `hashed`.
pub fn verify_password(password: &str, hashed: &str) -> (r: bool)
    ensures
        r == password_matches(password@, hashed@),
{
    core_verify_password(password, hashed)
}

} // verus!
