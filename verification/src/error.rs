use vstd::prelude::*;

verus! {

/// The error type of `user_permission_core`, carried through unchanged.
#[verifier::external_type_specification]
#[verifier::external_body]
pub struct ExCoreError(user_permission_core::Error);

/// The error type of `serde_json`, carried through unchanged.
#[verifier::external_type_specification]
#[verifier::external_body]
pub struct ExJsonError(serde_json::Error);

/// Everything the bindings can report to Python.
#[derive(Debug)]
pub enum BindingError {
    /// The database was used before `connect()` or after `close()`.
    NotConnected,
    /// A token algorithm other than `HS256`, `HS384` or `HS512` was named.
    UnsupportedAlgorithm { name: String },
    /// A service-client scope outside the read-only scope set was named.
    UnknownScope { scope: String },
    /// The extra claims handed to `create_token` are not valid JSON.
    InvalidClaims(serde_json::Error),
    /// Verified claims could not be written back out as JSON.
    ClaimsEncoding(serde_json::Error),
    /// An error reported by `user_permission_core`.
    Core(user_permission_core::Error),
}

} // verus!

verus! {

/// What an operation reports for the outcome `r` of a call into
/// `user_permission_core`: the value itself, or the core error unchanged.
pub open spec fn spec_from_core<T>(r: Result<T, user_permission_core::Error>) -> Result<T, BindingError> {
    match r {
        Ok(v) => Ok(v),
        Err(e) => Err(BindingError::Core(e)),
    }
}

/// Reports the outcome of a call into `user_permission_core`.
pub fn from_core<T>(r: Result<T, user_permission_core::Error>) -> (out: Result<T, BindingError>)
    ensures
        out == spec_from_core(r),
{
    match r {
        Ok(v) => Ok(v),
        Err(e) => Err(BindingError::Core(e)),
    }
}

} // verus!
