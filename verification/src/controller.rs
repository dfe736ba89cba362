//! The business rules applied before a request reaches a backend.
use crate::error::{ErrorCode, S3Failure};
use crate::models::{Context, User};
use vstd::prelude::*;

verus! {

/// Decides a bucket listing request: a request without credentials is
/// refused with `CredentialsNotSupported`, "Credentials must be provided";
/// otherwise the backend is asked to list on behalf of the request's user.
pub fn list_buckets_context(has_credentials: bool, user: Option<User>) -> (res: Result<Context, S3Failure>)
    ensures
        res is Ok <==> has_credentials,
        res is Ok ==> res->Ok_0.user == user,
        res is Err ==> res->Err_0.code == ErrorCode::CredentialsNotSupported,
        res is Err ==> res->Err_0.message is Some && res->Err_0.message->Some_0@ == "Credentials must be provided"@,
{
    if !has_credentials {
        return Err(S3Failure::with_message(ErrorCode::CredentialsNotSupported, "Credentials must be provided"));
    }
    Ok(Context { user })
}

} // verus!
