//! The storage backends the controller delivers requests to.
pub mod postgrest;

use crate::dto::ListBucketsOutput;
use crate::error::{ErrorCode, S3Failure};
use crate::models::Context;
use vstd::prelude::*;

verus! {

/// What a backend that does not support listing answers: `NotImplemented`,
/// "list is not implemented yet".
pub fn list_not_implemented(ctx: Context) -> (res: Result<ListBucketsOutput, S3Failure>)
    ensures
        res is Err,
        res->Err_0.code == ErrorCode::NotImplemented,
        res->Err_0.message is Some,
        res->Err_0.message->Some_0@ == "list is not implemented yet"@,
{
    Err(S3Failure::with_message(ErrorCode::NotImplemented, "list is not implemented yet"))
}

} // verus!
