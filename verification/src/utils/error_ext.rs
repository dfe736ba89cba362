//! Turning the failure of a step into an S3 error answer.
use crate::error::{detailed_message, ErrorCode, ErrorText, S3Failure};
use vstd::prelude::*;

verus! {

/// What `map_s3_error` makes of `result`: a success is kept, a failure whose
/// `Debug` rendering is `detail` becomes an error with `code` and message
/// `"<context>: <detail>"`.
pub open spec fn mapped_as<T>(
    result: Result<T, ErrorText>,
    code: ErrorCode,
    context: Seq<char>,
    res: Result<T, S3Failure>,
) -> bool {
    match result {
        Ok(v) => res == Ok::<T, S3Failure>(v),
        Err(detail) => {
            &&& res is Err
            &&& res->Err_0.code == code
            &&& res->Err_0.message is Some
            &&& res->Err_0.message->Some_0@ == detailed_message(context, detail.rendering@)
        },
    }
}

/// Attaches an S3 error code and a context to a failing step.
///
/// The error side is the failure's `Debug` rendering (`ErrorText`), which the
/// message reports after the context, as `"{context}: {error:?}"` does.
pub trait MapS3Error<T>: Sized {
    fn map_s3_error(self, code: ErrorCode, context: &str) -> Result<T, S3Failure>;
}

impl<T> MapS3Error<T> for Result<T, ErrorText> {
    fn map_s3_error(self, code: ErrorCode, context: &str) -> (res: Result<T, S3Failure>)
        ensures
            mapped_as(self, code, context@, res),
    {
        match self {
            Ok(v) => Ok(v),
            Err(detail) => Err(S3Failure::with_cause(code, context, detail.rendering.as_str())),
        }
    }
}

} // verus!
