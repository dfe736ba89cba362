//! Reading configuration values from the worker environment.
use crate::error::{ErrorCode, ErrorText, S3Failure};
use crate::utils::error_ext::{mapped_as, MapS3Error};
use vstd::prelude::*;

verus! {

/// The context reported when a configuration value cannot be read.
pub open spec fn env_failure_context() -> Seq<char> {
    "Failed to retrieve env value"@
}

/// Turns the outcome of reading an environment value into the value or an
/// S3 error.
///
/// `val` holds the value's text, or the `Debug` rendering of the lookup
/// failure.
/// A failure answers `ServiceUnavailable` with message
/// `"Failed to retrieve env value: <cause>"`.
pub fn process_val(val: Result<String, ErrorText>) -> (res: Result<String, S3Failure>)
    ensures
        mapped_as(val, ErrorCode::ServiceUnavailable, env_failure_context(), res),
{
    val.map_s3_error(ErrorCode::ServiceUnavailable, "Failed to retrieve env value")
}

} // verus!
