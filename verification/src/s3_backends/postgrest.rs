//! A PostgREST backend that answers bucket listings under a placeholder owner.
use crate::dto::{
    all_dates_parse, buckets_from_records, dummy_owner, fails_on_first_date, fails_with,
    is_dummy_owner, lists_all, query_failure_context, response_failure_context,
    timestamp_failure_context, BucketFetch, ListBucketsOutput,
};
use crate::error::{ErrorCode, S3Failure};
use crate::rest_client::{api_client, client_headers, client_url, header_value_ok, PostgrestClient};
use vstd::prelude::*;

verus! {

/// The PostgREST backend of the S3 service.
pub struct Postgrest {
    pub db: PostgrestClient,
}

/// The answer to a bucket listing given what the bucket query returned.
pub open spec fn list_answer(fetched: BucketFetch, res: Result<ListBucketsOutput, S3Failure>) -> bool {
    match fetched {
        BucketFetch::QueryFailed(d) => fails_with(res, ErrorCode::InternalError, query_failure_context(), d@),
        BucketFetch::UnreadableResponse(d) => fails_with(res, ErrorCode::InternalError, response_failure_context(), d@),
        BucketFetch::Rows(records) => if all_dates_parse(records@) {
            &&& res is Ok
            &&& lists_all(res->Ok_0, records@)
            &&& is_dummy_owner(res->Ok_0.owner)
        } else {
            fails_on_first_date(res, records@, timestamp_failure_context())
        },
    }
}

impl Postgrest {
    /// A backend for the PostgREST API at `api`, authenticating with the API
    /// key `secret` (which must be a valid header value: the HTTP layer panics
    /// otherwise).
    pub fn new(api: String, secret: String) -> (res: Self)
        requires
            header_value_ok(secret@),
        ensures
            client_url(res.db) == api@,
            client_headers(res.db) == map!["apikey"@ => secret@],
    {
        Self { db: api_client(api, secret.as_str()) }
    }
}

/// Lists the buckets from what the bucket query returned, owned by `"dummy"`.
/// Every failure answers `InternalError` with the step that failed and its
/// cause.
pub fn list(fetched: BucketFetch) -> (res: Result<ListBucketsOutput, S3Failure>)
    ensures
        list_answer(fetched, res),
{
    match fetched {
        BucketFetch::QueryFailed(d) => Err(
            S3Failure::with_cause(ErrorCode::InternalError, "Failed to execute PostgREST query", d.as_str()),
        ),
        BucketFetch::UnreadableResponse(d) => Err(
            S3Failure::with_cause(ErrorCode::InternalError, "Failed to parse PostgREST response", d.as_str()),
        ),
        BucketFetch::Rows(records) => match buckets_from_records(&records) {
            Ok(buckets) => Ok(ListBucketsOutput { buckets: Some(buckets), owner: dummy_owner() }),
            Err(d) => Err(S3Failure::with_cause(ErrorCode::InternalError, "Failed to parse timestamp", d.as_str())),
        },
    }
}

} // verus!
