//! A backend written for PostgREST. It expects a `bucket` table with `slug`
//! and `created_at` columns.
use crate::auth::{reverse_chars, secret_for};
use crate::dto::{
    buckets_from_records, fails_on_first_date, fails_with, lists_all, owner_for, owner_of,
    query_failure_context, response_failure_context, timestamp_failure_context, BucketFetch,
    ListBucketsOutput,
};
use crate::error::{ErrorCode, ErrorText, S3Failure};
use crate::models::{Context, User};
use crate::rest_client::{
    api_client, bucket_columns, bucket_query, client_headers, client_url, header_value_ok,
    query_headers, query_method, query_params, query_url, Builder, PostgrestClient,
};
use crate::utils::error_ext::MapS3Error;
use vstd::prelude::*;

verus! {

/// The PostgREST backend.
pub struct Postgrest {
    pub db: PostgrestClient,
}

/// The answer of the PostgREST backend to a listing made with context `ctx`,
/// given what the bucket query returned.
pub open spec fn db_list_answer(fetched: BucketFetch, ctx: Context, res: Result<ListBucketsOutput, S3Failure>) -> bool {
    match fetched {
        BucketFetch::QueryFailed(d) => fails_with(res, ErrorCode::InternalError, query_failure_context(), d@),
        BucketFetch::UnreadableResponse(d) => fails_with(res, ErrorCode::InternalError, response_failure_context(), d@),
        BucketFetch::Rows(records) => if crate::dto::all_dates_parse(records@) {
            &&& res is Ok
            &&& lists_all(res->Ok_0, records@)
            &&& owner_of(ctx, res->Ok_0.owner)
        } else {
            fails_on_first_date(res, records@, timestamp_failure_context())
        },
    }
}

/// The user every request is currently granted as.
pub open spec fn is_fake_user(user: User) -> bool {
    &&& user.id@ == "fake-id"@
    &&& user.username@ == "fake-username"@
}

impl Postgrest {
    /// A backend for the PostgREST API at `api`, authenticating with the API
    /// key `secret`. A key that is not a valid header value is refused by the
    /// HTTP layer (it panics), so it is excluded.
    pub fn new(api: String, secret: String) -> (res: Self)
        requires
            header_value_ok(secret@),
        ensures
            client_url(res.db) == api@,
            client_headers(res.db) == map!["apikey"@ => secret@],
    {
        Self { db: api_client(api, secret.as_str()) }
    }

    /// The query this backend sends to list buckets.
    pub fn bucket_query(&self) -> (query: Builder)
        ensures
            query_method(query) == "GET"@,
            query_url(query) == client_url(self.db) + "/bucket"@,
            query_params(query) == seq![("select"@, bucket_columns())],
            query_headers(query) == client_headers(self.db).insert("accept"@, "application/json"@),
    {
        bucket_query(&self.db)
    }

    /// Lists the buckets from what the bucket query returned; the owner is the
    /// requesting user. Every failure answers `InternalError` with the step
    /// that failed and its cause.
    pub fn list(&self, fetched: BucketFetch, ctx: Context) -> (res: Result<ListBucketsOutput, S3Failure>)
        ensures
            db_list_answer(fetched, ctx, res),
    {
        let records = match fetched {
            BucketFetch::QueryFailed(d) => {
                return Err::<ListBucketsOutput, ErrorText>(ErrorText { rendering: d }).map_s3_error(
                    ErrorCode::InternalError,
                    "Failed to execute PostgREST query",
                );
            },
            BucketFetch::UnreadableResponse(d) => {
                return Err::<ListBucketsOutput, ErrorText>(ErrorText { rendering: d }).map_s3_error(
                    ErrorCode::InternalError,
                    "Failed to parse PostgREST response",
                );
            },
            BucketFetch::Rows(records) => records,
        };
        let converted = match buckets_from_records(&records) {
            Ok(b) => Ok(b),
            Err(d) => Err(ErrorText { rendering: d }),
        };
        let buckets = match converted.map_s3_error(
            ErrorCode::InternalError,
            "Failed to parse timestamp",
        ) {
            Ok(b) => b,
            Err(e) => {
                return Err(e);
            },
        };
        Ok(ListBucketsOutput { buckets: Some(buckets), owner: owner_for(ctx) })
    }

    /// The secret key of `access_key`: for now the access key reversed.
    pub fn get_secret_key(&self, access_key: &str) -> (res: Result<String, S3Failure>)
        ensures
            res is Ok,
            res->Ok_0@ == secret_for(access_key@),
            res->Ok_0@.len() == access_key@.len(),
            forall|i: int| 0 <= i < access_key@.len() ==> #[trigger] res->Ok_0@[i] == access_key@[access_key@.len() - 1 - i],
    {
        Ok(reverse_chars(access_key))
    }

    /// Every request is allowed, on behalf of a placeholder user; the result is
    /// the context to attach to the request.
    pub fn check_access(&self) -> (res: Result<Context, S3Failure>)
        ensures
            res is Ok,
            res->Ok_0.user is Some,
            is_fake_user(res->Ok_0.user->Some_0),
    {
        let user = User { id: String::from_str("fake-id"), username: String::from_str("fake-username") };
        Ok(Context { user: Some(user) })
    }
}

} // verus!
