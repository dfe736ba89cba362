//! The first backend: lists the buckets of the PostgREST database under a
//! placeholder owner, and reports failures by code alone.
use crate::dto::{
    all_dates_parse, buckets_from_records, dummy_owner, is_dummy_owner, lists_all, BucketFetch,
    ListBucketsOutput, Owner,
};
use crate::db::postgrest::db_list_answer;
use crate::error::{ErrorCode, S3Failure};
use crate::models::Context;
use crate::s3_backends::postgrest::list_answer;
use crate::rest_client::{
    bucket_columns, bucket_query, client_headers, client_url, query_headers, query_method, query_params, query_url,
    Builder, PostgrestClient,
};
use vstd::prelude::*;

verus! {

/// A backend that serves bucket listings from a PostgREST client.
pub struct DummyBackend {
    pub pg: PostgrestClient,
}

/// `res` is an `InternalError` without a message.
pub open spec fn bare_internal_error<T>(res: Result<T, S3Failure>) -> bool {
    &&& res is Err
    &&& res->Err_0.code == ErrorCode::InternalError
    &&& res->Err_0.message is None
}

/// The answer of the dummy backend given what the bucket query returned.
pub open spec fn dummy_list_answer(fetched: BucketFetch, res: Result<ListBucketsOutput, S3Failure>) -> bool {
    match fetched {
        BucketFetch::Rows(records) => if all_dates_parse(records@) {
            &&& res is Ok
            &&& lists_all(res->Ok_0, records@)
            &&& is_dummy_owner(res->Ok_0.owner)
        } else {
            bare_internal_error(res)
        },
        _ => bare_internal_error(res),
    }
}

impl DummyBackend {
    /// The query this backend sends to list buckets.
    pub fn bucket_query(&self) -> (query: Builder)
        ensures
            query_method(query) == "GET"@,
            query_url(query) == client_url(self.pg) + "/bucket"@,
            query_params(query) == seq![("select"@, bucket_columns())],
            query_headers(query) == client_headers(self.pg).insert("accept"@, "application/json"@),
    {
        bucket_query(&self.pg)
    }

    /// Lists the buckets from what the bucket query returned, owned by
    /// `"dummy"`; any failure answers a bare `InternalError`.
    pub fn list_buckets(&self, fetched: BucketFetch) -> (res: Result<ListBucketsOutput, S3Failure>)
        ensures
            dummy_list_answer(fetched, res),
    {
        match fetched {
            BucketFetch::Rows(records) => match buckets_from_records(&records) {
                Ok(buckets) => Ok(ListBucketsOutput { buckets: Some(buckets), owner: dummy_owner() }),
                Err(_) => Err(S3Failure::new(ErrorCode::InternalError)),
            },
            _ => Err(S3Failure::new(ErrorCode::InternalError)),
        }
    }
}

/// Two listings hold the same buckets, position by position.
pub open spec fn same_buckets(x: ListBucketsOutput, y: ListBucketsOutput) -> bool {
    &&& x.buckets is Some
    &&& y.buckets is Some
    &&& x.buckets->Some_0@ == y.buckets->Some_0@
}

/// Listing the same rows twice gives the same buckets: each bucket is fixed
/// by its row (name and creation date).
pub proof fn lemma_listing_is_determined_by_rows(records: Seq<crate::dto::BucketRecord>, x: ListBucketsOutput, y: ListBucketsOutput)
    requires
        lists_all(x, records),
        lists_all(y, records),
    ensures
        same_buckets(x, y),
{
    assert(x.buckets->Some_0@ =~= y.buckets->Some_0@) by {
        assert forall|i: int| 0 <= i < records.len() implies x.buckets->Some_0@[i] == y.buckets->Some_0@[i] by {
            assert(crate::dto::lists_record(x.buckets->Some_0@[i], records[i]));
            assert(crate::dto::lists_record(y.buckets->Some_0@[i], records[i]));
        }
    }
}

/// The text of an owner: its display name and id, as character sequences.
pub open spec fn owner_text(owner: Option<Owner>) -> Option<(Option<Seq<char>>, Option<Seq<char>>)> {
    match owner {
        Some(o) => Some((
            match o.display_name { Some(n) => Some(n@), None => None },
            match o.id { Some(i) => Some(i@), None => None },
        )),
        None => None,
    }
}

/// The dummy listing depends on nothing but what the bucket query returned:
/// nothing in the request reaches it, and two listings of the same query
/// result agree. Both succeed with the same buckets (position by position,
/// names and creation dates) and the same owner text, or both fail with the
/// same error.
pub proof fn lemma_dummy_listing_depends_only_on_rows(
    fetched: BucketFetch,
    first: Result<ListBucketsOutput, S3Failure>,
    second: Result<ListBucketsOutput, S3Failure>,
)
    requires
        dummy_list_answer(fetched, first),
        dummy_list_answer(fetched, second),
    ensures
        first is Ok <==> second is Ok,
        first is Ok ==> same_buckets(first->Ok_0, second->Ok_0),
        first is Ok ==> owner_text(first->Ok_0.owner) == owner_text(second->Ok_0.owner),
        first is Err ==> first->Err_0 == second->Err_0,
{
    if let BucketFetch::Rows(records) = fetched {
        if all_dates_parse(records@) {
            lemma_listing_is_determined_by_rows(records@, first->Ok_0, second->Ok_0);
        }
    }
}

/// The three listing backends serve the same catalogue: given the same answer
/// to the bucket query, they all succeed or all fail, they list the same
/// buckets (names and creation dates) in the same order, and every failure is
/// an `InternalError`.
pub proof fn lemma_backends_list_the_same_buckets(
    fetched: BucketFetch,
    ctx: Context,
    by_db: Result<ListBucketsOutput, S3Failure>,
    by_dummy: Result<ListBucketsOutput, S3Failure>,
    by_service: Result<ListBucketsOutput, S3Failure>,
)
    requires
        db_list_answer(fetched, ctx, by_db),
        dummy_list_answer(fetched, by_dummy),
        list_answer(fetched, by_service),
    ensures
        by_db is Ok <==> by_dummy is Ok,
        by_dummy is Ok <==> by_service is Ok,
        by_db is Ok <==> (fetched matches BucketFetch::Rows(records) && all_dates_parse(records@)),
        by_db is Ok ==> same_buckets(by_db->Ok_0, by_dummy->Ok_0),
        by_db is Ok ==> same_buckets(by_dummy->Ok_0, by_service->Ok_0),
        by_db is Err ==> by_db->Err_0.code == ErrorCode::InternalError,
        by_dummy is Err ==> by_dummy->Err_0.code == ErrorCode::InternalError,
        by_service is Err ==> by_service->Err_0.code == ErrorCode::InternalError,
{
    if let BucketFetch::Rows(records) = fetched {
        if all_dates_parse(records@) {
            lemma_listing_is_determined_by_rows(records@, by_db->Ok_0, by_dummy->Ok_0);
            lemma_listing_is_determined_by_rows(records@, by_dummy->Ok_0, by_service->Ok_0);
        }
    }
}

} // verus!
