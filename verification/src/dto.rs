//! The S3 listing records the backends produce, and how database rows become
//! buckets.
use crate::error::{detailed_message, ErrorCode, S3Failure};
use crate::models::Context;
use s3s::dto::{Timestamp, TimestampFormat};
use vstd::prelude::*;

verus! {

#[verifier::external_type_specification]
#[verifier::external_body]
pub struct ExTimestamp(s3s::dto::Timestamp);

/// What `s3s::dto::Timestamp::parse` in the `DateTime` (RFC 3339) format
/// makes of `text`: `None` when it parses, otherwise `Some` of the rendering
/// of the parse error.
pub uninterp spec fn date_time_parse_error(text: Seq<char>) -> Option<Seq<char>>;

/// The timestamp `s3s::dto::Timestamp::parse` in the `DateTime` (RFC 3339)
/// format reads from `text`, where it parses.
pub uninterp spec fn date_time_value(text: Seq<char>) -> Timestamp;

/// Whether `text` is read as a timestamp.
pub open spec fn parses_as_date_time(text: Seq<char>) -> bool {
    date_time_parse_error(text) is None
}

/// `s3s::dto::Timestamp::parse` with `TimestampFormat::DateTime`: the instant
/// written in `text`, or the debug rendering of the parse error.
///
/// Whether it succeeds and the error text are stated through
/// `date_time_parse_error`, the timestamp it returns through `date_time_value`:
/// both depend on the text alone.
#[verifier::external_body]
fn parse_date_time(text: &str) -> (res: Result<Timestamp, String>)
    ensures
        res is Ok <==> date_time_parse_error(text@) is None,
        res is Ok ==> res->Ok_0 == date_time_value(text@),
        res is Err ==> date_time_parse_error(text@) == Some(res->Err_0@),
{
    match Timestamp::parse(TimestampFormat::DateTime, text) {
        Ok(ts) => Ok(ts),
        Err(e) => Err(format!("{e:?}")),
    }
}

/// One row of the `bucket` table.
#[derive(Debug)]
pub struct BucketRecord {
    pub slug: String,
    pub created_at: String,
}

/// A bucket as listed to S3 clients.
#[derive(Debug)]
pub struct Bucket {
    pub name: Option<String>,
    pub creation_date: Option<Timestamp>,
}

/// The owner of the listed buckets.
#[derive(Debug)]
pub struct Owner {
    pub display_name: Option<String>,
    pub id: Option<String>,
}

/// The answer to a bucket listing.
#[derive(Debug)]
pub struct ListBucketsOutput {
    pub buckets: Option<Vec<Bucket>>,
    pub owner: Option<Owner>,
}

/// `bucket` lists the row `record`: it carries the row's slug as its name and
/// the timestamp read from the row's creation time as its creation date.
pub open spec fn lists_record(bucket: Bucket, record: BucketRecord) -> bool {
    &&& bucket.name == Some(record.slug)
    &&& bucket.creation_date == Some(date_time_value(record.created_at@))
}

/// Every row's creation time parses.
pub open spec fn all_dates_parse(records: Seq<BucketRecord>) -> bool {
    forall|i: int| 0 <= i < records.len() ==> parses_as_date_time(#[trigger] records[i].created_at@)
}

/// `detail` is the parse error of the first row whose creation time does not
/// parse.
pub open spec fn first_date_error(records: Seq<BucketRecord>, detail: Seq<char>) -> bool {
    exists|k: int|
        0 <= k < records.len() && (forall|j: int|
            0 <= j < k ==> parses_as_date_time(#[trigger] records[j].created_at@))
            && date_time_parse_error(#[trigger] records[k].created_at@) == Some(detail)
}

/// The buckets listed from `records`, one per row in the same order.
pub open spec fn lists_records(buckets: Seq<Bucket>, records: Seq<BucketRecord>) -> bool {
    &&& buckets.len() == records.len()
    &&& forall|i: int| 0 <= i < records.len() ==> lists_record(#[trigger] buckets[i], records[i])
}

impl Bucket {
    /// The bucket a row describes; fails with the parse error when the row's
    /// creation time is not an RFC 3339 timestamp.
    pub fn try_from_record(record: &BucketRecord) -> (res: Result<Bucket, String>)
        ensures
            res is Ok <==> parses_as_date_time(record.created_at@),
            res is Ok ==> lists_record(res->Ok_0, *record),
            res is Ok ==> res->Ok_0.name == Some(record.slug),
            res is Ok ==> res->Ok_0.creation_date == Some(date_time_value(record.created_at@)),
            res is Err ==> date_time_parse_error(record.created_at@) == Some(res->Err_0@),
    {
        match parse_date_time(record.created_at.as_str()) {
            Ok(ts) => Ok(Bucket { name: Some(record.slug.clone()), creation_date: Some(ts) }),
            Err(e) => Err(e),
        }
    }
}

/// A bucket listing a row is named by the row's slug and carries, for every
/// row whose creation time parses, exactly the timestamp read from it.
pub proof fn lemma_listed_bucket_fields(bucket: Bucket, record: BucketRecord)
    requires
        lists_record(bucket, record),
    ensures
        bucket.name == Some(record.slug),
        bucket.creation_date is Some,
        bucket.creation_date == Some(date_time_value(record.created_at@)),
{
}

/// Turns the rows of the `bucket` table into buckets, in order; the first row
/// whose creation time does not parse makes the whole listing fail with that
/// parse error.
pub fn buckets_from_records(records: &Vec<BucketRecord>) -> (res: Result<Vec<Bucket>, String>)
    ensures
        res is Ok <==> all_dates_parse(records@),
        res is Ok ==> lists_records(res->Ok_0@, records@),
        res is Ok ==> res->Ok_0@.len() == records@.len(),
        res is Ok ==> forall|i: int|
            0 <= i < records@.len() ==> (#[trigger] res->Ok_0@[i]).name == Some(records@[i].slug)
                && res->Ok_0@[i].creation_date == Some(date_time_value(records@[i].created_at@)),
        res is Err ==> first_date_error(records@, res->Err_0@),
{
    let mut buckets: Vec<Bucket> = Vec::new();
    let mut i: usize = 0;
    while i < records.len()
        invariant
            i <= records@.len(),
            buckets@.len() == i,
            forall|j: int| 0 <= j < i ==> parses_as_date_time(#[trigger] records@[j].created_at@),
            forall|j: int| 0 <= j < i ==> lists_record(#[trigger] buckets@[j], records@[j]),
        decreases records@.len() - i,
    {
        match Bucket::try_from_record(&records[i]) {
            Ok(bucket) => {
                buckets.push(bucket);
            },
            Err(e) => {
                assert(date_time_parse_error(records@[i as int].created_at@) == Some(e@));
                return Err(e);
            },
        }
        i = i + 1;
    }
    Ok(buckets)
}

/// The owner shown for a request made with context `ctx`: the requesting
/// user, if there is one.
pub open spec fn owner_of(ctx: Context, owner: Option<Owner>) -> bool {
    match ctx.user {
        Some(user) => owner matches Some(o) && o.display_name == Some(user.username) && o.id == Some(user.id),
        None => owner is None,
    }
}

/// The owner of a listing made for a user is that user, display name and id
/// alike, for every user; a listing made for no user has no owner.
pub proof fn lemma_owner_is_requesting_user(ctx: Context, owner: Option<Owner>)
    requires
        owner_of(ctx, owner),
    ensures
        ctx.user is None ==> owner is None,
        ctx.user is Some ==> owner is Some,
        ctx.user is Some ==> owner->Some_0.display_name == Some(ctx.user->Some_0.username),
        ctx.user is Some ==> owner->Some_0.id == Some(ctx.user->Some_0.id),
{
}

/// The owner a listing reports for context `ctx`.
pub fn owner_for(ctx: Context) -> (res: Option<Owner>)
    ensures
        owner_of(ctx, res),
        ctx.user is None ==> res is None,
        ctx.user is Some ==> res is Some && res->Some_0.display_name == Some(ctx.user->Some_0.username)
            && res->Some_0.id == Some(ctx.user->Some_0.id),
{
    match ctx.user {
        Some(user) => Some(Owner { display_name: Some(user.username), id: Some(user.id) }),
        None => None,
    }
}

/// The owner `"dummy"` reported by the backends that know no users.
pub open spec fn is_dummy_owner(owner: Option<Owner>) -> bool {
    &&& owner is Some
    &&& owner->Some_0.display_name matches Some(n) && n@ == "dummy"@
    &&& owner->Some_0.id matches Some(i) && i@ == "dummy"@
}

/// The owner `"dummy"`.
pub fn dummy_owner() -> (res: Option<Owner>)
    ensures
        is_dummy_owner(res),
{
    Some(Owner { display_name: Some(String::from_str("dummy")), id: Some(String::from_str("dummy")) })
}

/// What the database returned for the bucket query: the decoded rows, or the
/// rendering of why the request failed or why its response could not be read.
#[derive(Debug)]
pub enum BucketFetch {
    Rows(Vec<BucketRecord>),
    QueryFailed(String),
    UnreadableResponse(String),
}

/// `res` is an error with `code` and message `"<context>: <detail>"`.
pub open spec fn fails_with<T>(res: Result<T, S3Failure>, code: ErrorCode, context: Seq<char>, detail: Seq<char>) -> bool {
    &&& res is Err
    &&& res->Err_0.code == code
    &&& res->Err_0.message is Some
    &&& res->Err_0.message->Some_0@ == detailed_message(context, detail)
}

/// `res` is an error that carries `code` and the parse error of the first row
/// whose creation time does not parse, after `context`.
pub open spec fn fails_on_first_date<T>(res: Result<T, S3Failure>, records: Seq<BucketRecord>, context: Seq<char>) -> bool {
    exists|detail: Seq<char>|
        #[trigger] first_date_error(records, detail) && fails_with(res, ErrorCode::InternalError, context, detail)
}

/// `out` lists exactly the rows `records`, in order.
pub open spec fn lists_all(out: ListBucketsOutput, records: Seq<BucketRecord>) -> bool {
    &&& out.buckets is Some
    &&& lists_records(out.buckets->Some_0@, records)
}

pub open spec fn query_failure_context() -> Seq<char> {
    "Failed to execute PostgREST query"@
}

pub open spec fn response_failure_context() -> Seq<char> {
    "Failed to parse PostgREST response"@
}

pub open spec fn timestamp_failure_context() -> Seq<char> {
    "Failed to parse timestamp"@
}

} // verus!
