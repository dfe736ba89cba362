use s3proxy::auth::{reverse_chars, AuthBackend};
use s3proxy::backend::DummyBackend;
use s3proxy::controller::list_buckets_context;
use s3proxy::db::list_not_implemented;
use s3proxy::db::postgrest::Postgrest;
use s3proxy::dto::{buckets_from_records, Bucket, BucketFetch, BucketRecord, ListBucketsOutput};
use s3proxy::error::{describe, ErrorCode, ErrorText, S3Failure};
use s3proxy::models::{Context, User};
use s3proxy::object_store::{
    list_contents, listing_path, object_not_found, object_path, put_failed, relative_key,
    ObjectStoreS3, StoredObject,
};
use s3proxy::rest_client::{api_client, bucket_query, is_header_value};
use s3proxy::s3_backends;
use s3proxy::server::Config;
use s3proxy::utils::env::process_val;
use s3proxy::utils::error_ext::MapS3Error;
use s3s::dto::{Timestamp, TimestampFormat};

fn record(slug: &str, created_at: &str) -> BucketRecord {
    BucketRecord { slug: slug.to_string(), created_at: created_at.to_string() }
}

fn parse_error_text(text: &str) -> String {
    format!("{:?}", Timestamp::parse(TimestampFormat::DateTime, text).unwrap_err())
}

fn user(id: &str, name: &str) -> User {
    User { id: id.to_string(), username: name.to_string() }
}

fn message(e: &S3Failure) -> &str {
    e.message.as_deref().unwrap()
}

fn names(out: &ListBucketsOutput) -> Vec<String> {
    out.buckets.as_ref().unwrap().iter().map(|b| b.name.clone().unwrap()).collect()
}

fn request_of(query: s3proxy::rest_client::Builder) -> (String, Option<String>, Option<String>) {
    let req = query.request.build().build().unwrap();
    assert_eq!(req.method().as_str(), "GET");
    let url = req.url().as_str().to_string();
    let apikey = req.headers().get("apikey").map(|v| v.to_str().unwrap().to_string());
    let accept = req.headers().get("accept").map(|v| v.to_str().unwrap().to_string());
    (url, apikey, accept)
}

// --- secret keys ---

#[test]
fn secret_key_is_reversed_access_key() {
    let auth = AuthBackend {};
    assert_eq!(auth.get_secret_key("AKIA123").unwrap(), "321AIKA");
    assert_eq!(auth.get_secret_key("").unwrap(), "");
    assert_eq!(auth.get_secret_key("héllo").unwrap(), "olléh");
}

#[test]
fn secret_key_reversed_twice_is_access_key() {
    let key = "access-key-ü";
    assert_eq!(reverse_chars(&reverse_chars(key)), key);
    assert_eq!(reverse_chars(key).chars().count(), key.chars().count());
}

#[test]
fn every_request_is_allowed() {
    assert!(AuthBackend {}.check_access().is_ok());
    let pg = Postgrest::new("http://api.test".to_string(), "k".to_string());
    assert_eq!(pg.get_secret_key("abc").unwrap(), "cba");
    let ctx = pg.check_access().unwrap();
    let u = ctx.user.unwrap();
    assert_eq!(u.id, "fake-id");
    assert_eq!(u.username, "fake-username");
}

// --- error mapping ---

#[test]
fn describe_joins_context_and_cause() {
    assert_eq!(describe("Failed", "boom"), "Failed: boom");
    assert_eq!(describe("", ""), ": ");
}

#[test]
fn map_s3_error_keeps_success() {
    let r: Result<u32, ErrorText> = Ok(7);
    let mapped = r.map_s3_error(ErrorCode::InternalError, "ctx");
    assert_eq!(mapped.unwrap(), 7);
}

#[test]
fn map_s3_error_wraps_failure() {
    // The cause is reported as `{:?}` prints it: a text error keeps its quotes.
    let cause = "boom".to_string();
    let r: Result<u32, ErrorText> = Err(ErrorText { rendering: format!("{cause:?}") });
    let e = r.map_s3_error(ErrorCode::NoSuchKey, "Looking up").unwrap_err();
    assert_eq!(e.code, ErrorCode::NoSuchKey);
    assert_eq!(message(&e), "Looking up: \"boom\"");
}

#[test]
fn env_value_is_read() {
    assert_eq!(process_val(Ok("https://db.test".to_string())).unwrap(), "https://db.test");
}

#[test]
fn missing_env_value_is_service_unavailable() {
    let e = process_val(Err(ErrorText { rendering: "Binding not found".to_string() })).unwrap_err();
    assert_eq!(e.code, ErrorCode::ServiceUnavailable);
    assert_eq!(message(&e), "Failed to retrieve env value: Binding not found");
}

#[test]
fn default_backend_does_not_list() {
    let e = list_not_implemented(Context { user: None }).unwrap_err();
    assert_eq!(e.code, ErrorCode::NotImplemented);
    assert_eq!(message(&e), "list is not implemented yet");
}

// --- controller ---

#[test]
fn listing_without_credentials_is_refused() {
    let e = list_buckets_context(false, Some(user("1", "ann"))).unwrap_err();
    assert_eq!(e.code, ErrorCode::CredentialsNotSupported);
    assert_eq!(message(&e), "Credentials must be provided");
}

#[test]
fn listing_with_credentials_passes_the_user_on() {
    let ctx = list_buckets_context(true, Some(user("1", "ann"))).unwrap();
    let u = ctx.user.unwrap();
    assert_eq!((u.id.as_str(), u.username.as_str()), ("1", "ann"));
    assert!(list_buckets_context(true, None).unwrap().user.is_none());
}

// --- header values and the PostgREST client ---

#[test]
fn header_values_are_checked() {
    assert!(is_header_value("super.secret.key"));
    assert!(is_header_value(""));
    assert!(is_header_value("a\tb"));
    assert!(is_header_value("clé"));
    assert!(!is_header_value("a\nb"));
    assert!(!is_header_value("a\u{7f}"));
    assert!(!is_header_value("\u{1f}"));
}

#[test]
fn bucket_query_targets_bucket_table() {
    let client = api_client("http://api.test".to_string(), "secret-key");
    let (url, apikey, accept) = request_of(bucket_query(&client));
    assert_eq!(url, "http://api.test/bucket?select=slug%2C+created_at");
    assert_eq!(apikey.as_deref(), Some("secret-key"));
    assert_eq!(accept.as_deref(), Some("application/json"));
}

#[test]
fn backends_query_the_configured_api() {
    let pg = Postgrest::new("http://db.test/rest/v1".to_string(), "k1".to_string());
    let (url, apikey, _) = request_of(pg.bucket_query());
    assert_eq!(url, "http://db.test/rest/v1/bucket?select=slug%2C+created_at");
    assert_eq!(apikey.as_deref(), Some("k1"));

    let dummy = Config::new("http://cfg.test".to_string(), "k2".to_string()).backend();
    let (url, apikey, _) = request_of(dummy.bucket_query());
    assert_eq!(url, "http://cfg.test/bucket?select=slug%2C+created_at");
    assert_eq!(apikey.as_deref(), Some("k2"));

    let svc = s3_backends::postgrest::Postgrest::new("http://svc.test".to_string(), "k3".to_string());
    let (url, apikey, _) = request_of(bucket_query(&svc.db));
    assert_eq!(url, "http://svc.test/bucket?select=slug%2C+created_at");
    assert_eq!(apikey.as_deref(), Some("k3"));
}

// --- rows to buckets ---

#[test]
fn record_with_rfc3339_date_becomes_bucket() {
    let b: Bucket = Bucket::try_from_record(&record("photos", "2024-03-10T12:00:00.5+00:00")).unwrap();
    assert_eq!(b.name.as_deref(), Some("photos"));
    assert_eq!(
        b.creation_date.unwrap(),
        Timestamp::parse(TimestampFormat::DateTime, "2024-03-10T12:00:00.5+00:00").unwrap()
    );
}

#[test]
fn record_creation_date_is_the_parsed_instant() {
    let b = Bucket::try_from_record(&record("my-bucket", "2024-01-01T12:30:00+00:00")).unwrap();
    assert_eq!(b.name.as_deref(), Some("my-bucket"));
    assert_eq!(
        b.creation_date.unwrap(),
        Timestamp::from(std::time::UNIX_EPOCH + std::time::Duration::from_secs(1_704_112_200))
    );
}

#[test]
fn listing_dates_follow_their_rows() {
    let rows = good_rows();
    let out = s3_backends::postgrest::list(BucketFetch::Rows(good_rows())).unwrap();
    let buckets = out.buckets.unwrap();
    for (b, r) in buckets.iter().zip(rows.iter()) {
        assert_eq!(
            b.creation_date.clone().unwrap(),
            Timestamp::parse(TimestampFormat::DateTime, &r.created_at).unwrap()
        );
    }
    let again = s3_backends::postgrest::list(BucketFetch::Rows(good_rows())).unwrap();
    let dates: Vec<_> = again.buckets.unwrap().into_iter().map(|b| b.creation_date).collect();
    let first: Vec<_> = buckets.into_iter().map(|b| b.creation_date).collect();
    assert_eq!(dates, first);
}

#[test]
fn record_with_bad_date_reports_parse_error() {
    let e = Bucket::try_from_record(&record("photos", "yesterday")).unwrap_err();
    assert_eq!(e, parse_error_text("yesterday"));
}

#[test]
fn rows_keep_their_order() {
    let rows = vec![record("b", "2024-01-01T00:00:00Z"), record("a", "2023-01-01T00:00:00Z")];
    let buckets = buckets_from_records(&rows).unwrap();
    let got: Vec<_> = buckets.iter().map(|b| b.name.clone().unwrap()).collect();
    assert_eq!(got, vec!["b", "a"]);
    assert!(buckets_from_records(&vec![]).unwrap().is_empty());
}

#[test]
fn first_bad_row_decides_the_error() {
    let rows = vec![
        record("ok", "2024-01-01T00:00:00Z"),
        record("bad1", "not a date"),
        record("bad2", "2024-13-01T00:00:00Z"),
    ];
    assert_eq!(buckets_from_records(&rows).unwrap_err(), parse_error_text("not a date"));
}

// --- the PostgREST backend ---

fn good_rows() -> Vec<BucketRecord> {
    vec![record("alpha", "2024-01-01T00:00:00Z"), record("beta", "2024-02-01T00:00:00Z")]
}

#[test]
fn db_listing_owned_by_requesting_user() {
    let pg = Postgrest::new("http://api.test".to_string(), "k".to_string());
    let out = pg.list(BucketFetch::Rows(good_rows()), Context { user: Some(user("u-1", "ann")) }).unwrap();
    assert_eq!(names(&out), vec!["alpha", "beta"]);
    let owner = out.owner.unwrap();
    assert_eq!(owner.display_name.as_deref(), Some("ann"));
    assert_eq!(owner.id.as_deref(), Some("u-1"));
}

#[test]
fn db_listing_without_user_has_no_owner() {
    let pg = Postgrest::new("http://api.test".to_string(), "k".to_string());
    let out = pg.list(BucketFetch::Rows(vec![]), Context { user: None }).unwrap();
    assert!(out.owner.is_none());
    assert!(out.buckets.unwrap().is_empty());
}

#[test]
fn db_listing_failures_name_the_step() {
    let pg = Postgrest::new("http://api.test".to_string(), "k".to_string());
    let ctx = || Context { user: None };
    let e = pg.list(BucketFetch::QueryFailed("timeout".to_string()), ctx()).unwrap_err();
    assert_eq!(e.code, ErrorCode::InternalError);
    assert_eq!(message(&e), "Failed to execute PostgREST query: timeout");
    let e = pg.list(BucketFetch::UnreadableResponse("eof".to_string()), ctx()).unwrap_err();
    assert_eq!(e.code, ErrorCode::InternalError);
    assert_eq!(message(&e), "Failed to parse PostgREST response: eof");
    let e = pg.list(BucketFetch::Rows(vec![record("x", "never")]), ctx()).unwrap_err();
    assert_eq!(e.code, ErrorCode::InternalError);
    assert_eq!(message(&e), format!("Failed to parse timestamp: {}", parse_error_text("never")));
}

// --- the other two listing backends ---

#[test]
fn service_listing_is_owned_by_dummy() {
    let out = s3_backends::postgrest::list(BucketFetch::Rows(good_rows())).unwrap();
    assert_eq!(names(&out), vec!["alpha", "beta"]);
    let owner = out.owner.unwrap();
    assert_eq!(owner.display_name.as_deref(), Some("dummy"));
    assert_eq!(owner.id.as_deref(), Some("dummy"));
}

#[test]
fn service_listing_failures_name_the_step() {
    let e = s3_backends::postgrest::list(BucketFetch::QueryFailed("refused".to_string())).unwrap_err();
    assert_eq!(message(&e), "Failed to execute PostgREST query: refused");
    let e = s3_backends::postgrest::list(BucketFetch::UnreadableResponse("bad json".to_string())).unwrap_err();
    assert_eq!(message(&e), "Failed to parse PostgREST response: bad json");
    let e = s3_backends::postgrest::list(BucketFetch::Rows(vec![record("x", "soon")])).unwrap_err();
    assert_eq!(e.code, ErrorCode::InternalError);
    assert_eq!(message(&e), format!("Failed to parse timestamp: {}", parse_error_text("soon")));
}

fn dummy_backend() -> DummyBackend {
    Config::new("http://api.test".to_string(), "k".to_string()).backend()
}

#[test]
fn dummy_listing_is_owned_by_dummy() {
    let out = dummy_backend().list_buckets(BucketFetch::Rows(good_rows())).unwrap();
    assert_eq!(names(&out), vec!["alpha", "beta"]);
    assert_eq!(out.owner.unwrap().id.as_deref(), Some("dummy"));
}

#[test]
fn dummy_listing_failures_carry_no_message() {
    let d = dummy_backend();
    for fetched in [
        BucketFetch::QueryFailed("x".to_string()),
        BucketFetch::UnreadableResponse("y".to_string()),
        BucketFetch::Rows(vec![record("z", "bad")]),
    ] {
        let e = d.list_buckets(fetched).unwrap_err();
        assert_eq!(e.code, ErrorCode::InternalError);
        assert!(e.message.is_none());
    }
}

#[test]
fn all_backends_list_the_same_names() {
    let pg = Postgrest::new("http://api.test".to_string(), "k".to_string());
    let a = pg.list(BucketFetch::Rows(good_rows()), Context { user: None }).unwrap();
    let b = dummy_backend().list_buckets(BucketFetch::Rows(good_rows())).unwrap();
    let c = s3_backends::postgrest::list(BucketFetch::Rows(good_rows())).unwrap();
    assert_eq!(names(&a), names(&b));
    assert_eq!(names(&b), names(&c));
}

// --- object store paths and listings ---

#[test]
fn object_path_joins_bucket_and_key() {
    assert_eq!(object_path("photos", "2024/cat.jpg"), "photos/2024/cat.jpg");
    assert_eq!(listing_path("photos", Some("2024/".to_string())), "photos/2024/");
    assert_eq!(listing_path("photos", None), "photos/");
}

#[test]
fn relative_key_strips_bucket_prefix() {
    assert_eq!(relative_key("photos/2024/cat.jpg", "photos"), "2024/cat.jpg");
    assert_eq!(relative_key("photos/", "photos"), "");
    assert_eq!(relative_key("photos", "photos"), "photos");
    assert_eq!(relative_key("other/cat.jpg", "photos"), "other/cat.jpg");
    assert_eq!(relative_key("photosx/cat.jpg", "photos"), "photosx/cat.jpg");
}

#[test]
fn key_round_trips_through_object_path() {
    for (bucket, key) in [("b", "k"), ("b", ""), ("b", "b/k"), ("ü", "é/ï")] {
        assert_eq!(relative_key(&object_path(bucket, key), bucket), key);
    }
}

fn stored(location: &str, size: usize) -> StoredObject {
    StoredObject {
        location: location.to_string(),
        size,
        last_modified: Timestamp::parse(TimestampFormat::DateTime, "2024-05-01T10:00:00Z").unwrap(),
    }
}

#[test]
fn store_listing_becomes_s3_listing() {
    let items = vec![Ok(stored("photos/a.jpg", 10)), Ok(stored("photos/dir/b.jpg", 0))];
    let out = list_contents("photos", items).unwrap();
    assert_eq!(out.len(), 2);
    assert_eq!(out[0].key, "a.jpg");
    assert_eq!(out[0].size, 10);
    assert_eq!(out[1].key, "dir/b.jpg");
    assert_eq!(out[1].size, 0);
    assert_eq!(
        out[1].last_modified.clone().unwrap(),
        Timestamp::parse(TimestampFormat::DateTime, "2024-05-01T10:00:00Z").unwrap()
    );
    assert!(list_contents("photos", vec![]).unwrap().is_empty());
}

#[test]
fn oversized_object_size_wraps() {
    let out = list_contents("b", vec![Ok(stored("b/x", usize::MAX))]).unwrap();
    assert_eq!(out[0].size, usize::MAX as i64);
}

#[test]
fn store_listing_stops_at_first_failure() {
    let items = vec![Ok(stored("b/a", 1)), Err("disk gone".to_string()), Err("later".to_string())];
    let e = list_contents("b", items).unwrap_err();
    assert_eq!(e.code, ErrorCode::InternalError);
    assert_eq!(message(&e), "Failed to list objects: disk gone");
}

#[test]
fn store_errors_answer_s3_codes() {
    let e = object_not_found("no such path");
    assert_eq!(e.code, ErrorCode::NoSuchKey);
    assert_eq!(message(&e), "Object not found: no such path");
    let e = put_failed("read-only");
    assert_eq!(e.code, ErrorCode::InternalError);
    assert_eq!(message(&e), "Failed to put object: read-only");
}

#[test]
fn object_store_front_keeps_its_store() {
    let s3 = ObjectStoreS3::new(vec![1u8, 2, 3]);
    assert_eq!(s3.store(), &vec![1u8, 2, 3]);
}

#[test]
fn failures_without_cause_carry_code_only() {
    let e = S3Failure::new(ErrorCode::InternalError);
    assert!(e.message.is_none());
    let e = S3Failure::with_message(ErrorCode::NotImplemented, "later");
    assert_eq!(message(&e), "later");
}

#[test]
fn dummy_listing_depends_only_on_rows() {
    let d = dummy_backend();
    let a = d.list_buckets(BucketFetch::Rows(good_rows())).unwrap();
    let b = d.list_buckets(BucketFetch::Rows(good_rows())).unwrap();
    assert_eq!(format!("{a:?}"), format!("{b:?}"));
}
