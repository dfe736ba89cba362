//! An S3 front for an object store: how bucket and key name a stored object,
//! and how a listing of the store becomes an S3 object listing.
use crate::error::{detailed_message, ErrorCode, S3Failure};
use crate::dto::fails_with;
use s3s::dto::Timestamp;
use vstd::prelude::*;

verus! {

/// A struct that answers S3 requests from the object store `S`.
pub struct ObjectStoreS3<S> {
    object_store: S,
}

impl<S> ObjectStoreS3<S> {
    pub closed spec fn store_spec(&self) -> S {
        self.object_store
    }

    /// Serves S3 requests from `object_store`.
    pub fn new(object_store: S) -> (res: Self)
        ensures
            res.store_spec() == object_store,
    {
        Self { object_store }
    }

    /// The underlying store.
    pub fn store(&self) -> (res: &S)
        ensures
            *res == self.store_spec(),
    {
        &self.object_store
    }
}

/// The path of object `key` of bucket `bucket` in the store: `<bucket>/<key>`.
pub open spec fn path_of(bucket: Seq<char>, key: Seq<char>) -> Seq<char> {
    bucket + "/"@ + key
}

/// The object key a store location names within `bucket`: the location with
/// the `<bucket>/` prefix removed, or the whole location if it does not start
/// with that prefix.
pub open spec fn key_within(location: Seq<char>, bucket: Seq<char>) -> Seq<char> {
    let prefix = path_of(bucket, Seq::empty());
    if prefix.is_prefix_of(location) {
        location.skip(prefix.len() as int)
    } else {
        location
    }
}

/// The store path of object `key` of bucket `bucket`.
pub fn object_path(bucket: &str, key: &str) -> (res: String)
    ensures
        res@ == path_of(bucket@, key@),
        res@ == bucket@ + "/"@ + key@,
        res@.len() == bucket@.len() + 1 + key@.len(),
        res@.take(bucket@.len() as int) == bucket@,
        res@[bucket@.len() as int] == '/',
        res@.skip(bucket@.len() + 1int) == key@,
{
    let mut path = String::from_str(bucket);
    path.append("/");
    path.append(key);
    proof {
        lemma_object_path_layout(bucket@, key@);
    }
    path
}

/// The store path under which the objects of `bucket` starting with `prefix`
/// are listed; no prefix lists the whole bucket.
pub fn listing_path(bucket: &str, prefix: Option<String>) -> (res: String)
    ensures
        res@ == path_of(bucket@, match prefix { Some(p) => p@, None => Seq::empty() }),
{
    proof {
        reveal_strlit("");
    }
    match prefix {
        Some(p) => object_path(bucket, p.as_str()),
        None => {
            let path = object_path(bucket, "");
            assert(""@ =~= Seq::<char>::empty());
            path
        },
    }
}

/// The key of the object stored at `location`, relative to `bucket`.
pub fn relative_key(location: &str, bucket: &str) -> (res: String)
    ensures
        res@ == key_within(location@, bucket@),
        (bucket@ + "/"@).is_prefix_of(location@) ==> res@ == location@.skip(bucket@.len() + 1int),
        !(bucket@ + "/"@).is_prefix_of(location@) ==> res@ == location@,
{
    let prefix = object_path(bucket, "");
    let n = prefix.as_str().unicode_len();
    let m = location.unicode_len();
    proof {
        reveal_strlit("");
    }
    assert(prefix@ =~= path_of(bucket@, Seq::empty()));
    if n <= m {
        let head = String::from_str(location.substring_char(0, n));
        if head == prefix {
            assert(prefix@.is_prefix_of(location@)) by {
                assert(location@.subrange(0, n as int) =~= prefix@);
            }
            let rest = location.substring_char(n, m);
            assert(rest@ =~= location@.skip(n as int));
            proof {
                reveal_strlit("/");
                assert(path_of(bucket@, Seq::empty()) =~= bucket@ + "/"@);
            }
            return String::from_str(rest);
        }
        assert(!prefix@.is_prefix_of(location@)) by {
            if prefix@.is_prefix_of(location@) {
                assert(location@.subrange(0, n as int) =~= prefix@);
            }
        }
    }
    let whole = String::from_str(location);
    proof {
        reveal_strlit("/");
        assert(path_of(bucket@, Seq::empty()) =~= bucket@ + "/"@);
    }
    whole
}

/// The path of an object is the whole bucket name, then `/`, then the whole
/// key: its length is the sum, it starts with the bucket, has `/` right after
/// it, and ends with the key. So two objects of buckets of the same length
/// share a path only if bucket and key are the same.
pub proof fn lemma_object_path_layout(bucket: Seq<char>, key: Seq<char>)
    ensures
        path_of(bucket, key).len() == bucket.len() + 1 + key.len(),
        path_of(bucket, key).take(bucket.len() as int) == bucket,
        path_of(bucket, key)[bucket.len() as int] == '/',
        path_of(bucket, key).skip(bucket.len() + 1int) == key,
{
    reveal_strlit("/");
    assert(path_of(bucket, key).take(bucket.len() as int) =~= bucket);
    assert(path_of(bucket, key).skip(bucket.len() + 1int) =~= key);
}

/// Objects of different buckets, or different keys, have different paths
/// whenever the bucket names have the same length.
pub proof fn lemma_object_paths_distinct(b1: Seq<char>, k1: Seq<char>, b2: Seq<char>, k2: Seq<char>)
    requires
        b1.len() == b2.len(),
        b1 != b2 || k1 != k2,
    ensures
        path_of(b1, k1) != path_of(b2, k2),
{
    lemma_object_path_layout(b1, k1);
    lemma_object_path_layout(b2, k2);
}

/// Naming an object by bucket and key and reading the key back from the path
/// gives the key again.
pub proof fn lemma_key_of_object_path(bucket: Seq<char>, key: Seq<char>)
    ensures
        key_within(path_of(bucket, key), bucket) == key,
{
    let prefix = path_of(bucket, Seq::empty());
    let path = path_of(bucket, key);
    assert(prefix.is_prefix_of(path)) by {
        assert(path.subrange(0, prefix.len() as int) =~= prefix);
    }
    assert(path.skip(prefix.len() as int) =~= key);
}

/// An object as the store lists it.
#[derive(Debug)]
pub struct StoredObject {
    pub location: String,
    pub size: usize,
    pub last_modified: Timestamp,
}

/// An object as listed to S3 clients.
#[derive(Debug)]
pub struct S3Object {
    pub key: String,
    pub size: i64,
    pub last_modified: Option<Timestamp>,
}

/// `entry` lists `stored`, a store object of bucket `bucket`.
pub open spec fn lists_stored(entry: S3Object, stored: StoredObject, bucket: Seq<char>) -> bool {
    &&& entry.key@ == key_within(stored.location@, bucket)
    &&& entry.size == stored.size as i64
    &&& entry.last_modified == Some(stored.last_modified)
}

pub open spec fn list_failure_context() -> Seq<char> {
    "Failed to list objects"@
}

/// An entry listing a stored object carries that object's size (as `as i64`
/// converts it) and modification time whatever its key, and as key the
/// location after `<bucket>/` when the location starts with it, the whole
/// location otherwise.
pub proof fn lemma_listed_entry_fields(entry: S3Object, stored: StoredObject, bucket: Seq<char>)
    requires
        lists_stored(entry, stored, bucket),
    ensures
        entry.size == stored.size as i64,
        entry.last_modified == Some(stored.last_modified),
        (bucket + "/"@).is_prefix_of(stored.location@) ==> entry.key@ == stored.location@.skip(bucket.len() + 1int),
        !(bucket + "/"@).is_prefix_of(stored.location@) ==> entry.key@ == stored.location@,
{
    reveal_strlit("/");
    assert(path_of(bucket, Seq::empty()) =~= bucket + "/"@);
}

/// The S3 listing of the objects of `bucket` read from the store: the store's
/// items in order, each listed under its key within the bucket. The first item
/// the store could not read (its failure rendered as text) makes the listing
/// fail with `InternalError`, "Failed to list objects: <cause>".
pub fn list_contents(bucket: &str, items: Vec<Result<StoredObject, String>>) -> (res: Result<Vec<S3Object>, S3Failure>)
    ensures
        res is Ok <==> forall|i: int| 0 <= i < items@.len() ==> (#[trigger] items@[i]) is Ok,
        res is Ok ==> res->Ok_0@.len() == items@.len() && forall|i: int|
            0 <= i < items@.len() ==> lists_stored(#[trigger] res->Ok_0@[i], items@[i]->Ok_0, bucket@),
        res is Ok ==> forall|i: int|
            0 <= i < items@.len() ==> (#[trigger] res->Ok_0@[i]).size == items@[i]->Ok_0.size as i64
                && res->Ok_0@[i].last_modified == Some(items@[i]->Ok_0.last_modified),
        res is Err ==> exists|k: int|
            0 <= k < items@.len() && (forall|j: int| 0 <= j < k ==> (#[trigger] items@[j]) is Ok)
                && #[trigger] items@[k] is Err
                && fails_with(res, ErrorCode::InternalError, list_failure_context(), items@[k]->Err_0@),
{
    let ghost all = items@;
    let mut rest = items;
    let mut contents: Vec<S3Object> = Vec::new();
    while rest.len() > 0
        invariant
            all == items@,
            contents@.len() + rest@.len() == all.len(),
            rest@ == all.skip(contents@.len() as int),
            forall|j: int| 0 <= j < contents@.len() ==> (#[trigger] all[j]) is Ok,
            forall|j: int| 0 <= j < contents@.len() ==> lists_stored(#[trigger] contents@[j], all[j]->Ok_0, bucket@),
        decreases rest@.len(),
    {
        let ghost done = contents@.len() as int;
        assert(rest@[0] == all[done]);
        let item = rest.remove(0);
        match item {
            Ok(stored) => {
                let key = relative_key(stored.location.as_str(), bucket);
                let entry = S3Object { key, size: #[verifier::truncate] (stored.size as i64), last_modified: Some(stored.last_modified) };
                contents.push(entry);
                assert(rest@ =~= all.skip(contents@.len() as int));
            },
            Err(detail) => {
                let res = Err(S3Failure::with_cause(ErrorCode::InternalError, "Failed to list objects", detail.as_str()));
                assert(all[done] is Err);
                return res;
            },
        }
    }
    Ok(contents)
}

/// The answer when the store has no object at the requested path:
/// `NoSuchKey`, "Object not found: <cause>".
pub fn object_not_found(detail: &str) -> (res: S3Failure)
    ensures
        res.code == ErrorCode::NoSuchKey,
        res.message is Some,
        res.message->Some_0@ == detailed_message("Object not found"@, detail@),
{
    S3Failure::with_cause(ErrorCode::NoSuchKey, "Object not found", detail)
}

/// The answer when the store refuses to keep an object: `InternalError`,
/// "Failed to put object: <cause>".
pub fn put_failed(detail: &str) -> (res: S3Failure)
    ensures
        res.code == ErrorCode::InternalError,
        res.message is Some,
        res.message->Some_0@ == detailed_message("Failed to put object"@, detail@),
{
    S3Failure::with_cause(ErrorCode::InternalError, "Failed to put object", detail)
}

} // verus!
