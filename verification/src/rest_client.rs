//! The PostgREST client the backends talk to, and the query they send.
//!
//! The client and its query builder come from the `postgrest` crate. They
//! are held in opaque structs of this library (the crate's type names clash
//! with this library's own `Postgrest` backends), and the library sees them
//! through names for what they hold: the base URL, the headers sent with
//! every request and the query-string parameters.
use vstd::prelude::*;

verus! {

/// A `postgrest::Postgrest` client.
#[verifier::external_body]
pub struct PostgrestClient {
    pub client: postgrest::Postgrest,
}

/// A `postgrest::Builder` query, ready to be executed.
#[verifier::external_body]
pub struct Builder {
    pub request: postgrest::Builder,
}

/// The base URL a client was created for.
pub uninterp spec fn client_url(client: PostgrestClient) -> Seq<char>;

/// The headers a client sends with every request, by lower-case name.
pub uninterp spec fn client_headers(client: PostgrestClient) -> Map<Seq<char>, Seq<char>>;

/// The HTTP method a query is sent with.
pub uninterp spec fn query_method(query: Builder) -> Seq<char>;

/// The URL a query is sent to.
pub uninterp spec fn query_url(query: Builder) -> Seq<char>;

/// The query-string parameters of a query, in the order they were added.
pub uninterp spec fn query_params(query: Builder) -> Seq<(Seq<char>, Seq<char>)>;

/// The headers a query is sent with, by lower-case name.
pub uninterp spec fn query_headers(query: Builder) -> Map<Seq<char>, Seq<char>>;

/// Whether `s` is accepted as an HTTP header value: tab, or any character
/// from space upwards except DEL.
pub open spec fn header_value_ok(s: Seq<char>) -> bool {
    forall|i: int| 0 <= i < s.len() ==> #[trigger] header_value_char_ok(s[i])
}

pub open spec fn header_value_char_ok(c: char) -> bool {
    c == '\t' || (32 <= (c as int) && (c as int) != 127)
}

/// A short lower-case header name made of letters, digits, `-` and `_`.
pub open spec fn header_name_ok(s: Seq<char>) -> bool {
    &&& 0 < s.len() <= 64
    &&& forall|i: int|
        0 <= i < s.len() ==> {
            let c = #[trigger] s[i];
            ('a' <= c && c <= 'z') || ('0' <= c && c <= '9') || c == '-' || c == '_'
        }
}

/// Whether `s` can be sent as an HTTP header value.
pub fn is_header_value(s: &str) -> (res: bool)
    ensures
        res == header_value_ok(s@),
{
    let n = s.unicode_len();
    let mut i: usize = 0;
    while i < n
        invariant
            n == s@.len(),
            i <= n,
            forall|j: int| 0 <= j < i ==> #[trigger] header_value_char_ok(s@[j]),
        decreases n - i,
    {
        let c = s.get_char(i);
        let code: u32 = c as u32;
        if !(c == '\t' || (32 <= code && code != 127)) {
            assert(!header_value_char_ok(s@[i as int]));
            return false;
        }
        i = i + 1;
    }
    true
}

/// `postgrest::Postgrest::new`: a client for base URL `url`, with no headers
/// yet. The crate builds its HTTP client with its own rustls and web-PKI
/// setup, which does not fail, so the call does not panic.
#[verifier::external_body]
fn new_client(url: String) -> (client: PostgrestClient)
    ensures
        client_url(client) == url@,
        client_headers(client).dom() == Set::<Seq<char>>::empty(),
{
    PostgrestClient { client: postgrest::Postgrest::new(url) }
}

/// `postgrest::Postgrest::insert_header`: the same client with header `name`
/// set to `value`, replacing an earlier value of that header. The crate panics
/// on a value that is not a valid header value, so such values are excluded.
#[verifier::external_body]
fn insert_header(client: PostgrestClient, name: &'static str, value: &str) -> (res: PostgrestClient)
    requires
        header_name_ok(name@),
        header_value_ok(value@),
    ensures
        client_url(res) == client_url(client),
        client_headers(res) == client_headers(client).insert(name@, value@),
{
    PostgrestClient { client: client.client.insert_header(name, value) }
}

/// `postgrest::Postgrest::from`: a read (`GET`) query on table `table`, sent to
/// `<base url>/<table>` with the client's headers and `accept:
/// application/json`, with no parameters yet.
#[verifier::external_body]
fn from_table(client: &PostgrestClient, table: &str) -> (query: Builder)
    ensures
        query_method(query) == "GET"@,
        query_url(query) == client_url(*client) + "/"@ + table@,
        query_params(query).len() == 0,
        query_headers(query) == client_headers(*client).insert("accept"@, "application/json"@),
{
    Builder { request: client.client.from(table) }
}

/// `postgrest::Builder::select`: the same query with `select=<columns>`
/// appended to its parameters.
#[verifier::external_body]
fn select_columns(query: Builder, columns: &str) -> (res: Builder)
    ensures
        query_method(res) == query_method(query),
        query_url(res) == query_url(query),
        query_params(res) == query_params(query).push(("select"@, columns@)),
        query_headers(res) == query_headers(query),
{
    Builder { request: query.request.select(columns) }
}

/// A client for the PostgREST API at `api` that authenticates with the
/// `apikey` header.
pub fn api_client(api: String, secret: &str) -> (client: PostgrestClient)
    requires
        header_value_ok(secret@),
    ensures
        client_url(client) == api@,
        client_headers(client) == map!["apikey"@ => secret@],
{
    proof {
        reveal_strlit("apikey");
    }
    let client = new_client(api);
    let client = insert_header(client, "apikey", secret);
    assert(client_headers(client) =~= map!["apikey"@ => secret@]);
    client
}

/// The columns of the `bucket` table the gateway reads.
pub open spec fn bucket_columns() -> Seq<char> {
    "slug, created_at"@
}

/// The query that reads every bucket: `GET <base>/bucket?select=slug, created_at`.
pub fn bucket_query(client: &PostgrestClient) -> (query: Builder)
    ensures
        query_method(query) == "GET"@,
        query_url(query) == client_url(*client) + "/bucket"@,
        query_params(query) == seq![("select"@, bucket_columns())],
        query_headers(query) == client_headers(*client).insert("accept"@, "application/json"@),
{
    let query = from_table(client, "bucket");
    let query = select_columns(query, "slug, created_at");
    proof {
        reveal_strlit("/");
        reveal_strlit("bucket");
        reveal_strlit("/bucket");
    }
    assert("/"@ + "bucket"@ =~= "/bucket"@);
    assert(client_url(*client) + "/"@ + "bucket"@ =~= client_url(*client) + "/bucket"@);
    assert(query_params(query) =~= seq![("select"@, bucket_columns())]);
    query
}

} // verus!
