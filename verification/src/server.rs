//! The service configuration.
use crate::backend::DummyBackend;
use crate::rest_client::{api_client, client_headers, client_url, header_value_ok, is_header_value};
use vstd::prelude::*;

verus! {

/// Where the PostgREST API lives and the key to use with it.
pub struct Config {
    postgrest_api: String,
    postgrest_key: String,
}

impl Config {
    pub closed spec fn api(&self) -> Seq<char> {
        self.postgrest_api@
    }

    pub closed spec fn key(&self) -> Seq<char> {
        self.postgrest_key@
    }

    /// A configuration for the PostgREST API at `postgrest_api` with key
    /// `postgrest_key`.
    pub fn new(postgrest_api: String, postgrest_key: String) -> (res: Config)
        ensures
            res.api() == postgrest_api@,
            res.key() == postgrest_key@,
    {
        Config { postgrest_api, postgrest_key }
    }

    /// Whether the configured key can be sent as a header value.
    pub fn has_valid_key(&self) -> (res: bool)
        ensures
            res == header_value_ok(self.key()),
    {
        is_header_value(self.postgrest_key.as_str())
    }

    /// The backend the service is built around: a PostgREST client for the
    /// configured API sending the key in the `apikey` header. A key that is not
    /// a valid header value makes the HTTP layer panic, so it is excluded.
    pub fn backend(self) -> (res: DummyBackend)
        requires
            header_value_ok(self.key()),
        ensures
            client_url(res.pg) == self.api(),
            client_headers(res.pg) == map!["apikey"@ => self.key()],
    {
        DummyBackend { pg: api_client(self.postgrest_api, self.postgrest_key.as_str()) }
    }
}

} // verus!
