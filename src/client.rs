//! The client: the server's address and the one HTTP client that every call
//! of it shares.
use vstd::prelude::*;

verus! {

#[verifier::external_type_specification]
#[verifier::external_body]
pub struct ExClient(reqwest::Client);

/// Relies on reqwest's derived `Clone` for `Client`, which shares the same
/// connection pool.
pub assume_specification[ <reqwest::Client as Clone>::clone ](c: &reqwest::Client) -> reqwest::Client;

/// Ceiling, in seconds, on establishing a connection. It bounds only the
/// connect phase, not the whole request and response: whether the round
/// trip should have a deadline of its own is left open, and none is set.
pub const CONNECT_TIMEOUT_SECS: u64 = 30;

/// Interval, in seconds, of the keep-alive probes on idle connections.
pub const KEEPALIVE_SECS: u64 = 30;

/// An HTTP client together with the settings it was built with.
pub struct HttpClient {
    pub client: reqwest::Client,
    pub connect_timeout_secs: u64,
    pub keepalive_secs: u64,
}

/// A JSON-RPC client of the server at `server_addr`.
#[derive(Clone)]
pub struct JsonRpcClient {
    pub server_addr: String,
    pub client: reqwest::Client,
    pub connect_timeout_secs: u64,
    pub keepalive_secs: u64,
}

impl JsonRpcClient {
    /// A client of the server at `server_addr` that sends through `http`.
    pub fn new(server_addr: &str, http: HttpClient) -> (r: Self)
        ensures
            r.server_addr@ == server_addr@,
            r.client == http.client,
            r.connect_timeout_secs == http.connect_timeout_secs,
            r.keepalive_secs == http.keepalive_secs,
    {
        JsonRpcClient {
            server_addr: server_addr.to_owned(),
            client: http.client,
            connect_timeout_secs: http.connect_timeout_secs,
            keepalive_secs: http.keepalive_secs,
        }
    }
}

/// Relies on reqwest's `ClientBuilder` (`connect_timeout`, `tcp_keepalive`,
/// `build`): an HTTP client built with these two settings, or `None` where
/// the builder fails (its TLS backend or resolver cannot be set up).
#[verifier::external_body]
fn build_http_client(connect_timeout_secs: u64, keepalive_secs: u64) -> (r: Option<HttpClient>)
    ensures
        r matches Some(h) ==> h.connect_timeout_secs == connect_timeout_secs && h.keepalive_secs
            == keepalive_secs,
{
    reqwest::Client::builder()
        .connect_timeout(std::time::Duration::from_secs(connect_timeout_secs))
        .tcp_keepalive(std::time::Duration::from_secs(keepalive_secs))
        .build()
        .ok()
        .map(|client| HttpClient { client, connect_timeout_secs, keepalive_secs })
}

/// The shared HTTP client, with the connect timeout and keep-alive interval
/// of this library.
fn create_client() -> (r: Option<HttpClient>)
    ensures
        r matches Some(h) ==> h.connect_timeout_secs == CONNECT_TIMEOUT_SECS && h.keepalive_secs
            == KEEPALIVE_SECS,
{
    build_http_client(CONNECT_TIMEOUT_SECS, KEEPALIVE_SECS)
}

/// A new client of the server at `server_addr`, with a 30 s connect timeout
/// and a 30 s keep-alive; `None` where no HTTP client can be set up on this
/// machine.
pub fn new_client(server_addr: &str) -> (r: Option<JsonRpcClient>)
    ensures
        r matches Some(c) ==> c.server_addr@ == server_addr@ && c.connect_timeout_secs
            == CONNECT_TIMEOUT_SECS && c.keepalive_secs == KEEPALIVE_SECS,
{
    match create_client() {
        Some(http) => Some(JsonRpcClient::new(server_addr, http)),
        None => None,
    }
}

} // verus!
