//! The transport layer: fully-described exchanges and their outcomes.
//!
//! Every API call is first built as a plain [`HttpRequest`] value carrying
//! the verb, the full URL, the query parameters, the two required headers and
//! an optional JSON body. Performing the exchange on the network is left to
//! the surrounding program, which hands the answer back as an
//! [`HttpOutcome`]; the functions here say exactly which requests the client
//! issues and how an outcome is judged.

use vstd::prelude::*;
use crate::json::JsonValue;

verus! {

/// The four HTTP verbs the service uses.
#[derive(Structural, PartialEq, Eq, Clone, Copy, Debug)]
pub enum Method {
    Get,
    Patch,
    Post,
    Delete,
}

/// One fully-described exchange, ready to be performed.
#[derive(Debug)]
pub struct HttpRequest {
    pub method: Method,
    pub url: String,
    pub query: Vec<(String, String)>,
    pub headers: Vec<(String, String)>,
    pub body: Option<JsonValue>,
}

/// What performing an exchange yielded.
#[derive(Debug)]
pub enum HttpOutcome {
    /// The exchange failed before any answer arrived.
    Failure(String),
    /// An answer, with its status code and its body parsed as JSON, if any.
    Response { status: u16, body: Option<JsonValue> },
}

/// Why a call failed.
#[derive(Debug, Clone, PartialEq, Eq)]
pub enum PkError {
    /// The exchange itself failed: connection, name resolution, or timeout.
    Transport(String),
    /// The service answered with a non-success status.
    Status(u16),
    /// The answer's body did not match the schema.
    Schema,
}

/// The service's fixed base URL.
pub open spec fn spec_base_url() -> Seq<char> {
    "https://api.pluralkit.me/v2/"@
}

/// The service's fixed base URL.
pub fn base_url() -> (r: &'static str)
    ensures
        r@ == spec_base_url(),
{
    "https://api.pluralkit.me/v2/"
}

/// The client: a connection-pool handle, a credential, and an agent name.
pub struct PkClient {
    pub client: reqwest::Client,
    pub token: String,
    pub user_agent: String,
}

#[verifier::external_type_specification]
#[verifier::external_body]
pub struct ExReqwestClient(reqwest::Client);

/// Relies on reqwest's `Client::new`: a fresh connection-pool handle. The
/// handle is opaque here; only the surrounding program performs exchanges
/// with it.
#[verifier::external_body]
pub fn new_http_client() -> reqwest::Client {
    reqwest::Client::new()
}

impl Default for PkClient {
    /// An unauthenticated client with the crate's own agent name.
    fn default() -> (r: Self)
        ensures
            r.token@ == Seq::<char>::empty(),
            r.user_agent@ == "pk + rust project"@,
    {
        PkClient {
            client: new_http_client(),
            token: String::new(),
            user_agent: "pk + rust project".to_owned(),
        }
    }
}

/// The two headers every exchange carries: the agent name and the
/// authorization credential.
pub open spec fn spec_headers_ok(c: PkClient, h: Seq<(String, String)>) -> bool {
    &&& h.len() == 2
    &&& h[0].0@ == "User-Agent"@
    &&& h[0].1@ == c.user_agent@
    &&& h[1].0@ == "Authorization"@
    &&& h[1].1@ == c.token@
}

/// The view of a query-parameter list.
pub open spec fn spec_query_view(q: Seq<(String, String)>) -> Seq<(Seq<char>, Seq<char>)> {
    q.map_values(|p: (String, String)| (p.0@, p.1@))
}

/// `r` is the exchange `m path?query body`, issued as the client `c`.
pub open spec fn spec_request(
    c: PkClient,
    r: HttpRequest,
    m: Method,
    path: Seq<char>,
    query: Seq<(Seq<char>, Seq<char>)>,
    body: Option<JsonValue>,
) -> bool {
    &&& r.method == m
    &&& r.url@ == spec_base_url() + path
    &&& spec_query_view(r.query@) == query
    &&& spec_headers_ok(c, r.headers@)
    &&& r.body == body
}

impl PkClient {
    /// Builds one exchange against the base URL with the required headers.
    pub fn request(
        &self,
        method: Method,
        path: String,
        query: Vec<(String, String)>,
        body: Option<JsonValue>,
    ) -> (r: HttpRequest)
        ensures
            spec_request(*self, r, method, path@, spec_query_view(query@), body),
    {
        let mut url: String = base_url().to_owned();
        url.append(path.as_str());
        let mut headers: Vec<(String, String)> = Vec::new();
        headers.push(("User-Agent".to_owned(), self.user_agent.clone()));
        headers.push(("Authorization".to_owned(), self.token.clone()));
        HttpRequest { method, url, query, headers, body }
    }
}

/// The status that a membership mutation or a deletion answers on success.
pub open spec fn spec_is_no_content(status: u16) -> bool {
    status == 204
}

/// Decides success of a no-content action: the no-content status and nothing
/// else counts, whatever the body held.
pub fn check_no_content(outcome: &HttpOutcome) -> (r: Result<(), PkError>)
    ensures
        match outcome {
            HttpOutcome::Failure(m) => r matches Err(e) && e matches PkError::Transport(t) && t@
                == m@,
            HttpOutcome::Response { status, body } => if spec_is_no_content(*status) {
                r is Ok
            } else {
                r == Err::<(), PkError>(PkError::Status(*status))
            },
        },
{
    match outcome {
        HttpOutcome::Failure(m) => Err(PkError::Transport(m.clone())),
        HttpOutcome::Response { status, .. } => {
            if *status == 204 {
                Ok(())
            } else {
                Err(PkError::Status(*status))
            }
        },
    }
}

/// A status in the success range.
pub open spec fn spec_is_success(status: u16) -> bool {
    200 <= status < 300
}

} // verus!
