//! A typed client core for a remote issue tracker's REST interface.
//!
//! The crate builds authenticated requests from a credential, sends them over
//! one shared transport, classifies each response into a typed success or one
//! of four error kinds, and exposes small resource-scoped facades (issues,
//! session) that reuse this pipeline.

use vstd::prelude::*;
use vstd::string::*;

mod auth;
mod errors;
mod issues;
mod json;
mod search;
mod session;
mod transitions;
mod transport;

pub use search::decode_search;
pub use search::is_search_of;
pub use search::process_search;
pub use search::search_body;
pub use search::search_shape_ok;
pub use search::spec_search_outcome;
pub use search::Search;

pub use transitions::decode_transitions;
pub use transitions::is_transition_of;
pub use transitions::is_transitions_of;
pub use transitions::process_transitions;
pub use transitions::spec_transitions_outcome;
pub use transitions::transition_shape_ok;
pub use transitions::transitions_shape_ok;
pub use transitions::Transition;
pub use transitions::Transitions;

pub use session::cookie_shape_ok;
pub use session::current_user_shape_ok;
pub use session::decode_current_user;
pub use session::decode_login;
pub use session::is_cookie_of;
pub use session::is_current_user_of;
pub use session::is_login_info_of;
pub use session::is_login_of;
pub use session::login_body;
pub use session::login_info_shape_ok;
pub use session::login_shape_ok;
pub use session::process_current_user;
pub use session::process_login;
pub use session::spec_current_user_outcome;
pub use session::spec_login_outcome;
pub use session::CurrentUser;
pub use session::Login;
pub use session::LoginCredentials;
pub use session::LoginInfo;
pub use session::Session;
pub use session::SessionCookie;

pub use issues::assign_body;
pub use issues::decode_issue;
pub use issues::is_issue_of;
pub use issues::issue_shape_ok;
pub use issues::process_issue;
pub use issues::spec_issue_outcome;
pub use issues::AssignIssue;
pub use issues::Issue;
pub use issues::Issues;

pub use errors::classify_response;
pub use errors::decode_unit;
pub use errors::errors_decodable;
pub use errors::errors_shape_ok;
pub use errors::is_errors_of;
pub use errors::spec_classified;
pub use errors::process_unit;
pub use errors::spec_fault;
pub use errors::spec_unit_outcome;
pub use errors::unit_result;
pub use errors::Error;
pub use errors::Errors;
pub use json::json_parsed;
pub use json::JsonData;
pub use transport::HttpRequest;
pub use transport::Method;

pub use auth::base64_encode;
pub use auth::header_list;
pub use auth::spec_base64;
pub use auth::spec_basic_value;
pub use auth::spec_headers;

verus! {

/// The authentication schemes a client can carry; exactly one is active per
/// client, fixed at construction.
#[derive(Clone, Debug)]
pub enum Credentials {
    /// Username and password, sent as an HTTP Basic authorization header.
    Basic(String, String),
    /// A session cookie value, sent as a `JSESSIONID` cookie header.
    Cookie(String),
}

/// Which versioned root of the host a request targets: the primary REST root
/// or the authentication root.
#[derive(Clone, Copy, Debug)]
pub enum ApiRoot {
    Api,
    Auth,
}

/// The versioned path under the host that an API root selects.
pub open spec fn spec_root_path(root: ApiRoot) -> Seq<char> {
    match root {
        ApiRoot::Api => "rest/api/latest"@,
        ApiRoot::Auth => "rest/auth/latest"@,
    }
}

/// The full URL of a request: host, API root, endpoint suffix, concatenated
/// with a single separating slash.
pub open spec fn spec_url(host: Seq<char>, root: ApiRoot, endpoint: Seq<char>) -> Seq<char> {
    host + "/"@ + spec_root_path(root) + endpoint
}

/// The entry point of the client: one host, one credential, one shared
/// transport handle, immutable once constructed.
#[derive(Clone, Debug)]
pub struct Jira {
    host: String,
    credentials: Credentials,
    client: reqwest::blocking::Client,
}

impl Jira {
    /// The host this client targets.
    pub closed spec fn spec_host(&self) -> Seq<char> {
        self.host@
    }

    /// The credential this client carries.
    pub closed spec fn spec_credentials(&self) -> Credentials {
        self.credentials
    }

    /// The transport handle this client sends over.
    pub closed spec fn spec_transport(&self) -> reqwest::blocking::Client {
        self.client
    }

    /// Creates a client with a transport handle of its own.
    pub fn new(host: String, credentials: Credentials) -> (r: Result<Jira, Error>)
        ensures
            r matches Ok(j) ==> j.spec_host() == host@ && j.spec_credentials() == credentials,
            r matches Err(e) ==> e is Transport,
    {
        match transport::client_build() {
            Ok(client) => Ok(Jira { host, credentials, client }),
            Err(m) => Err(Error::Transport(m)),
        }
    }

    /// Creates a client around a transport handle the caller already built.
    pub fn from_client(
        host: String,
        credentials: Credentials,
        client: reqwest::blocking::Client,
    ) -> (r: Result<Jira, Error>)
        ensures
            r matches Ok(j) && j.spec_host() == host@ && j.spec_credentials() == credentials
                && j.spec_transport() == client,
    {
        Ok(Jira { host, credentials, client })
    }

    /// Builds the full URL for one request.
    fn url_for(&self, root: &ApiRoot, endpoint: &str) -> (r: String)
        ensures
            r@ == spec_url(self.spec_host(), *root, endpoint@),
    {
        let mut url = self.host.clone();
        url.append("/");
        match root {
            ApiRoot::Api => url.append("rest/api/latest"),
            ApiRoot::Auth => url.append("rest/auth/latest"),
        }
        url.append(endpoint);
        url
    }

    /// The one generic operation of the engine: builds the request — URL per
    /// `spec_url`, headers per `spec_headers`, the body exactly as handed in —
    /// sends it, and classifies the response. `Ok` carries the response body
    /// for the caller's typed decode; the classification of whatever exchange
    /// took place is pinned by `spec_classified`.
    pub fn request(
        &self,
        method: Method,
        endpoint: &str,
        root: ApiRoot,
        body: Option<Vec<u8>>,
    ) -> (r: Result<String, Error>)
        ensures
            (r matches Err(e) && e is Transport) || exists|status: u16, text: Seq<char>|
                #[trigger] spec_classified(status, text, r),
    {
        let headers = header_list(&self.credentials);
        let url = self.url_for(&root, endpoint);
        let req = HttpRequest { method, url, headers, body };
        match transport::execute(&self.client, req) {
            Ok((status, text)) => {
                let ghost txt = text@;
                let out = classify_response(status, text);
                proof {
                    assert(spec_classified(status, txt, out));
                }
                out
            },
            Err(e) => Err(e),
        }
    }

    /// Sends a GET request and classifies the response.
    pub(crate) fn get(&self, endpoint: &str) -> (r: Result<String, Error>)
        ensures
            (r matches Err(e) && e is Transport) || exists|status: u16, text: Seq<char>|
                #[trigger] spec_classified(status, text, r),
    {
        self.request(Method::Get, endpoint, ApiRoot::Api, None)
    }

    /// Serializes nothing itself: sends the pre-encoded body under POST.
    pub(crate) fn post(&self, endpoint: &str, root: ApiRoot, body: String) -> (r: Result<String, Error>)
        ensures
            (r matches Err(e) && e is Transport) || exists|status: u16, text: Seq<char>|
                #[trigger] spec_classified(status, text, r),
    {
        self.request(Method::Post, endpoint, root, Some(body.as_str().as_bytes_vec()))
    }

    /// Serializes nothing itself: sends the pre-encoded body under PUT.
    pub(crate) fn put(&self, endpoint: &str, root: ApiRoot, body: String) -> (r: Result<String, Error>)
        ensures
            (r matches Err(e) && e is Transport) || exists|status: u16, text: Seq<char>|
                #[trigger] spec_classified(status, text, r),
    {
        self.request(Method::Put, endpoint, root, Some(body.as_str().as_bytes_vec()))
    }

    /// Sends a DELETE request and classifies the response.
    pub(crate) fn delete(&self, endpoint: &str, root: ApiRoot) -> (r: Result<String, Error>)
        ensures
            (r matches Err(e) && e is Transport) || exists|status: u16, text: Seq<char>|
                #[trigger] spec_classified(status, text, r),
    {
        self.request(Method::Delete, endpoint, root, None)
    }

    /// Scopes this client to issue operations: the facade shares this
    /// client's host, credentials and transport.
    pub fn issues<'a>(&'a self) -> (r: Issues<'a>)
        ensures
            r.spec_client() == self,
    {
        Issues::new(self)
    }

    /// Scopes this client to the transitions of one issue: the facade
    /// shares this client's host, credentials and transport.
    pub fn transitions<'a>(&'a self, key: String) -> (r: Transitions<'a>)
        ensures
            r.spec_client() == self,
            r.spec_key() == key@,
    {
        Transitions::new(self, key)
    }

    /// Scopes this client to search operations: the facade shares this
    /// client's host, credentials and transport.
    pub fn search<'a>(&'a self) -> (r: Search<'a>)
        ensures
            r.spec_client() == self,
    {
        Search::new(self)
    }
}

} // verus!
