//! The session resource: login, logout, and the current user.
//!
//! Login and the current-user lookup decode typed payloads strictly; logout
//! is the other operation whose successful remote response carries no body,
//! so its facade applies the scoped remap of `unit_result`.

use vstd::prelude::*;
use vstd::string::*;

use crate::errors::classify_response;
use crate::errors::spec_classified;
use crate::errors::spec_fault;
use crate::errors::spec_unit_outcome;
use crate::errors::unit_result;
use crate::errors::Error;
use crate::json::encode_object;
use crate::json::json_as_str;
use crate::json::json_as_u64;
use crate::json::json_get;
use crate::json::json_parsed;
use crate::json::obj_model;
use crate::json::object_insert_string;
use crate::json::object_new;
use crate::json::parse_json;
use crate::json::value_data;
use crate::json::JsonData;
use crate::ApiRoot;
use crate::Jira;

verus! {

/// The session cookie the remote service grants on login.
#[derive(Debug)]
pub struct SessionCookie {
    pub name: String,
    pub value: String,
}

/// The login bookkeeping the remote service reports.
#[derive(Debug)]
pub struct LoginInfo {
    pub failed_login_count: u64,
    pub login_count: u64,
    pub last_failed_login_time: String,
    pub previous_login_time: String,
}

/// A successful login: the granted cookie and the login bookkeeping.
#[derive(Debug)]
pub struct Login {
    pub session: SessionCookie,
    pub login_info: LoginInfo,
}

/// The current user of the session.
#[derive(Debug)]
pub struct CurrentUser {
    pub self_link: String,
    pub name: String,
    pub login_info: LoginInfo,
}

/// The body of a login request.
#[derive(Debug)]
pub struct LoginCredentials {
    pub username: String,
    pub password: String,
}

/// Whether a parsed document has the session-cookie shape.
pub open spec fn cookie_shape_ok(d: JsonData) -> bool {
    &&& d matches JsonData::Obj(m)
    &&& m.contains_key("name"@)
    &&& m["name"@] is Str
    &&& m.contains_key("value"@)
    &&& m["value"@] is Str
}

/// Whether the decoded cookie reproduces the parsed document exactly.
pub open spec fn is_cookie_of(c: SessionCookie, d: JsonData) -> bool {
    &&& d matches JsonData::Obj(m)
    &&& m.contains_key("name"@)
    &&& m["name"@] == JsonData::Str(c.name@)
    &&& m.contains_key("value"@)
    &&& m["value"@] == JsonData::Str(c.value@)
}

/// Whether a parsed document has the login-bookkeeping shape.
pub open spec fn login_info_shape_ok(d: JsonData) -> bool {
    &&& d matches JsonData::Obj(m)
    &&& m.contains_key("failedLoginCount"@)
    &&& m["failedLoginCount"@] is Int
    &&& m.contains_key("loginCount"@)
    &&& m["loginCount"@] is Int
    &&& m.contains_key("lastFailedLoginTime"@)
    &&& m["lastFailedLoginTime"@] is Str
    &&& m.contains_key("previousLoginTime"@)
    &&& m["previousLoginTime"@] is Str
}

/// Whether the decoded bookkeeping reproduces the parsed document exactly.
pub open spec fn is_login_info_of(li: LoginInfo, d: JsonData) -> bool {
    &&& d matches JsonData::Obj(m)
    &&& m.contains_key("failedLoginCount"@)
    &&& m["failedLoginCount"@] == JsonData::Int(li.failed_login_count)
    &&& m.contains_key("loginCount"@)
    &&& m["loginCount"@] == JsonData::Int(li.login_count)
    &&& m.contains_key("lastFailedLoginTime"@)
    &&& m["lastFailedLoginTime"@] == JsonData::Str(li.last_failed_login_time@)
    &&& m.contains_key("previousLoginTime"@)
    &&& m["previousLoginTime"@] == JsonData::Str(li.previous_login_time@)
}

/// Whether a parsed document has the login-payload shape.
pub open spec fn login_shape_ok(d: JsonData) -> bool {
    &&& d matches JsonData::Obj(m)
    &&& m.contains_key("session"@)
    &&& cookie_shape_ok(m["session"@])
    &&& m.contains_key("loginInfo"@)
    &&& login_info_shape_ok(m["loginInfo"@])
}

/// Whether the decoded login reproduces the parsed document exactly.
pub open spec fn is_login_of(l: Login, d: JsonData) -> bool {
    &&& d matches JsonData::Obj(m)
    &&& m.contains_key("session"@)
    &&& is_cookie_of(l.session, m["session"@])
    &&& m.contains_key("loginInfo"@)
    &&& is_login_info_of(l.login_info, m["loginInfo"@])
}

/// Whether a parsed document has the current-user shape.
pub open spec fn current_user_shape_ok(d: JsonData) -> bool {
    &&& d matches JsonData::Obj(m)
    &&& m.contains_key("self"@)
    &&& m["self"@] is Str
    &&& m.contains_key("name"@)
    &&& m["name"@] is Str
    &&& m.contains_key("loginInfo"@)
    &&& login_info_shape_ok(m["loginInfo"@])
}

/// Whether the decoded current user reproduces the parsed document exactly.
pub open spec fn is_current_user_of(u: CurrentUser, d: JsonData) -> bool {
    &&& d matches JsonData::Obj(m)
    &&& m.contains_key("self"@)
    &&& m["self"@] == JsonData::Str(u.self_link@)
    &&& m.contains_key("name"@)
    &&& m["name"@] == JsonData::Str(u.name@)
    &&& m.contains_key("loginInfo"@)
    &&& is_login_info_of(u.login_info, m["loginInfo"@])
}

/// Decodes the login-bookkeeping object of a payload.
fn decode_login_info(v: &serde_json::Value) -> (r: Result<LoginInfo, Error>)
    ensures
        r is Ok <==> login_info_shape_ok(value_data(*v)),
        r matches Ok(li) ==> is_login_info_of(li, value_data(*v)),
        r matches Err(e) ==> e is Serde,
{
    let failed_login_count = match json_get(v, "failedLoginCount") {
        Some(w) => match json_as_u64(w) {
            Some(n) => n,
            None => {
                return Err(Error::Serde(String::from_str("failedLoginCount is not a count")));
            },
        },
        None => {
            return Err(Error::Serde(String::from_str("login info lacks failedLoginCount")));
        },
    };
    let login_count = match json_get(v, "loginCount") {
        Some(w) => match json_as_u64(w) {
            Some(n) => n,
            None => {
                return Err(Error::Serde(String::from_str("loginCount is not a count")));
            },
        },
        None => {
            return Err(Error::Serde(String::from_str("login info lacks loginCount")));
        },
    };
    let last_failed_login_time = match json_get(v, "lastFailedLoginTime") {
        Some(w) => match json_as_str(w) {
            Some(s) => s,
            None => {
                return Err(Error::Serde(String::from_str("lastFailedLoginTime is not a string")));
            },
        },
        None => {
            return Err(Error::Serde(String::from_str("login info lacks lastFailedLoginTime")));
        },
    };
    let previous_login_time = match json_get(v, "previousLoginTime") {
        Some(w) => match json_as_str(w) {
            Some(s) => s,
            None => {
                return Err(Error::Serde(String::from_str("previousLoginTime is not a string")));
            },
        },
        None => {
            return Err(Error::Serde(String::from_str("login info lacks previousLoginTime")));
        },
    };
    Ok(LoginInfo { failed_login_count, login_count, last_failed_login_time, previous_login_time })
}

/// Decodes a success body as a login payload.
pub fn decode_login(body: &str) -> (r: Result<Login, Error>)
    ensures
        r is Ok <==> (json_parsed(body@) matches Some(d) && login_shape_ok(d)),
        match json_parsed(body@) {
            Some(d) => r matches Ok(l) ==> is_login_of(l, d),
            None => r is Err,
        },
        r matches Err(e) ==> e is Serde,
{
    let v = match parse_json(body) {
        Some(v) => v,
        None => {
            return Err(Error::Serde(String::from_str("response body is not JSON")));
        },
    };
    let session = match json_get(&v, "session") {
        Some(w) => {
            let name = match json_get(w, "name") {
                Some(x) => match json_as_str(x) {
                    Some(s) => s,
                    None => {
                        return Err(Error::Serde(String::from_str("cookie name is not a string")));
                    },
                },
                None => {
                    return Err(Error::Serde(String::from_str("session lacks a cookie name")));
                },
            };
            let value = match json_get(w, "value") {
                Some(x) => match json_as_str(x) {
                    Some(s) => s,
                    None => {
                        return Err(Error::Serde(String::from_str("cookie value is not a string")));
                    },
                },
                None => {
                    return Err(Error::Serde(String::from_str("session lacks a cookie value")));
                },
            };
            SessionCookie { name, value }
        },
        None => {
            return Err(Error::Serde(String::from_str("login payload lacks a session")));
        },
    };
    let login_info = match json_get(&v, "loginInfo") {
        Some(w) => match decode_login_info(w) {
            Ok(li) => li,
            Err(e) => {
                return Err(e);
            },
        },
        None => {
            return Err(Error::Serde(String::from_str("login payload lacks loginInfo")));
        },
    };
    Ok(Login { session, login_info })
}

/// Decodes a success body as a current-user payload.
pub fn decode_current_user(body: &str) -> (r: Result<CurrentUser, Error>)
    ensures
        r is Ok <==> (json_parsed(body@) matches Some(d) && current_user_shape_ok(d)),
        match json_parsed(body@) {
            Some(d) => r matches Ok(u) ==> is_current_user_of(u, d),
            None => r is Err,
        },
        r matches Err(e) ==> e is Serde,
{
    let v = match parse_json(body) {
        Some(v) => v,
        None => {
            return Err(Error::Serde(String::from_str("response body is not JSON")));
        },
    };
    let self_link = match json_get(&v, "self") {
        Some(w) => match json_as_str(w) {
            Some(s) => s,
            None => {
                return Err(Error::Serde(String::from_str("self is not a string")));
            },
        },
        None => {
            return Err(Error::Serde(String::from_str("current user lacks a self link")));
        },
    };
    let name = match json_get(&v, "name") {
        Some(w) => match json_as_str(w) {
            Some(s) => s,
            None => {
                return Err(Error::Serde(String::from_str("name is not a string")));
            },
        },
        None => {
            return Err(Error::Serde(String::from_str("current user lacks a name")));
        },
    };
    let login_info = match json_get(&v, "loginInfo") {
        Some(w) => match decode_login_info(w) {
            Ok(li) => li,
            Err(e) => {
                return Err(e);
            },
        },
        None => {
            return Err(Error::Serde(String::from_str("current user lacks loginInfo")));
        },
    };
    Ok(CurrentUser { self_link, name, login_info })
}

/// What the whole pipeline returns for one response on a login.
pub open spec fn spec_login_outcome(status: u16, body: Seq<char>, r: Result<Login, Error>) -> bool {
    if status == 401 {
        r matches Err(e) && e is Unauthorized
    } else if 400 <= status && status < 500 {
        r matches Err(e) && spec_fault(status, body, e)
    } else {
        match r {
            Ok(l) => json_parsed(body) matches Some(d) && login_shape_ok(d) && is_login_of(l, d),
            Err(e) => e is Serde && !(json_parsed(body) matches Some(d) && login_shape_ok(d)),
        }
    }
}

/// Classifies and decodes one response for a login.
pub fn process_login(status: u16, body: String) -> (r: Result<Login, Error>)
    ensures
        spec_login_outcome(status, body@, r),
{
    let ghost txt = body@;
    let c = classify_response(status, body);
    proof {
        assert(spec_classified(status, txt, c));
    }
    match c {
        Ok(text) => decode_login(text.as_str()),
        Err(e) => Err(e),
    }
}

/// What the whole pipeline returns for one response on a current-user
/// lookup.
pub open spec fn spec_current_user_outcome(
    status: u16,
    body: Seq<char>,
    r: Result<CurrentUser, Error>,
) -> bool {
    if status == 401 {
        r matches Err(e) && e is Unauthorized
    } else if 400 <= status && status < 500 {
        r matches Err(e) && spec_fault(status, body, e)
    } else {
        match r {
            Ok(u) => json_parsed(body) matches Some(d) && current_user_shape_ok(d)
                && is_current_user_of(u, d),
            Err(e) => e is Serde && !(json_parsed(body) matches Some(d) && current_user_shape_ok(
                d,
            )),
        }
    }
}

/// Classifies and decodes one response for a current-user lookup.
pub fn process_current_user(status: u16, body: String) -> (r: Result<CurrentUser, Error>)
    ensures
        spec_current_user_outcome(status, body@, r),
{
    let ghost txt = body@;
    let c = classify_response(status, body);
    proof {
        assert(spec_classified(status, txt, c));
    }
    match c {
        Ok(text) => decode_current_user(text.as_str()),
        Err(e) => Err(e),
    }
}

/// Encodes the login body `{"username": ..., "password": ...}`: a flat
/// object of strings, which always encodes.
pub fn login_body(creds: &LoginCredentials) -> (r: Result<String, Error>)
    ensures
        r is Ok,
        r matches Ok(s) ==> json_parsed(s@) == Some(
            JsonData::Obj(
                map![
                    "username"@ => JsonData::Str(creds.username@),
                    "password"@ => JsonData::Str(creds.password@),
                ],
            ),
        ),
{
    let mut obj = object_new();
    object_insert_string(&mut obj, "username", creds.username.as_str());
    object_insert_string(&mut obj, "password", creds.password.as_str());
    proof {
        assert(obj_model(obj) =~= map![
            "username"@ => JsonData::Str(creds.username@),
            "password"@ => JsonData::Str(creds.password@),
        ]);
    }
    match encode_object(obj) {
        Ok(s) => Ok(s),
        Err(_) => Err(Error::Serde(String::from_str("could not encode the request body"))),
    }
}

/// The session operations, over a shared reference to the root client.
#[derive(Debug)]
pub struct Session<'a> {
    jira: &'a Jira,
}

impl<'a> Session<'a> {
    /// The client this facade scopes: every operation goes out over its
    /// transport, under its host and credentials.
    pub closed spec fn spec_client(&self) -> &'a Jira {
        self.jira
    }

    /// Scopes the shared client to session operations.
    pub fn new(jira: &'a Jira) -> (r: Session<'a>)
        ensures
            r.spec_client() == jira,
    {
        Session { jira }
    }

    /// Logs in: POST on `/session` at the authentication root, strictly
    /// decoding the granted session and login bookkeeping.
    pub fn login(&self, creds: LoginCredentials) -> (r: Result<Login, Error>)
        ensures
            (r matches Err(e) && e is Transport) || exists|status: u16, text: Seq<char>|
                #[trigger] spec_login_outcome(status, text, r),
    {
        let body = match login_body(&creds) {
            Ok(s) => s,
            Err(e) => {
                return Err(e);
            },
        };
        let raw = self.jira.post("/session", ApiRoot::Auth, body);
        let ghost raw_snap = raw;
        match raw {
            Ok(text) => {
                let out = decode_login(text.as_str());
                proof {
                    if !(raw_snap matches Err(e) && e is Transport) {
                        let (s, t) = choose|s: u16, t: Seq<char>|
                            spec_classified(s, t, raw_snap);
                        assert(spec_login_outcome(s, t, out));
                    }
                }
                out
            },
            Err(e) => {
                proof {
                    if !(e is Transport) {
                        let (s, t) = choose|s: u16, t: Seq<char>|
                            spec_classified(s, t, raw_snap);
                        assert(spec_login_outcome(s, t, Err::<Login, Error>(e)));
                    }
                }
                Err(e)
            },
        }
    }

    /// Logs out: DELETE on `/session` at the authentication root. The
    /// successful remote response carries no body, so a decode failure
    /// counts as success; no other outcome is remapped.
    pub fn logout(&self) -> (r: Result<(), Error>)
        ensures
            r matches Err(e) ==> !(e is Serde),
            (r matches Err(e) && e is Transport) || exists|status: u16, text: Seq<char>|
                #[trigger] spec_unit_outcome(status, text, r),
    {
        let raw = self.jira.delete("/session", ApiRoot::Auth);
        let ghost raw_snap = raw;
        let out = unit_result(raw);
        proof {
            if !(raw_snap matches Err(e) && e is Transport) {
                let (s, t) = choose|s: u16, t: Seq<char>| spec_classified(s, t, raw_snap);
                assert(spec_unit_outcome(s, t, out));
            }
        }
        out
    }

    /// Looks the current user up: GET on `/session` at the authentication
    /// root, strictly decoded.
    pub fn current_user(&self) -> (r: Result<CurrentUser, Error>)
        ensures
            (r matches Err(e) && e is Transport) || exists|status: u16, text: Seq<char>|
                #[trigger] spec_current_user_outcome(status, text, r),
    {
        let raw = self.jira.request(crate::Method::Get, "/session", ApiRoot::Auth, None);
        let ghost raw_snap = raw;
        match raw {
            Ok(text) => {
                let out = decode_current_user(text.as_str());
                proof {
                    if !(raw_snap matches Err(e) && e is Transport) {
                        let (s, t) = choose|s: u16, t: Seq<char>|
                            spec_classified(s, t, raw_snap);
                        assert(spec_current_user_outcome(s, t, out));
                    }
                }
                out
            },
            Err(e) => {
                proof {
                    if !(e is Transport) {
                        let (s, t) = choose|s: u16, t: Seq<char>|
                            spec_classified(s, t, raw_snap);
                        assert(spec_current_user_outcome(s, t, Err::<CurrentUser, Error>(e)));
                    }
                }
                Err(e)
            },
        }
    }
}

} // verus!
