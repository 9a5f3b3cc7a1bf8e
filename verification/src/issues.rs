//! The issue resource: lookup and assignment.
//!
//! Assignment is one of the operations whose successful remote response
//! carries no body, so its facade applies the scoped remap of
//! `unit_result`; lookup stays strict.

use vstd::prelude::*;
use vstd::string::*;

use crate::errors::classify_response;
use crate::errors::spec_classified;
use crate::errors::spec_fault;
use crate::errors::spec_unit_outcome;
use crate::errors::unit_result;
use crate::errors::Error;
use crate::json::encode_object;
use crate::json::json_as_str;
use crate::json::json_get;
use crate::json::json_parsed;
use crate::json::obj_model;
use crate::json::object_insert_string;
use crate::json::object_new;
use crate::json::parse_json;
use crate::json::JsonData;
use crate::ApiRoot;
use crate::Jira;

verus! {

/// The slice of an issue representation this core reads: its identifier and
/// its key. Any further members of the representation are the schema
/// layer's business and pass by unread.
#[derive(Debug)]
pub struct Issue {
    pub id: String,
    pub key: String,
}

/// The body of an assignment request: the name of the assignee.
#[derive(Debug)]
pub struct AssignIssue {
    pub name: String,
}

/// Whether a parsed document has the issue shape: an object with string
/// members `id` and `key`.
pub open spec fn issue_shape_ok(d: JsonData) -> bool {
    &&& d matches JsonData::Obj(m)
    &&& m.contains_key("id"@)
    &&& m["id"@] is Str
    &&& m.contains_key("key"@)
    &&& m["key"@] is Str
}

/// Whether the decoded issue reproduces the parsed document exactly.
pub open spec fn is_issue_of(iss: Issue, d: JsonData) -> bool {
    &&& d matches JsonData::Obj(m)
    &&& m.contains_key("id"@)
    &&& m["id"@] == JsonData::Str(iss.id@)
    &&& m.contains_key("key"@)
    &&& m["key"@] == JsonData::Str(iss.key@)
}

/// Decodes one issue representation out of a parsed document.
pub(crate) fn decode_issue_value(v: &serde_json::Value) -> (r: Result<Issue, Error>)
    ensures
        r is Ok <==> issue_shape_ok(crate::json::value_data(*v)),
        r matches Ok(iss) ==> is_issue_of(iss, crate::json::value_data(*v)),
        r matches Err(e) ==> e is Serde,
{
    let id = match json_get(v, "id") {
        Some(w) => match json_as_str(w) {
            Some(s) => s,
            None => {
                return Err(Error::Serde(String::from_str("issue id is not a string")));
            },
        },
        None => {
            return Err(Error::Serde(String::from_str("issue lacks an id")));
        },
    };
    let key = match json_get(v, "key") {
        Some(w) => match json_as_str(w) {
            Some(s) => s,
            None => {
                return Err(Error::Serde(String::from_str("issue key is not a string")));
            },
        },
        None => {
            return Err(Error::Serde(String::from_str("issue lacks a key")));
        },
    };
    Ok(Issue { id, key })
}

/// Decodes a success body as an issue; in particular, an empty body is a
/// decode failure — the empty-body tolerance of assignment never applies to
/// lookup.
pub fn decode_issue(body: &str) -> (r: Result<Issue, Error>)
    ensures
        r is Ok <==> (json_parsed(body@) matches Some(d) && issue_shape_ok(d)),
        match json_parsed(body@) {
            Some(d) => r matches Ok(iss) ==> is_issue_of(iss, d),
            None => r is Err,
        },
        body@.len() == 0 ==> r is Err,
        r matches Err(e) ==> e is Serde,
{
    match parse_json(body) {
        Some(v) => decode_issue_value(&v),
        None => Err(Error::Serde(String::from_str("response body is not JSON"))),
    }
}

/// What the whole pipeline returns for one response on an issue lookup.
pub open spec fn spec_issue_outcome(status: u16, body: Seq<char>, r: Result<Issue, Error>) -> bool {
    if status == 401 {
        r matches Err(e) && e is Unauthorized
    } else if 400 <= status && status < 500 {
        r matches Err(e) && spec_fault(status, body, e)
    } else {
        match r {
            Ok(iss) => json_parsed(body) matches Some(d) && issue_shape_ok(d) && is_issue_of(
                iss,
                d,
            ),
            Err(e) => e is Serde && !(json_parsed(body) matches Some(d) && issue_shape_ok(d)),
        }
    }
}

/// Classifies and decodes one response for an issue lookup. An empty body
/// on a success status is a decode failure here: the empty-body tolerance
/// of assignment and logout is scoped to those operations and never reaches
/// lookup.
pub fn process_issue(status: u16, body: String) -> (r: Result<Issue, Error>)
    ensures
        spec_issue_outcome(status, body@, r),
        !(400 <= status && status < 500) && body@.len() == 0 ==> (r matches Err(e) && e is Serde),
{
    let ghost txt = body@;
    let c = classify_response(status, body);
    proof {
        assert(spec_classified(status, txt, c));
    }
    match c {
        Ok(text) => decode_issue(text.as_str()),
        Err(e) => Err(e),
    }
}

/// Encodes the assignment body `{"name": ...}`: a flat object of strings,
/// which always encodes.
pub fn assign_body(a: &AssignIssue) -> (r: Result<String, Error>)
    ensures
        r is Ok,
        r matches Ok(s) ==> json_parsed(s@) == Some(
            JsonData::Obj(map!["name"@ => JsonData::Str(a.name@)]),
        ),
{
    let mut obj = object_new();
    object_insert_string(&mut obj, "name", a.name.as_str());
    proof {
        assert(obj_model(obj) =~= map!["name"@ => JsonData::Str(a.name@)]);
    }
    match encode_object(obj) {
        Ok(s) => Ok(s),
        Err(_) => Err(Error::Serde(String::from_str("could not encode the request body"))),
    }
}

/// The issue operations, over a shared reference to the root client.
#[derive(Debug)]
pub struct Issues<'a> {
    jira: &'a Jira,
}

impl<'a> Issues<'a> {
    /// The client this facade scopes: every operation goes out over its
    /// transport, under its host and credentials.
    pub closed spec fn spec_client(&self) -> &'a Jira {
        self.jira
    }

    /// Scopes the shared client to issue operations.
    pub fn new(jira: &'a Jira) -> (r: Issues<'a>)
        ensures
            r.spec_client() == jira,
    {
        Issues { jira }
    }

    /// Looks one issue up: GET on `/issue/{id}`, strictly decoded.
    pub fn get(&self, id: &str) -> (r: Result<Issue, Error>)
        ensures
            (r matches Err(e) && e is Transport) || exists|status: u16, text: Seq<char>|
                #[trigger] spec_issue_outcome(status, text, r),
    {
        let mut endpoint = String::from_str("/issue/");
        endpoint.append(id);
        let raw = self.jira.get(endpoint.as_str());
        let ghost raw_snap = raw;
        match raw {
            Ok(body) => {
                let out = decode_issue(body.as_str());
                proof {
                    if !(raw_snap matches Err(e) && e is Transport) {
                        let (s, t) = choose|s: u16, t: Seq<char>|
                            spec_classified(s, t, raw_snap);
                        assert(spec_issue_outcome(s, t, out));
                    }
                }
                out
            },
            Err(e) => {
                proof {
                    if !(e is Transport) {
                        let (s, t) = choose|s: u16, t: Seq<char>|
                            spec_classified(s, t, raw_snap);
                        assert(spec_issue_outcome(s, t, Err::<Issue, Error>(e)));
                    }
                }
                Err(e)
            },
        }
    }

    /// Assigns a user to an issue: PUT on `/issue/{id}/assignee` with the
    /// encoded name. The successful remote response carries no body, so a
    /// decode failure counts as success; no other outcome is remapped.
    pub fn assign(&self, id: &str, name: &str) -> (r: Result<(), Error>)
        ensures
            r matches Err(e) ==> !(e is Serde),
            (r matches Err(e) && e is Transport) || exists|status: u16, text: Seq<char>|
                #[trigger] spec_unit_outcome(status, text, r),
    {
        let assign = AssignIssue { name: String::from_str(name) };
        let body = match assign_body(&assign) {
            Ok(s) => s,
            Err(_) => {
                return Ok(());
            },
        };
        let mut endpoint = String::from_str("/issue/");
        endpoint.append(id);
        endpoint.append("/assignee");
        let raw = self.jira.put(endpoint.as_str(), ApiRoot::Api, body);
        let ghost raw_snap = raw;
        let out = unit_result(raw);
        proof {
            if !(raw_snap matches Err(e) && e is Transport) {
                let (s, t) = choose|s: u16, t: Seq<char>| spec_classified(s, t, raw_snap);
                assert(spec_unit_outcome(s, t, out));
            }
        }
        out
    }
}

} // verus!
