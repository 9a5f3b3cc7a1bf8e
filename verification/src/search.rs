//! The search resource: issue search by query.
//!
//! The query and result schemas are the remote service's; this core sends
//! the query string and reads the slice it needs of each found issue,
//! through the same pipeline as every other operation.

use vstd::prelude::*;
use vstd::string::*;

use crate::errors::classify_response;
use crate::errors::spec_classified;
use crate::errors::spec_fault;
use crate::errors::Error;
use crate::issues::decode_issue_value;
use crate::issues::is_issue_of;
use crate::issues::issue_shape_ok;
use crate::issues::Issue;
use crate::json::encode_object;
use crate::json::json_as_array;
use crate::json::json_get;
use crate::json::json_parsed;
use crate::json::obj_model;
use crate::json::object_insert_string;
use crate::json::object_new;
use crate::json::parse_json;
use crate::json::value_data;
use crate::json::JsonData;
use crate::ApiRoot;
use crate::Jira;

verus! {

/// Whether a parsed document has the search-result shape: an object whose
/// `issues` member is an array of issue-shaped objects.
pub open spec fn search_shape_ok(d: JsonData) -> bool {
    &&& d matches JsonData::Obj(m)
    &&& m.contains_key("issues"@)
    &&& m["issues"@] matches JsonData::Arr(xs)
    &&& forall|i: int| 0 <= i < xs.len() ==> issue_shape_ok(#[trigger] xs[i])
}

/// Whether the decoded issue list reproduces the parsed document exactly,
/// in order.
pub open spec fn is_search_of(found: Seq<Issue>, d: JsonData) -> bool {
    &&& d matches JsonData::Obj(m)
    &&& m.contains_key("issues"@)
    &&& m["issues"@] matches JsonData::Arr(xs)
    &&& found.len() == xs.len()
    &&& forall|i: int| 0 <= i < xs.len() ==> is_issue_of(found[i], #[trigger] xs[i])
}

/// The elements of an array document; arbitrary for any other document.
spec fn value_data_arr_elems(v: serde_json::Value) -> Seq<JsonData> {
    choose|elems: Seq<JsonData>| value_data(v) == JsonData::Arr(elems)
}

/// Decodes a success body as the list of found issues.
pub fn decode_search(body: &str) -> (r: Result<Vec<Issue>, Error>)
    ensures
        r is Ok <==> (json_parsed(body@) matches Some(d) && search_shape_ok(d)),
        match json_parsed(body@) {
            Some(d) => r matches Ok(found) ==> is_search_of(found@, d),
            None => r is Err,
        },
        r matches Err(e) ==> e is Serde,
{
    let v = match parse_json(body) {
        Some(v) => v,
        None => {
            return Err(Error::Serde(String::from_str("response body is not JSON")));
        },
    };
    let list_value = match json_get(&v, "issues") {
        Some(w) => w,
        None => {
            return Err(Error::Serde(String::from_str("payload lacks issues")));
        },
    };
    let arr = match json_as_array(list_value) {
        Some(a) => a,
        None => {
            return Err(Error::Serde(String::from_str("issues is not an array")));
        },
    };
    let ghost elems = value_data_arr_elems(*list_value);
    let mut found: Vec<Issue> = Vec::new();
    let n = arr.len();
    let mut i: usize = 0;
    while i < n
        invariant
            n == arr@.len(),
            i <= n,
            json_parsed(body@) == Some(value_data(v)),
            value_data(v) matches JsonData::Obj(m) && m.contains_key("issues"@) && m["issues"@]
                == value_data(*list_value),
            value_data(*list_value) == JsonData::Arr(elems),
            elems.len() == n,
            forall|j: int| 0 <= j < n ==> value_data(arr@[j]) == elems[j],
            found@.len() == i,
            forall|j: int| 0 <= j < i ==> is_issue_of(found@[j], #[trigger] elems[j]),
            forall|j: int| 0 <= j < i ==> issue_shape_ok(#[trigger] elems[j]),
        decreases n - i,
    {
        match decode_issue_value(&arr[i]) {
            Ok(iss) => {
                found.push(iss);
            },
            Err(e) => {
                proof {
                    assert(value_data(arr@[i as int]) == elems[i as int]);
                    assert(!issue_shape_ok(elems[i as int]));
                    let d = value_data(v);
                    if search_shape_ok(d) {
                        let m = d->Obj_0;
                        let xs = m["issues"@]->Arr_0;
                        assert(xs == elems);
                        assert(issue_shape_ok(xs[i as int]));
                        assert(false);
                    }
                }
                return Err(e);
            },
        }
        i = i + 1;
    }
    Ok(found)
}

/// What the whole pipeline returns for one response on a search.
pub open spec fn spec_search_outcome(
    status: u16,
    body: Seq<char>,
    r: Result<Vec<Issue>, Error>,
) -> bool {
    if status == 401 {
        r matches Err(e) && e is Unauthorized
    } else if 400 <= status && status < 500 {
        r matches Err(e) && spec_fault(status, body, e)
    } else {
        match r {
            Ok(found) => json_parsed(body) matches Some(d) && search_shape_ok(d) && is_search_of(
                found@,
                d,
            ),
            Err(e) => e is Serde && !(json_parsed(body) matches Some(d) && search_shape_ok(d)),
        }
    }
}

/// Classifies and decodes one response for a search.
pub fn process_search(status: u16, body: String) -> (r: Result<Vec<Issue>, Error>)
    ensures
        spec_search_outcome(status, body@, r),
{
    let ghost txt = body@;
    let c = classify_response(status, body);
    proof {
        assert(spec_classified(status, txt, c));
    }
    match c {
        Ok(text) => decode_search(text.as_str()),
        Err(e) => Err(e),
    }
}

/// Encodes the search body `{"jql": ...}`: a flat object of strings, which
/// always encodes.
pub fn search_body(jql: &str) -> (r: Result<String, Error>)
    ensures
        r is Ok,
        r matches Ok(s) ==> json_parsed(s@) == Some(
            JsonData::Obj(map!["jql"@ => JsonData::Str(jql@)]),
        ),
{
    let mut obj = object_new();
    object_insert_string(&mut obj, "jql", jql);
    proof {
        assert(obj_model(obj) =~= map!["jql"@ => JsonData::Str(jql@)]);
    }
    match encode_object(obj) {
        Ok(s) => Ok(s),
        Err(_) => Err(Error::Serde(String::from_str("could not encode the request body"))),
    }
}

/// The search operations, over a shared reference to the root client.
#[derive(Debug)]
pub struct Search<'a> {
    jira: &'a Jira,
}

impl<'a> Search<'a> {
    /// The client this facade scopes: every operation goes out over its
    /// transport, under its host and credentials.
    pub closed spec fn spec_client(&self) -> &'a Jira {
        self.jira
    }

    /// Scopes the shared client to search operations.
    pub fn new(jira: &'a Jira) -> (r: Search<'a>)
        ensures
            r.spec_client() == jira,
    {
        Search { jira }
    }

    /// Runs one search: POST on `/search` with the encoded query, strictly
    /// decoding the found issues.
    pub fn list(&self, jql: &str) -> (r: Result<Vec<Issue>, Error>)
        ensures
            (r matches Err(e) && e is Transport) || exists|status: u16, text: Seq<char>|
                #[trigger] spec_search_outcome(status, text, r),
    {
        let body = match search_body(jql) {
            Ok(s) => s,
            Err(e) => {
                return Err(e);
            },
        };
        let raw = self.jira.post("/search", ApiRoot::Api, body);
        let ghost raw_snap = raw;
        match raw {
            Ok(text) => {
                let out = decode_search(text.as_str());
                proof {
                    if !(raw_snap matches Err(e) && e is Transport) {
                        let (s, t) = choose|s: u16, t: Seq<char>|
                            spec_classified(s, t, raw_snap);
                        assert(spec_search_outcome(s, t, out));
                    }
                }
                out
            },
            Err(e) => {
                proof {
                    if !(e is Transport) {
                        let (s, t) = choose|s: u16, t: Seq<char>|
                            spec_classified(s, t, raw_snap);
                        assert(spec_search_outcome(s, t, Err::<Vec<Issue>, Error>(e)));
                    }
                }
                Err(e)
            },
        }
    }
}

} // verus!
