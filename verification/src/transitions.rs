//! The workflow-transition resource: the transitions an issue can take.
//!
//! The transition schema is the remote service's; this core reads the slice
//! it needs — each transition's identifier and name — through the same
//! pipeline as every other lookup.

use vstd::prelude::*;
use vstd::string::*;

use crate::errors::classify_response;
use crate::errors::spec_classified;
use crate::errors::spec_fault;
use crate::errors::Error;
use crate::json::json_as_array;
use crate::json::json_as_str;
use crate::json::json_get;
use crate::json::json_parsed;
use crate::json::parse_json;
use crate::json::value_data;
use crate::json::JsonData;
use crate::Jira;

verus! {

/// The slice of one workflow transition this core reads: its identifier
/// and its name.
#[derive(Debug)]
pub struct Transition {
    pub id: String,
    pub name: String,
}

/// Whether a parsed document has the transition shape: an object with
/// string members `id` and `name`.
pub open spec fn transition_shape_ok(d: JsonData) -> bool {
    &&& d matches JsonData::Obj(m)
    &&& m.contains_key("id"@)
    &&& m["id"@] is Str
    &&& m.contains_key("name"@)
    &&& m["name"@] is Str
}

/// Whether the decoded transition reproduces the parsed document exactly.
pub open spec fn is_transition_of(t: Transition, d: JsonData) -> bool {
    &&& d matches JsonData::Obj(m)
    &&& m.contains_key("id"@)
    &&& m["id"@] == JsonData::Str(t.id@)
    &&& m.contains_key("name"@)
    &&& m["name"@] == JsonData::Str(t.name@)
}

/// Whether a parsed document has the transition-list shape: an object whose
/// `transitions` member is an array of transition-shaped objects.
pub open spec fn transitions_shape_ok(d: JsonData) -> bool {
    &&& d matches JsonData::Obj(m)
    &&& m.contains_key("transitions"@)
    &&& m["transitions"@] matches JsonData::Arr(xs)
    &&& forall|i: int| 0 <= i < xs.len() ==> transition_shape_ok(#[trigger] xs[i])
}

/// Whether the decoded list reproduces the parsed document exactly, in
/// order.
pub open spec fn is_transitions_of(ts: Seq<Transition>, d: JsonData) -> bool {
    &&& d matches JsonData::Obj(m)
    &&& m.contains_key("transitions"@)
    &&& m["transitions"@] matches JsonData::Arr(xs)
    &&& ts.len() == xs.len()
    &&& forall|i: int| 0 <= i < xs.len() ==> is_transition_of(ts[i], #[trigger] xs[i])
}

/// Decodes one transition out of a parsed document.
fn decode_transition(v: &serde_json::Value) -> (r: Result<Transition, Error>)
    ensures
        r is Ok <==> transition_shape_ok(value_data(*v)),
        r matches Ok(t) ==> is_transition_of(t, value_data(*v)),
        r matches Err(e) ==> e is Serde,
{
    let id = match json_get(v, "id") {
        Some(w) => match json_as_str(w) {
            Some(s) => s,
            None => {
                return Err(Error::Serde(String::from_str("transition id is not a string")));
            },
        },
        None => {
            return Err(Error::Serde(String::from_str("transition lacks an id")));
        },
    };
    let name = match json_get(v, "name") {
        Some(w) => match json_as_str(w) {
            Some(s) => s,
            None => {
                return Err(Error::Serde(String::from_str("transition name is not a string")));
            },
        },
        None => {
            return Err(Error::Serde(String::from_str("transition lacks a name")));
        },
    };
    Ok(Transition { id, name })
}

/// The elements of an array document; arbitrary for any other document.
spec fn value_data_arr_elems(v: serde_json::Value) -> Seq<JsonData> {
    choose|elems: Seq<JsonData>| value_data(v) == JsonData::Arr(elems)
}

/// Decodes a success body as the list of available transitions.
pub fn decode_transitions(body: &str) -> (r: Result<Vec<Transition>, Error>)
    ensures
        r is Ok <==> (json_parsed(body@) matches Some(d) && transitions_shape_ok(d)),
        match json_parsed(body@) {
            Some(d) => r matches Ok(ts) ==> is_transitions_of(ts@, d),
            None => r is Err,
        },
        r matches Err(e) ==> e is Serde,
{
    let v = match parse_json(body) {
        Some(v) => v,
        None => {
            return Err(Error::Serde(String::from_str("response body is not JSON")));
        },
    };
    let list_value = match json_get(&v, "transitions") {
        Some(w) => w,
        None => {
            return Err(Error::Serde(String::from_str("payload lacks transitions")));
        },
    };
    let arr = match json_as_array(list_value) {
        Some(a) => a,
        None => {
            return Err(Error::Serde(String::from_str("transitions is not an array")));
        },
    };
    let ghost elems = value_data_arr_elems(*list_value);
    let mut transitions: Vec<Transition> = Vec::new();
    let n = arr.len();
    let mut i: usize = 0;
    while i < n
        invariant
            n == arr@.len(),
            i <= n,
            json_parsed(body@) == Some(value_data(v)),
            value_data(v) matches JsonData::Obj(m) && m.contains_key("transitions"@)
                && m["transitions"@] == value_data(*list_value),
            value_data(*list_value) == JsonData::Arr(elems),
            elems.len() == n,
            forall|j: int| 0 <= j < n ==> value_data(arr@[j]) == elems[j],
            transitions@.len() == i,
            forall|j: int| 0 <= j < i ==> is_transition_of(transitions@[j], #[trigger] elems[j]),
            forall|j: int| 0 <= j < i ==> transition_shape_ok(#[trigger] elems[j]),
        decreases n - i,
    {
        match decode_transition(&arr[i]) {
            Ok(t) => {
                transitions.push(t);
            },
            Err(e) => {
                proof {
                    assert(value_data(arr@[i as int]) == elems[i as int]);
                    assert(!transition_shape_ok(elems[i as int]));
                    let d = value_data(v);
                    if transitions_shape_ok(d) {
                        let m = d->Obj_0;
                        let xs = m["transitions"@]->Arr_0;
                        assert(xs == elems);
                        assert(transition_shape_ok(xs[i as int]));
                        assert(false);
                    }
                }
                return Err(e);
            },
        }
        i = i + 1;
    }
    Ok(transitions)
}

/// What the whole pipeline returns for one response on a transition-list
/// lookup.
pub open spec fn spec_transitions_outcome(
    status: u16,
    body: Seq<char>,
    r: Result<Vec<Transition>, Error>,
) -> bool {
    if status == 401 {
        r matches Err(e) && e is Unauthorized
    } else if 400 <= status && status < 500 {
        r matches Err(e) && spec_fault(status, body, e)
    } else {
        match r {
            Ok(ts) => json_parsed(body) matches Some(d) && transitions_shape_ok(d)
                && is_transitions_of(ts@, d),
            Err(e) => e is Serde && !(json_parsed(body) matches Some(d) && transitions_shape_ok(
                d,
            )),
        }
    }
}

/// Classifies and decodes one response for a transition-list lookup.
pub fn process_transitions(status: u16, body: String) -> (r: Result<Vec<Transition>, Error>)
    ensures
        spec_transitions_outcome(status, body@, r),
{
    let ghost txt = body@;
    let c = classify_response(status, body);
    proof {
        assert(spec_classified(status, txt, c));
    }
    match c {
        Ok(text) => decode_transitions(text.as_str()),
        Err(e) => Err(e),
    }
}

/// The transition operations of one issue, over a shared reference to the
/// root client.
#[derive(Debug)]
pub struct Transitions<'a> {
    jira: &'a Jira,
    key: String,
}

impl<'a> Transitions<'a> {
    /// The client this facade scopes: every operation goes out over its
    /// transport, under its host and credentials.
    pub closed spec fn spec_client(&self) -> &'a Jira {
        self.jira
    }

    /// The key of the issue whose transitions this facade reads.
    pub closed spec fn spec_key(&self) -> Seq<char> {
        self.key@
    }

    /// Scopes the shared client to the transitions of one issue.
    pub fn new(jira: &'a Jira, key: String) -> (r: Transitions<'a>)
        ensures
            r.spec_client() == jira,
            r.spec_key() == key@,
    {
        Transitions { jira, key }
    }

    /// Lists the transitions the issue can take: GET on
    /// `/issue/{key}/transitions`, strictly decoded.
    pub fn list(&self) -> (r: Result<Vec<Transition>, Error>)
        ensures
            (r matches Err(e) && e is Transport) || exists|status: u16, text: Seq<char>|
                #[trigger] spec_transitions_outcome(status, text, r),
    {
        let mut endpoint = String::from_str("/issue/");
        endpoint.append(self.key.as_str());
        endpoint.append("/transitions");
        let raw = self.jira.get(endpoint.as_str());
        let ghost raw_snap = raw;
        match raw {
            Ok(body) => {
                let out = decode_transitions(body.as_str());
                proof {
                    if !(raw_snap matches Err(e) && e is Transport) {
                        let (s, t) = choose|s: u16, t: Seq<char>|
                            spec_classified(s, t, raw_snap);
                        assert(spec_transitions_outcome(s, t, out));
                    }
                }
                out
            },
            Err(e) => {
                proof {
                    if !(e is Transport) {
                        let (s, t) = choose|s: u16, t: Seq<char>|
                            spec_classified(s, t, raw_snap);
                        assert(spec_transitions_outcome(s, t, Err::<Vec<Transition>, Error>(e)));
                    }
                }
                Err(e)
            },
        }
    }
}

} // verus!
