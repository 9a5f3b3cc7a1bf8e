//! The result vocabulary shared by every operation, and the classification
//! of a raw response into it.
//!
//! Classification is ordered by specificity: a 401 is `Unauthorized` with its
//! body discarded (the remote service answers 401 with unparseable markup),
//! any other 4xx must carry a structured error collection, and every other
//! status hands its body on for a typed decode.

use vstd::prelude::*;
use vstd::string::*;

use crate::json::obj_all_strings;
use crate::json::parse_json;
use crate::json::string_members_of;
use crate::json::JsonData;
use crate::json::json_as_array;
use crate::json::json_as_str;
use crate::json::json_get;
use crate::json::json_is_null;
use crate::json::json_parsed;
use crate::json::json_string_members;

verus! {

/// The validation messages the remote service returns on a 4xx response:
/// general messages in order, and field-scoped messages by field name.
#[derive(Debug)]
pub struct Errors {
    pub error_messages: Vec<String>,
    pub errors: Vec<(String, String)>,
}

/// Every way one request can fail.
#[derive(Debug)]
pub enum Error {
    /// Authentication was rejected; the response body is not parsed.
    Unauthorized,
    /// The remote service rejected the request semantically: any 4xx other
    /// than 401, with its decoded error collection.
    Fault { code: u16, errors: Errors },
    /// A request body could not be encoded, or a response body could not be
    /// decoded as the expected shape.
    Serde(String),
    /// The exchange itself failed: the request could not be sent or the
    /// response could not be read.
    Transport(String),
}

/// Whether a parsed document has the error-collection shape: an object with
/// an `errorMessages` array of strings and an `errors` object of strings.
pub open spec fn errors_shape_ok(d: JsonData) -> bool {
    &&& d matches JsonData::Obj(m)
    &&& m.contains_key("errorMessages"@)
    &&& m["errorMessages"@] matches JsonData::Arr(msgs)
    &&& forall|i: int| 0 <= i < msgs.len() ==> #[trigger] msgs[i] is Str
    &&& m.contains_key("errors"@)
    &&& m["errors"@] matches JsonData::Obj(em)
    &&& obj_all_strings(em)
}

/// Whether the decoded collection `e` reproduces the parsed document `d`
/// exactly: the same general messages in the same order, and exactly the
/// field-scoped members.
pub open spec fn is_errors_of(e: Errors, d: JsonData) -> bool {
    &&& d matches JsonData::Obj(m)
    &&& m.contains_key("errorMessages"@)
    &&& m["errorMessages"@] matches JsonData::Arr(msgs)
    &&& e.error_messages@.len() == msgs.len()
    &&& forall|i: int|
        0 <= i < msgs.len() ==> #[trigger] msgs[i] == JsonData::Str(e.error_messages@[i]@)
    &&& m.contains_key("errors"@)
    &&& m["errors"@] matches JsonData::Obj(em)
    &&& string_members_of(e.errors@, em)
}

/// Whether the text decodes as an error collection at all.
pub open spec fn errors_decodable(s: Seq<char>) -> bool {
    json_parsed(s) matches Some(d) && errors_shape_ok(d)
}

/// Decodes a 4xx body as the structured error collection; any departure from
/// that shape is itself a fatal decode failure.
pub fn decode_errors(body: &str) -> (r: Result<Errors, Error>)
    ensures
        r is Ok <==> errors_decodable(body@),
        match json_parsed(body@) {
            Some(d) => r matches Ok(e) ==> is_errors_of(e, d),
            None => true,
        },
        r matches Err(e) ==> e is Serde,
{
    let v = match parse_json(body) {
        Some(v) => v,
        None => {
            return Err(Error::Serde(String::from_str("response body is not JSON")));
        },
    };
    let msgs_value = match json_get(&v, "errorMessages") {
        Some(w) => w,
        None => {
            return Err(Error::Serde(String::from_str("error collection lacks errorMessages")));
        },
    };
    let arr = match json_as_array(msgs_value) {
        Some(a) => a,
        None => {
            return Err(Error::Serde(String::from_str("errorMessages is not an array")));
        },
    };
    let ghost elems = value_data_arr_elems(*msgs_value);
    let mut error_messages: Vec<String> = Vec::new();
    let n = arr.len();
    let mut i: usize = 0;
    while i < n
        invariant
            n == arr@.len(),
            i <= n,
            json_parsed(body@) == Some(crate::json::value_data(v)),
            crate::json::value_data(v) matches JsonData::Obj(m) && m.contains_key(
                "errorMessages"@,
            ) && m["errorMessages"@] == crate::json::value_data(*msgs_value),
            crate::json::value_data(*msgs_value) == JsonData::Arr(elems),
            elems.len() == n,
            forall|j: int| 0 <= j < n ==> crate::json::value_data(arr@[j]) == elems[j],
            error_messages@.len() == i,
            forall|j: int|
                0 <= j < i ==> #[trigger] elems[j] == JsonData::Str(error_messages@[j]@),
        decreases n - i,
    {
        match json_as_str(&arr[i]) {
            Some(s) => {
                error_messages.push(s);
            },
            None => {
                proof {
                    assert(crate::json::value_data(arr@[i as int]) == elems[i as int]);
                    assert(!(elems[i as int] is Str));
                }
                return Err(Error::Serde(String::from_str("errorMessages holds a non-string")));
            },
        }
        i = i + 1;
    }
    let members_value = match json_get(&v, "errors") {
        Some(w) => w,
        None => {
            return Err(Error::Serde(String::from_str("error collection lacks errors")));
        },
    };
    let errors = match json_string_members(members_value) {
        Some(entries) => entries,
        None => {
            return Err(Error::Serde(String::from_str("errors is not an object of strings")));
        },
    };
    Ok(Errors { error_messages, errors })
}

/// The elements of an array document; arbitrary for any other document.
spec fn value_data_arr_elems(v: serde_json::Value) -> Seq<JsonData> {
    choose|elems: Seq<JsonData>| crate::json::value_data(v) == JsonData::Arr(elems)
}

/// What a 4xx response other than 401 must come back as: its decoded error
/// collection under the same status code, or a fatal decode failure where
/// the body does not hold one.
pub open spec fn spec_fault(status: u16, body: Seq<char>, e: Error) -> bool {
    match e {
        Error::Fault { code, errors } => code == status && (json_parsed(body) matches Some(d)
            && errors_shape_ok(d) && is_errors_of(errors, d)),
        Error::Serde(_) => !errors_decodable(body),
        _ => false,
    }
}

/// What the classification of one response must return: 401 is
/// `Unauthorized` with the body unread; any other 4xx decodes its body as an
/// error collection, where a decode failure is itself fatal; every other
/// status hands the body on unchanged for the typed decode.
pub open spec fn spec_classified(status: u16, body: Seq<char>, r: Result<String, Error>) -> bool {
    if status == 401 {
        r matches Err(e) && e is Unauthorized
    } else if 400 <= status && status < 500 {
        r matches Err(e) && spec_fault(status, body, e)
    } else {
        r matches Ok(b) && b@ == body
    }
}

/// Classifies one raw response by status code. `Ok` carries the body onward
/// for the typed decode; every error is final.
pub fn classify_response(status: u16, body: String) -> (r: Result<String, Error>)
    ensures
        spec_classified(status, body@, r),
{
    if status == 401 {
        Err(Error::Unauthorized)
    } else if 400 <= status && status < 500 {
        match decode_errors(body.as_str()) {
            Ok(errors) => Err(Error::Fault { code: status, errors }),
            Err(e) => Err(e),
        }
    } else {
        Ok(body)
    }
}

/// Decodes a success body whose expected payload is empty: only the JSON
/// document `null` passes; anything else is a decode failure.
pub fn decode_unit(body: &str) -> (r: Result<(), Error>)
    ensures
        r is Ok <==> json_parsed(body@) == Some(JsonData::Null),
        r matches Err(e) ==> e is Serde,
{
    match parse_json(body) {
        Some(v) => {
            if json_is_null(&v) {
                Ok(())
            } else {
                Err(Error::Serde(String::from_str("expected an empty payload")))
            }
        },
        None => Err(Error::Serde(String::from_str("expected an empty payload"))),
    }
}

/// The scoped remap for operations whose successful response carries no
/// body: a decode failure counts as success, every other outcome passes
/// through unchanged.
pub fn unit_result(c: Result<String, Error>) -> (r: Result<(), Error>)
    ensures
        match c {
            Err(e) => !(e is Serde) ==> (r matches Err(e2) && e2 == e),
            Ok(_) => true,
        },
        c is Ok || (c matches Err(e) && e is Serde) ==> r is Ok,
{
    match c {
        Ok(body) => {
            match decode_unit(body.as_str()) {
                Ok(u) => Ok(u),
                Err(Error::Serde(_)) => Ok(()),
                Err(e) => Err(e),
            }
        },
        Err(Error::Serde(_)) => Ok(()),
        Err(e) => Err(e),
    }
}

/// What the whole pipeline returns for one response on an operation whose
/// successful response carries no body: authorization and semantic
/// rejections surface unchanged, and everything else — any success body,
/// or a malformed 4xx body — is success.
pub open spec fn spec_unit_outcome(status: u16, body: Seq<char>, r: Result<(), Error>) -> bool {
    if status == 401 {
        r matches Err(e) && e is Unauthorized
    } else if 400 <= status && status < 500 {
        if errors_decodable(body) {
            r matches Err(e) && spec_fault(status, body, e)
        } else {
            r is Ok
        }
    } else {
        r is Ok
    }
}

/// Classifies one response for an operation whose successful response
/// carries no body, applying the scoped remap of `unit_result`.
pub fn process_unit(status: u16, body: String) -> (r: Result<(), Error>)
    ensures
        spec_unit_outcome(status, body@, r),
{
    let ghost txt = body@;
    let c = classify_response(status, body);
    proof {
        assert(spec_classified(status, txt, c));
    }
    unit_result(c)
}

} // verus!
