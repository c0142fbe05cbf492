//! The compute side of fetching: the endpoint URL, the mapping from HTTP
//! status codes to outcomes, and the decoding of a response body into
//! event records.
//!
//! The structural reading of the body goes through serde_json behind
//! trusted wrappers. What each call returns is a function of its argument
//! alone, so each outside result carries a name (`json_array_of`,
//! `json_field_of`, ...), and the decode contracts are exact over those
//! names: the decode succeeds exactly when every array element carries a
//! known kind, a repository name and a payload object, and then yields
//! the decoded records, complete and in input order.

use vstd::prelude::*;
use vstd::string::{StrSliceExecFns, StringExecFns};
use crate::errors::AppError;
use crate::models::{spec_kind_of, EventData, Payload, PayloadEntry, PayloadValue};

verus! {

#[verifier::external_type_specification]
#[verifier::external_body]
pub struct ExJsonValue(serde_json::Value);

/// The JSON values a body parses to when it is a valid JSON array.
pub uninterp spec fn json_array_of(body: Seq<char>) -> Option<Seq<serde_json::Value>>;

/// The value under a key of a JSON object, if the value is an object
/// holding the key.
pub uninterp spec fn json_field_of(v: serde_json::Value, key: Seq<char>) -> Option<
    serde_json::Value,
>;

/// The characters a JSON string holds, if the value is a string.
pub uninterp spec fn json_str_of(v: serde_json::Value) -> Option<Seq<char>>;

/// The value of a JSON integer that fits in an i64, if the value is one.
pub uninterp spec fn json_i64_of(v: serde_json::Value) -> Option<i64>;

/// The key-value pairs a JSON object holds, in the order they are handed
/// out, if the value is an object.
pub uninterp spec fn json_entries_of(v: serde_json::Value) -> Option<
    Seq<(Seq<char>, serde_json::Value)>,
>;

/// Relies on serde_json::from_str: parses the body text as a JSON array —
/// a function of the text alone, named `json_array_of` — or reports the
/// parse failure's description.
#[verifier::external_body]
fn parse_value_array(body: &str) -> (r: Result<Vec<serde_json::Value>, String>)
    ensures
        r is Ok <==> json_array_of(body@) is Some,
        r matches Ok(vs) ==> vs@ == json_array_of(body@).unwrap(),
        r matches Ok(vs) ==> (body@ == "[]"@ ==> vs@.len() == 0),
        r is Err ==> body@ != "[]"@,
{
    serde_json::from_str::<Vec<serde_json::Value>>(body).map_err(|e| e.to_string())
}

/// Relies on serde_json::Value::get: the value under a key of a JSON
/// object, named `json_field_of`; None when the value is no object or
/// lacks the key.
#[verifier::external_body]
fn json_get<'a>(v: &'a serde_json::Value, key: &str) -> (r: Option<&'a serde_json::Value>)
    ensures
        r is Some <==> json_field_of(*v, key@) is Some,
        r matches Some(x) ==> json_field_of(*v, key@) == Some(*x),
{
    v.get(key)
}

/// Relies on serde_json::Value::as_str: the string a JSON string holds,
/// named `json_str_of`; None for any other kind of value.
#[verifier::external_body]
fn json_as_str<'a>(v: &'a serde_json::Value) -> (r: Option<&'a str>)
    ensures
        r is Some <==> json_str_of(*v) is Some,
        r matches Some(s) ==> json_str_of(*v) == Some(s@),
{
    v.as_str()
}

/// Relies on serde_json::Value::as_i64: the value of a JSON integer that
/// fits in an i64, named `json_i64_of`; None for any other kind of value.
#[verifier::external_body]
fn json_as_i64(v: &serde_json::Value) -> (r: Option<i64>)
    ensures
        r == json_i64_of(*v),
{
    v.as_i64()
}

/// Relies on serde_json::Value::as_object: the key-value pairs of a JSON
/// object, named `json_entries_of` and cloned out in the map's own key
/// order; None for any other kind of value.
#[verifier::external_body]
fn json_object_entries(v: &serde_json::Value) -> (r: Option<Vec<(String, serde_json::Value)>>)
    ensures
        r is Some <==> json_entries_of(*v) is Some,
        r matches Some(ps) ==> ({
            let es = json_entries_of(*v).unwrap();
            ps@.len() == es.len() && forall|i: int|
                0 <= i < es.len() ==> ps@[i].0@ == es[i].0 && ps@[i].1 == es[i].1
        }),
{
    v.as_object().map(|m| m.iter().map(|(k, val)| (k.clone(), val.clone())).collect())
}

/// Whether `pv` is the plain payload value read from the JSON value `v`:
/// its integer when it is one, else its string, else `Other`.
pub open spec fn payload_value_matches(pv: PayloadValue, v: serde_json::Value) -> bool {
    match json_i64_of(v) {
        Some(n) => pv == PayloadValue::Int(n),
        None => match json_str_of(v) {
            Some(s) => pv matches PayloadValue::Text(t) && t@ == s,
            None => pv is Other,
        },
    }
}

/// Whether `p` holds exactly the entries of the JSON object `v`, key for
/// key and value for value, in the order they are handed out.
pub open spec fn payload_matches(p: Payload, v: serde_json::Value) -> bool {
    match json_entries_of(v) {
        Some(es) => p.entries@.len() == es.len() && (forall|i: int|
            0 <= i < es.len() ==> p.entries@[i].key@ == es[i].0 && payload_value_matches(
                p.entries@[i].value,
                es[i].1,
            )),
        None => false,
    }
}

/// The kind string of one array element: the string under its "type" key.
pub open spec fn elem_kind_name(v: serde_json::Value) -> Option<Seq<char>> {
    match json_field_of(v, "type"@) {
        Some(t) => json_str_of(t),
        None => None,
    }
}

/// The repository name of one array element: the string under "repo"."name".
pub open spec fn elem_repo_name(v: serde_json::Value) -> Option<Seq<char>> {
    match json_field_of(v, "repo"@) {
        Some(rv) => match json_field_of(rv, "name"@) {
            Some(nv) => json_str_of(nv),
            None => None,
        },
        None => None,
    }
}

/// Whether one array element decodes: a "type" string naming a kind of
/// the closed enumeration, a "repo"."name" string, and a "payload" object.
pub open spec fn elem_decodes(v: serde_json::Value) -> bool {
    &&& elem_kind_name(v) matches Some(kn) && spec_kind_of(kn) is Some
    &&& elem_repo_name(v) is Some
    &&& json_field_of(v, "payload"@) matches Some(pv) && json_entries_of(pv) is Some
}

/// Whether `e` is the record decoded from the array element `v`.
pub open spec fn record_matches(e: EventData, v: serde_json::Value) -> bool {
    &&& elem_decodes(v)
    &&& e.kind == spec_kind_of(elem_kind_name(v).unwrap()).unwrap()
    &&& e.repository_name@ == elem_repo_name(v).unwrap()
    &&& payload_matches(e.payload, json_field_of(v, "payload"@).unwrap())
}

/// Converts a JSON object into the payload mapping, keeping each value as
/// the plain value the renderer reads: an integer, a string, or `Other`.
/// Any object converts; only a non-object is rejected.
fn payload_from_value(v: &serde_json::Value) -> (r: Option<Payload>)
    ensures
        r is Some <==> json_entries_of(*v) is Some,
        r matches Some(p) ==> payload_matches(p, *v),
{
    match json_object_entries(v) {
        None => None,
        Some(pairs) => {
            let ghost es = json_entries_of(*v).unwrap();
            let mut entries: Vec<PayloadEntry> = Vec::new();
            let mut i: usize = 0;
            while i < pairs.len()
                invariant
                    i <= pairs@.len(),
                    entries@.len() == i,
                    json_entries_of(*v) == Some(es),
                    pairs@.len() == es.len(),
                    forall|j: int|
                        0 <= j < es.len() ==> pairs@[j].0@ == es[j].0 && pairs@[j].1 == es[j].1,
                    forall|j: int|
                        0 <= j < i ==> entries@[j].key@ == es[j].0 && payload_value_matches(
                            entries@[j].value,
                            es[j].1,
                        ),
                decreases pairs@.len() - i,
            {
                let key = pairs[i].0.clone();
                let value = match json_as_i64(&pairs[i].1) {
                    Some(n) => PayloadValue::Int(n),
                    None => match json_as_str(&pairs[i].1) {
                        Some(s) => PayloadValue::Text(s.to_owned()),
                        None => PayloadValue::Other,
                    },
                };
                proof {
                    assert(payload_value_matches(value, es[i as int].1));
                }
                entries.push(PayloadEntry { key, value });
                i = i + 1;
            }
            Some(Payload { entries })
        },
    }
}

/// Decodes one array element into an event record: it must carry a string
/// under "type" naming a known kind, a string under "repo"."name", and an
/// object under "payload".
fn decode_element(v: &serde_json::Value) -> (r: Result<EventData, String>)
    ensures
        elem_decodes(*v) ==> (r matches Ok(e) && record_matches(e, *v)),
        !elem_decodes(*v) ==> r is Err,
{
    let kind_name = match json_get(v, "type") {
        Some(tv) => match json_as_str(tv) {
            Some(s) => s,
            None => {
                return Err(String::from_str("invalid field `type`: expected a string"));
            },
        },
        None => {
            return Err(String::from_str("missing field `type`"));
        },
    };
    let repository_name = match json_get(v, "repo") {
        Some(rv) => match json_get(rv, "name") {
            Some(nv) => match json_as_str(nv) {
                Some(s) => s.to_owned(),
                None => {
                    return Err(String::from_str("invalid field `repo.name`: expected a string"));
                },
            },
            None => {
                return Err(String::from_str("missing field `repo.name`"));
            },
        },
        None => {
            return Err(String::from_str("missing field `repo`"));
        },
    };
    let payload = match json_get(v, "payload") {
        Some(pv) => match payload_from_value(pv) {
            Some(p) => p,
            None => {
                return Err(String::from_str("invalid field `payload`: expected an object"));
            },
        },
        None => {
            return Err(String::from_str("missing field `payload`"));
        },
    };
    EventData::from_parts(kind_name, repository_name, payload)
}

/// Whether every element of a parsed array decodes.
pub open spec fn all_elems_decode(elems: Seq<serde_json::Value>) -> bool {
    forall|i: int| 0 <= i < elems.len() ==> elem_decodes(elems[i])
}

/// Whether `evs` holds exactly the records decoded from `elems`, complete
/// and in input order.
pub open spec fn records_match(evs: Seq<EventData>, elems: Seq<serde_json::Value>) -> bool {
    evs.len() == elems.len() && (forall|i: int|
        0 <= i < elems.len() ==> record_matches(evs[i], elems[i]))
}

/// Decodes a response body into the ordered sequence of event records.
/// A body that is no JSON array fails; a body that is one succeeds exactly
/// when every element decodes, and then yields the decoded records,
/// complete and in input order. Any failure is a decode error, and no
/// records are produced at all.
pub fn decode_events(body: &str) -> (r: Result<Vec<EventData>, AppError>)
    ensures
        json_array_of(body@) is None ==> r is Err,
        (json_array_of(body@) matches Some(elems) && all_elems_decode(elems)) ==> r is Ok,
        r is Ok ==> json_array_of(body@) is Some && all_elems_decode(
            json_array_of(body@).unwrap(),
        ),
        r matches Ok(evs) ==> records_match(evs@, json_array_of(body@).unwrap()),
        body@ == "[]"@ ==> (r matches Ok(evs) && evs@.len() == 0),
        r matches Err(e) ==> e matches AppError::DecodeError(_),
{
    match parse_value_array(body) {
        Err(msg) => Err(AppError::DecodeError(msg)),
        Ok(values) => {
            let ghost elems = json_array_of(body@).unwrap();
            let mut out: Vec<EventData> = Vec::new();
            let mut i: usize = 0;
            while i < values.len()
                invariant
                    i <= values@.len(),
                    out@.len() == i,
                    json_array_of(body@) == Some(elems),
                    values@ == elems,
                    body@ == "[]"@ ==> elems.len() == 0,
                    forall|j: int| 0 <= j < i ==> record_matches(out@[j], elems[j]),
                decreases values@.len() - i,
            {
                match decode_element(&values[i]) {
                    Ok(e) => out.push(e),
                    Err(msg) => {
                        proof {
                            assert(!elem_decodes(elems[i as int]));
                        }
                        return Err(AppError::DecodeError(msg));
                    },
                }
                i = i + 1;
            }
            proof {
                assert forall|j: int| 0 <= j < elems.len() implies elem_decodes(elems[j]) by {
                    assert(record_matches(out@[j], elems[j]));
                }
            }
            Ok(out)
        },
    }
}

/// The activity-events endpoint for one username.
pub open spec fn spec_endpoint(username: Seq<char>) -> Seq<char> {
    "https://api.github.com/users/"@ + username + "/events"@
}

/// Builds the request URL for a username.
pub fn endpoint_for(username: &str) -> (r: String)
    ensures
        r@ == spec_endpoint(username@),
{
    let mut s = String::from_str("https://api.github.com/users/");
    s.append(username);
    s.append("/events");
    proof {
        assert(s@ =~= spec_endpoint(username@));
    }
    s
}

/// Maps a response status code to its outcome: 200 proceeds, 404 means
/// the user does not exist, and any other status is unexpected and keeps
/// its literal code.
pub fn check_status(code: u16) -> (r: Result<(), AppError>)
    ensures
        code == 200 ==> r is Ok,
        code == 404 ==> (r matches Err(e) && e == AppError::UserNotFound),
        code != 200 && code != 404 ==> (r matches Err(e) && e matches AppError::UnexpectedStatus(c)
            && c == code),
{
    if code == 200 {
        Ok(())
    } else if code == 404 {
        Err(AppError::UserNotFound)
    } else {
        Err(AppError::UnexpectedStatus(code))
    }
}

} // verus!
