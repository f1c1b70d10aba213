//! Checking the broker's answer to a ping: a JSON object whose "type" field
//! is the string "Pong".

use crate::text::str_equals;
use vstd::prelude::*;

verus! {

#[verifier::external_type_specification]
#[verifier::external_body]
pub struct ExJsonValue(serde_json::Value);

#[verifier::external_type_specification]
#[verifier::external_body]
pub struct ExJsonError(serde_json::Error);

/// The JSON value that `serde_json::from_slice` reads from `data`, or `None`
/// where it fails.
pub uninterp spec fn json_parsed(data: Seq<u8>) -> Option<serde_json::Value>;

/// The field named `key` that `serde_json::Value::get` finds in a JSON value.
pub uninterp spec fn json_field_of(v: serde_json::Value, key: Seq<char>) -> Option<serde_json::Value>;

/// The text that `serde_json::Value::as_str` finds in a JSON value.
pub uninterp spec fn json_text_of(v: serde_json::Value) -> Option<Seq<char>>;

/// Calls `serde_json::from_slice` for a `serde_json::Value`. Claimed: the
/// value it reads, or its failing, is a function of the bytes alone, named
/// `json_parsed`; nothing is stated of which error it gives.
#[verifier::external_body]
fn parse_json(data: &[u8]) -> (r: Result<serde_json::Value, serde_json::Error>)
    ensures
        match r {
            Ok(v) => json_parsed(data@) == Some(v),
            Err(_) => json_parsed(data@) is None,
        },
{
    serde_json::from_slice::<serde_json::Value>(data)
}

/// Calls `serde_json::Value::get` with a string key: the field of that name of
/// a JSON object. Claimed: the field it finds, or its finding none, is a
/// function of the value and the key alone, named `json_field_of`.
#[verifier::external_body]
fn json_field<'a>(v: &'a serde_json::Value, key: &str) -> (r: Option<&'a serde_json::Value>)
    ensures
        match r {
            Some(f) => json_field_of(*v, key@) == Some(*f),
            None => json_field_of(*v, key@) is None,
        },
{
    v.get(key)
}

/// Calls `serde_json::Value::as_str`: the text of a JSON string. Claimed: the
/// text it gives, or its giving none, is a function of the value alone, named
/// `json_text_of`.
#[verifier::external_body]
fn json_text(v: &serde_json::Value) -> (r: Option<&str>)
    ensures
        match r {
            Some(s) => json_text_of(*v) == Some(s@),
            None => json_text_of(*v) is None,
        },
{
    v.as_str()
}

/// The text of the "type" field of the JSON object that `data` holds, if
/// `data` is JSON, that field exists and it is a string.
pub open spec fn reply_type(data: Seq<u8>) -> Option<Seq<char>> {
    match json_parsed(data) {
        Some(v) => match json_field_of(v, "type"@) {
            Some(t) => json_text_of(t),
            None => None,
        },
        None => None,
    }
}

/// Whether the text found in a reply's "type" field is "Pong".
pub fn is_pong_tag(tag: Option<&str>) -> (r: bool)
    ensures
        r == match tag {
            Some(t) => t@ == "Pong"@,
            None => false,
        },
{
    match tag {
        Some(t) => str_equals(t, "Pong"),
        None => false,
    }
}

/// Whether the payload of a reply frame is a JSON object whose "type" field is
/// the string "Pong".
pub fn is_pong_reply(data: &[u8]) -> (r: bool)
    ensures
        r == (reply_type(data@) == Some("Pong"@)),
        json_parsed(data@) is None ==> !r,
        json_parsed(data@) matches Some(v) ==> (r == (json_field_of(v, "type"@) is Some
            && json_text_of(json_field_of(v, "type"@)->0) == Some("Pong"@))),
{
    proof {
        law_pong_reads_type_only(data@);
    }
    match parse_json(data) {
        Ok(v) => match json_field(&v, "type") {
            Some(t) => is_pong_tag(json_text(t)),
            None => false,
        },
        Err(_) => false,
    }
}


/// A reply is a pong exactly when it parses as JSON and the "type" field of
/// what it parses to is the string "Pong"; no other field changes the answer.
pub proof fn law_pong_reads_type_only(data: Seq<u8>)
    ensures
        json_parsed(data) is None ==> reply_type(data) != Some("Pong"@),
        json_parsed(data) matches Some(v) ==> ((reply_type(data) == Some("Pong"@)) == (
        json_field_of(v, "type"@) is Some && json_text_of(json_field_of(v, "type"@)->0) == Some(
            "Pong"@,
        ))),
{
}

/// Two replies whose "type" fields give the same text are both pongs or both
/// not, whatever else they hold.
pub proof fn law_pong_same_type_same_answer(d1: Seq<u8>, d2: Seq<u8>)
    requires
        json_parsed(d1) matches Some(v1) && json_parsed(d2) matches Some(v2) && json_field_of(
            v1,
            "type"@,
        ) matches Some(t1) && json_field_of(v2, "type"@) matches Some(t2) && json_text_of(t1)
            == json_text_of(t2),
    ensures
        (reply_type(d1) == Some("Pong"@)) == (reply_type(d2) == Some("Pong"@)),
{
}

} // verus!
