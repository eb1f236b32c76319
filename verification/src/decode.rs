//! Turning one notification of the bridge into a reading.
//!
//! The bytes are UTF-8 text; with trailing white space removed the text is one
//! JSON object. Three of its members are read: `SOC`, the state of charge, must
//! be a number; `SOC_D`, a refined state of charge, and `OUTDOOR_TEMPERATURE`
//! may each be missing or null. Every other member is ignored.
//!
//! The text is parsed as a whole into a `serde_json::Value` before any member
//! is looked at, and two things follow from that:
//!
//! - A key that occurs more than once is accepted, one of the three read ones
//!   too, and counts with the value of its last occurrence.
//! - A member that is never read must still be well-formed JSON that the
//!   parser can hold: a number beyond the range of a double, wherever it
//!   stands, has the whole document refused with `DecodeError`.
//!
//! A number is carried as the bits of the double that
//! `serde_json::Number::as_f64` gives for it. The parser is not asked for
//! correctly rounded floats, so for a long decimal that double may differ from
//! the nearest one in its last place.

use vstd::prelude::*;
use vstd::utf8::{decode_utf8, valid_utf8};
use crate::model::{BatteryData, EngineError};

verus! {

/// What the decoder needs to know of one member of a JSON object.
#[derive(Debug, Clone, Copy, PartialEq, Eq, Structural)]
pub enum Member {
    /// The JSON value `null`.
    Null,
    /// A JSON number, as the bits of the double that
    /// `serde_json::Number::as_f64` gives for it.
    Number(u64),
    /// A string, a boolean, an array or an object.
    Other,
}

#[verifier::external_type_specification]
#[verifier::external_body]
pub struct ExJsonValue(serde_json::Value);

#[verifier::external_type_specification]
#[verifier::external_body]
pub struct ExJsonError(serde_json::Error);

/// The members of the document that `serde_json::from_str` reads from a text,
/// `None` where it rejects the text.
pub uninterp spec fn json_document(text: Seq<char>) -> Option<Map<Seq<char>, Member>>;

/// The members of a parsed document, by key. A document that is no object has none.
pub uninterp spec fn json_members(doc: serde_json::Value) -> Map<Seq<char>, Member>;

/// The code points with the Unicode property `White_Space`.
pub open spec fn is_white_space(c: char) -> bool {
    let u = c as u32;
    ||| 0x09 <= u <= 0x0d
    ||| u == 0x20
    ||| u == 0x85
    ||| u == 0xa0
    ||| u == 0x1680
    ||| 0x2000 <= u <= 0x200a
    ||| u == 0x2028
    ||| u == 0x2029
    ||| u == 0x202f
    ||| u == 0x205f
    ||| u == 0x3000
}

/// A text without its trailing white space.
pub open spec fn trimmed_end(text: Seq<char>) -> Seq<char>
    decreases text.len(),
{
    if text.len() > 0 && is_white_space(text.last()) {
        trimmed_end(text.drop_last())
    } else {
        text
    }
}

/// The member stored under a key, if there is one.
pub open spec fn lookup(members: Map<Seq<char>, Member>, key: Seq<char>) -> Option<Member> {
    if members.dom().contains(key) {
        Some(members[key])
    } else {
        None
    }
}

/// An optional number: missing and null both mean none, anything but a number is refused.
pub open spec fn optional_number(member: Option<Member>) -> Result<Option<u64>, EngineError> {
    match member {
        None => Ok(None),
        Some(Member::Null) => Ok(None),
        Some(Member::Number(bits)) => Ok(Some(bits)),
        Some(Member::Other) => Err(EngineError::DecodeError),
    }
}

/// The reading that three members and the configured capacity give.
///
/// The percentage is the refined state of charge where the bridge sent one and
/// the raw one otherwise; the temperature passes through; the capacity is the
/// configured one; nothing else is filled in.
pub open spec fn reading_of(
    soc: Option<Member>,
    soc_d: Option<Member>,
    outdoor_temperature: Option<Member>,
    capacity: u32,
) -> Result<BatteryData, EngineError> {
    match (soc, optional_number(soc_d), optional_number(outdoor_temperature)) {
        (Some(Member::Number(raw)), Ok(derived), Ok(temperature)) => Ok(
            BatteryData {
                battery_level_percentage: Some(
                    match derived {
                        Some(d) => d,
                        None => raw,
                    },
                ),
                battery_level_wh: None,
                reference_air_density: None,
                external_temp_celsius: temperature,
                battery_capacity_wh: Some(capacity),
            },
        ),
        _ => Err(EngineError::DecodeError),
    }
}

/// The reading that a notification's bytes and the configured capacity give.
pub open spec fn decoded(bytes: Seq<u8>, capacity: u32) -> Result<BatteryData, EngineError> {
    if !valid_utf8(bytes) {
        Err(EngineError::DecodeError)
    } else {
        match json_document(trimmed_end(decode_utf8(bytes))) {
            None => Err(EngineError::DecodeError),
            Some(members) => reading_of(
                lookup(members, "SOC"@),
                lookup(members, "SOC_D"@),
                lookup(members, "OUTDOOR_TEMPERATURE"@),
                capacity,
            ),
        }
    }
}

/// `core::str::from_utf8`: the text that the bytes encode, `None` where they
/// are not well-formed UTF-8.
#[verifier::external_body]
fn text_from_utf8(bytes: &Vec<u8>) -> (text: Option<&str>)
    ensures
        text is Some <==> valid_utf8(bytes@),
        text is Some ==> text->0@ == decode_utf8(bytes@),
{
    core::str::from_utf8(bytes.as_slice()).ok()
}

/// `str::trim_end`: the text up to and including its last character that is not
/// white space.
#[verifier::external_body]
fn trim_end(text: &str) -> (trimmed: &str)
    ensures
        trimmed@ == trimmed_end(text@),
{
    text.trim_end()
}

/// `serde_json::from_str` at the type `serde_json::Value`: whether it accepts
/// a text, and which members the value it returns then holds, depends on the
/// text alone and is what `json_document` names.
#[verifier::external_body]
fn parse_json(text: &str) -> (parsed: Result<serde_json::Value, serde_json::Error>)
    ensures
        match parsed {
            Ok(doc) => json_document(text@) == Some(json_members(doc)),
            Err(_) => json_document(text@) is None,
        },
{
    serde_json::from_str::<serde_json::Value>(text)
}

/// `serde_json::Value::get` with a string key, and `serde_json::Number::as_f64`
/// on a number found there, handed on as its bits: the member under the key,
/// `None` where the document is no object or has no such key.
#[verifier::external_body]
fn member(doc: &serde_json::Value, key: &str) -> (found: Option<Member>)
    ensures
        found == lookup(json_members(*doc), key@),
{
    Some(
        match doc.get(key)? {
            serde_json::Value::Null => Member::Null,
            serde_json::Value::Number(number) => match number.as_f64() {
                Some(x) => Member::Number(x.to_bits()),
                None => Member::Other,
            },
            _ => Member::Other,
        },
    )
}

/// Builds the reading from the three members that the bridge's answer may hold.
///
/// Fails with `DecodeError` unless `soc` is a number and each of the other two
/// is a number, null or missing.
pub fn reading_from_members(
    soc: Option<Member>,
    soc_d: Option<Member>,
    outdoor_temperature: Option<Member>,
    capacity: u32,
) -> (r: Result<BatteryData, EngineError>)
    ensures
        r == reading_of(soc, soc_d, outdoor_temperature, capacity),
        r is Ok <==> (soc matches Some(Member::Number(_))) && soc_d != Some(Member::Other)
            && outdoor_temperature != Some(Member::Other),
        r is Err ==> r == Err::<BatteryData, EngineError>(EngineError::DecodeError),
        r matches Ok(reading) ==> {
            &&& reading.battery_level_percentage == (match soc_d {
                Some(Member::Number(refined)) => Some(refined),
                _ => Some(soc->0->Number_0),
            })
            &&& reading.external_temp_celsius == (match outdoor_temperature {
                Some(Member::Number(temperature)) => Some(temperature),
                _ => None,
            })
            &&& reading.battery_capacity_wh == Some(capacity)
            &&& reading.battery_level_wh is None
            &&& reading.reference_air_density is None
        },
{
    let raw: u64 = match soc {
        Some(Member::Number(bits)) => bits,
        _ => { return Err(EngineError::DecodeError); },
    };
    let derived: Option<u64> = match soc_d {
        None | Some(Member::Null) => None,
        Some(Member::Number(bits)) => Some(bits),
        Some(Member::Other) => { return Err(EngineError::DecodeError); },
    };
    let temperature: Option<u64> = match outdoor_temperature {
        None | Some(Member::Null) => None,
        Some(Member::Number(bits)) => Some(bits),
        Some(Member::Other) => { return Err(EngineError::DecodeError); },
    };
    let percentage: u64 = match derived {
        Some(d) => d,
        None => raw,
    };
    Ok(
        BatteryData {
            battery_level_percentage: Some(percentage),
            battery_level_wh: None,
            reference_air_density: None,
            external_temp_celsius: temperature,
            battery_capacity_wh: Some(capacity),
        },
    )
}

/// Decodes one notification into a reading.
///
/// Fails with `DecodeError`, and with nothing else, where the bytes are not
/// UTF-8, the trimmed text is no JSON document, or the members are not as
/// `reading_from_members` wants them.
pub fn decode_response(bytes: &Vec<u8>, capacity: u32) -> (r: Result<BatteryData, EngineError>)
    ensures
        r == decoded(bytes@, capacity),
        !valid_utf8(bytes@) ==> r == Err::<BatteryData, EngineError>(EngineError::DecodeError),
        valid_utf8(bytes@) && json_document(trimmed_end(decode_utf8(bytes@))) is None ==> r == Err::<
            BatteryData,
            EngineError,
        >(EngineError::DecodeError),
        r is Err ==> r == Err::<BatteryData, EngineError>(EngineError::DecodeError),
        r matches Ok(reading) ==> reading.battery_capacity_wh == Some(capacity),
{
    let text = match text_from_utf8(bytes) {
        Some(text) => text,
        None => { return Err(EngineError::DecodeError); },
    };
    let trimmed = trim_end(text);
    let doc = match parse_json(trimmed) {
        Ok(doc) => doc,
        Err(_) => { return Err(EngineError::DecodeError); },
    };
    let soc = member(&doc, "SOC");
    let soc_d = member(&doc, "SOC_D");
    let outdoor_temperature = member(&doc, "OUTDOOR_TEMPERATURE");
    reading_from_members(soc, soc_d, outdoor_temperature, capacity)
}

} // verus!
