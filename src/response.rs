//! Reading the pairing service's answer: a JSON object with a boolean
//! `success` and, on failure, a `message`.
use vstd::prelude::*;

verus! {

#[verifier::external_type_specification]
#[verifier::external_body]
pub struct ExJsonValue(serde_json::Value);

#[verifier::external_type_specification]
#[verifier::external_body]
pub struct ExJsonError(serde_json::Error);

/// Whether serde_json reads `text` as one JSON document: well-formed JSON
/// with nothing after it, nested no deeper than serde_json allows, and with
/// numbers in the range that it accepts.
pub uninterp spec fn parses_as_json(text: Seq<char>) -> bool;

/// The boolean that serde_json finds in the member `key` of the JSON text
/// `text`, if the text parses, is an object, has that member and it is a
/// boolean.
pub uninterp spec fn bool_member_of(text: Seq<char>, key: Seq<char>) -> Option<bool>;

/// The string that serde_json finds in the member `key` of the JSON text
/// `text`, if the text parses, is an object, has that member and it is a
/// string.
pub uninterp spec fn str_member_of(text: Seq<char>, key: Seq<char>) -> Option<Seq<char>>;

/// Relies on serde_json::from_str into a `Value`: whether it succeeds depends
/// on the text alone.
#[verifier::external_body]
fn parse_json(text: &str) -> (r: Result<serde_json::Value, serde_json::Error>)
    ensures
        r is Ok == parses_as_json(text@),
{
    serde_json::from_str(text)
}

/// Relies on serde_json::from_str into a `Value`, then Value::get and
/// Value::as_bool: the boolean member `key` of the JSON text, which depends on
/// the text and the key alone.
#[verifier::external_body]
fn bool_member(text: &str, key: &str) -> (r: Option<bool>)
    ensures
        r == bool_member_of(text@, key@),
{
    match serde_json::from_str::<serde_json::Value>(text) {
        Ok(v) => match v.get(key) {
            Some(m) => m.as_bool(),
            None => None,
        },
        Err(_) => None,
    }
}

/// Relies on serde_json::from_str into a `Value`, then Value::get and
/// Value::as_str: the string member `key` of the JSON text, which depends on
/// the text and the key alone.
#[verifier::external_body]
fn str_member(text: &str, key: &str) -> (r: Option<String>)
    ensures
        r matches Some(m) ==> str_member_of(text@, key@) == Some(m@),
        r is None ==> str_member_of(text@, key@) is None,
{
    match serde_json::from_str::<serde_json::Value>(text) {
        Ok(v) => match v.get(key) {
            Some(m) => m.as_str().map(|t| t.to_string()),
            None => None,
        },
        Err(_) => None,
    }
}

/// What the pairing service said of an uploaded record.
#[derive(Clone, Debug)]
pub enum UploadVerdict {
    /// The service accepted the record.
    Paired,
    /// The service refused the record, with its message (empty when it gave none).
    Rejected(String),
    /// The answer was not JSON.
    Unreadable,
}

/// The verdict for an answer that was (`parsed`) or was not JSON, whose
/// `success` member held the boolean `success`, if any, and whose `message`
/// member held the text `message`, if any. Only `success: true` accepts.
pub fn verdict_of(parsed: bool, success: Option<bool>, message: Option<String>) -> (r: UploadVerdict)
    ensures
        !parsed ==> r is Unreadable,
        parsed && success == Some(true) ==> r is Paired,
        parsed && success != Some(true) ==> r is Rejected && r->Rejected_0@ == match message {
            Some(m) => m@,
            None => Seq::<char>::empty(),
        },
{
    if !parsed {
        UploadVerdict::Unreadable
    } else if success == Some(true) {
        UploadVerdict::Paired
    } else {
        match message {
            Some(m) => UploadVerdict::Rejected(m),
            None => UploadVerdict::Rejected(String::new()),
        }
    }
}

/// The message of a refusal: the `message` member, or empty text.
pub open spec fn refusal_message(text: Seq<char>) -> Seq<char> {
    match str_member_of(text, "message"@) {
        Some(m) => m,
        None => Seq::<char>::empty(),
    }
}

/// Reads the service's answer `text`. It is unreadable exactly when it is not
/// JSON; otherwise it accepts exactly when its `success` member is `true`, and
/// a refusal carries the `message` member, or empty text when there is none.
pub fn interpret_response(text: &str) -> (r: UploadVerdict)
    ensures
        r is Unreadable <==> !parses_as_json(text@),
        parses_as_json(text@) && bool_member_of(text@, "success"@) == Some(true) ==> r is Paired,
        parses_as_json(text@) && bool_member_of(text@, "success"@) != Some(true) ==> r is Rejected
            && r->Rejected_0@ == refusal_message(text@),
{
    let parsed = parse_json(text).is_ok();
    let success = bool_member(text, "success");
    let message = str_member(text, "message");
    verdict_of(parsed, success, message)
}

} // verus!
