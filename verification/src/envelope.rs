//! The envelope in which the remote service answers.
//!
//! Every answer about the table is an object with a status code, a message
//! and, where the call went well, the data.

use vstd::prelude::*;
use vstd::string::StringExecFns;
use crate::error::{ErrorView, FeishuSyncError};
use crate::json::{JsonValue, JsonView};

verus! {

/// An answer of the remote service, around data of some kind.
#[derive(Debug, PartialEq, Eq)]
pub struct FeishuApiResponse<T> {
    /// Zero where the call went well.
    pub code: i32,
    pub msg: String,
    pub data: Option<T>,
}

/// The content of an envelope whose data is still a document.
pub struct EnvelopeView {
    pub code: i32,
    pub msg: Seq<char>,
    pub data: Option<JsonView>,
}

/// The content of an envelope that was read from a document.
pub open spec fn envelope_view(envelope: FeishuApiResponse<JsonValue>) -> EnvelopeView {
    EnvelopeView {
        code: envelope.code,
        msg: envelope.msg@,
        data: match envelope.data {
            Some(d) => Some(d@),
            None => None,
        },
    }
}

/// The status code of an answer, where it is an integer of 32 bits.
pub open spec fn status_code(answer: JsonView) -> Option<i32> {
    match answer.integer_at("code"@) {
        Some(code) => if i32::MIN <= code <= i32::MAX {
            Some(code as i32)
        } else {
            None
        },
        None => None,
    }
}

/// The data of an answer: what stands under `data`, unless it is `null`.
pub open spec fn data_of(answer: JsonView) -> Option<JsonView> {
    match answer.member("data"@) {
        Some(d) => if d is Null {
            None
        } else {
            Some(d)
        },
        None => None,
    }
}

/// What is said of a document that lacks a member.
pub open spec fn missing_message(key: Seq<char>) -> Seq<char> {
    "missing field `"@ + key + "`"@
}

/// What is said of a document that has a member of the wrong kind, or with a
/// value out of range.
pub open spec fn invalid_message(key: Seq<char>) -> Seq<char> {
    "invalid value for field `"@ + key + "`"@
}

/// The complaint about a member that could not be used: that it is missing
/// where the document has none of that name, that its value is invalid where
/// it has one.
pub open spec fn complaint(doc: JsonView, key: Seq<char>) -> ErrorView {
    match doc.member(key) {
        None => ErrorView::JsonError(missing_message(key)),
        Some(_) => ErrorView::JsonError(invalid_message(key)),
    }
}

/// Makes the complaint about a member that could not be used.
pub fn complain(doc: &JsonValue, key: &str) -> (failure: FeishuSyncError)
    ensures
        failure@ == complaint(doc@, key@),
{
    match doc.get(key) {
        None => FeishuSyncError::JsonError(String::from_str("missing field `").concat(key).concat("`")),
        Some(_) => FeishuSyncError::JsonError(String::from_str("invalid value for field `").concat(key).concat("`")),
    }
}

/// The envelope that a document is, or the complaint that it is none: the
/// status code must be an integer of 32 bits and the message a text.
pub open spec fn envelope_of(answer: JsonView) -> Result<EnvelopeView, ErrorView> {
    match status_code(answer) {
        None => Err(complaint(answer, "code"@)),
        Some(code) => match answer.text_at("msg"@) {
            None => Err(complaint(answer, "msg"@)),
            Some(msg) => Ok(EnvelopeView { code, msg, data: data_of(answer) }),
        },
    }
}

/// The content of the outcome of reading an envelope.
pub open spec fn envelope_result_view(outcome: Result<FeishuApiResponse<JsonValue>, FeishuSyncError>) -> Result<
    EnvelopeView,
    ErrorView,
> {
    match outcome {
        Ok(envelope) => Ok(envelope_view(envelope)),
        Err(e) => Err(e@),
    }
}

/// Reads the envelope of an answer, leaving the data as the document it is.
pub fn read_envelope(answer: &JsonValue) -> (outcome: Result<FeishuApiResponse<JsonValue>, FeishuSyncError>)
    ensures
        envelope_result_view(outcome) == envelope_of(answer@),
{
    let code = match answer.get("code") {
        Some(value) => value.as_i64(),
        None => None,
    };
    let code = match code {
        Some(code) => if -2147483648 <= code && code <= 2147483647 {
            code as i32
        } else {
            return Err(complain(answer, "code"));
        },
        None => { return Err(complain(answer, "code")); },
    };
    let msg = match answer.get("msg") {
        Some(value) => value.as_str(),
        None => None,
    };
    let msg = match msg {
        Some(t) => String::from_str(t),
        None => { return Err(complain(answer, "msg")); },
    };
    let data = match answer.get("data") {
        Some(d) => if d.is_null() {
            None
        } else {
            Some(d.clone())
        },
        None => None,
    };
    Ok(FeishuApiResponse { code, msg, data })
}

} // verus!
