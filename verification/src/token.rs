//! Getting an access token.
//!
//! The credentials of the application are exchanged for a token that is
//! good for a limited time. The answer comes without the usual envelope:
//! the token and its lifetime stand at the top, beside a status code that is
//! looked at first, so that a refusal is never mistaken for a token.

use vstd::prelude::*;
use vstd::string::StringExecFns;
use crate::error::{api_failure, status_failure, ErrorView, FeishuSyncError, Operation};
use crate::json::{parse_json, parsed_json, member_views, JsonValue, JsonView};
use crate::codec::text_or;
use crate::envelope::{complain, complaint};

verus! {

/// A token and the number of seconds for which it is good.
#[derive(Debug, PartialEq, Eq)]
pub struct TenantTokenApiResponse {
    pub tenant_access_token: String,
    pub expire: i32,
}

/// The content of a [`TenantTokenApiResponse`].
pub struct TokenView {
    pub tenant_access_token: Seq<char>,
    pub expire: i32,
}

impl View for TenantTokenApiResponse {
    type V = TokenView;

    open spec fn view(&self) -> TokenView {
        TokenView { tenant_access_token: self.tenant_access_token@, expire: self.expire }
    }
}

/// The address at which tokens are handed out.
pub open spec fn token_endpoint_text() -> Seq<char> {
    "https://open.feishu.cn/open-apis/auth/v3/tenant_access_token/internal"@
}

/// The address at which tokens are handed out.
pub fn token_endpoint() -> (url: &'static str)
    ensures
        url@ == token_endpoint_text(),
{
    "https://open.feishu.cn/open-apis/auth/v3/tenant_access_token/internal"
}

/// The document that asks for a token.
pub open spec fn token_request(app_id: Seq<char>, app_secret: Seq<char>) -> JsonView {
    JsonView::Object(seq![("app_id"@, JsonView::Text(app_id)), ("app_secret"@, JsonView::Text(app_secret))])
}

/// Builds the document that asks for a token.
pub fn token_request_body(app_id: &str, app_secret: &str) -> (body: JsonValue)
    ensures
        body@ == token_request(app_id@, app_secret@),
{
    let mut members: Vec<(String, JsonValue)> = Vec::new();
    members.push((String::from_str("app_id"), JsonValue::text(app_id)));
    members.push((String::from_str("app_secret"), JsonValue::text(app_secret)));
    proof {
        assert(member_views(members@) =~= seq![
            ("app_id"@, JsonView::Text(app_id@)),
            ("app_secret"@, JsonView::Text(app_secret@)),
        ]);
    }
    JsonValue::object(members)
}

/// The status code of an answer, where it has one other than zero.
pub open spec fn refusal_code(answer: JsonView) -> Option<i64> {
    match answer.integer_at("code"@) {
        Some(code) => if code != 0 {
            Some(code)
        } else {
            None
        },
        None => None,
    }
}

/// What the service said beside a status code, or "未知错误" where it said
/// nothing.
pub open spec fn said(answer: JsonView) -> Seq<char> {
    text_or(answer.text_at("msg"@), "未知错误"@)
}

/// The lifetime in an answer, where it is an integer of 32 bits.
pub open spec fn lifetime(answer: JsonView) -> Option<i32> {
    match answer.integer_at("expire"@) {
        Some(seconds) => if i32::MIN <= seconds <= i32::MAX {
            Some(seconds as i32)
        } else {
            None
        },
        None => None,
    }
}

/// What an answer to the request for a token amounts to: the failure that a
/// status code other than zero stands for, else the token with its lifetime,
/// else the complaint that one of the two is missing.
pub open spec fn token_outcome(answer: JsonView) -> Result<TokenView, ErrorView> {
    match refusal_code(answer) {
        Some(code) => Err(status_failure(Operation::Authenticate, code, said(answer))),
        None => match answer.text_at("tenant_access_token"@) {
            None => Err(complaint(answer, "tenant_access_token"@)),
            Some(token) => match lifetime(answer) {
                None => Err(complaint(answer, "expire"@)),
                Some(expire) => Ok(TokenView { tenant_access_token: token, expire }),
            },
        },
    }
}

/// The content of the outcome of asking for a token.
pub open spec fn token_result_view(outcome: Result<TenantTokenApiResponse, FeishuSyncError>) -> Result<
    TokenView,
    ErrorView,
> {
    match outcome {
        Ok(token) => Ok(token@),
        Err(e) => Err(e@),
    }
}

/// What the service said beside a status code.
pub fn said_in(answer: &JsonValue) -> (text: String)
    ensures
        text@ == said(answer@),
{
    match answer.get("msg") {
        Some(value) => match value.as_str() {
            Some(t) => String::from_str(t),
            None => String::from_str("未知错误"),
        },
        None => String::from_str("未知错误"),
    }
}

/// The status code of an answer, where it has one other than zero.
pub fn refusal_in(answer: &JsonValue) -> (code: Option<i64>)
    ensures
        code == refusal_code(answer@),
{
    match answer.get("code") {
        Some(value) => match value.as_i64() {
            Some(code) => if code != 0 {
                Some(code)
            } else {
                None
            },
            None => None,
        },
        None => None,
    }
}

/// Reads the answer to the request for a token.
///
/// A status code other than zero makes the answer a refusal, whatever else it
/// holds. Otherwise the answer must hold the token as a text and its lifetime
/// as an integer of 32 bits.
pub fn token_from_document(answer: &JsonValue) -> (outcome: Result<TenantTokenApiResponse, FeishuSyncError>)
    ensures
        token_result_view(outcome) == token_outcome(answer@),
{
    match refusal_in(answer) {
        Some(code) => {
            let words = said_in(answer);
            return Err(api_failure(Operation::Authenticate, code, words.as_str()));
        },
        None => {},
    }
    let token = match answer.get("tenant_access_token") {
        Some(value) => match value.as_str() {
            Some(t) => String::from_str(t),
            None => { return Err(complain(answer, "tenant_access_token")); },
        },
        None => { return Err(complain(answer, "tenant_access_token")); },
    };
    let seconds = match answer.get("expire") {
        Some(value) => value.as_i64(),
        None => None,
    };
    match seconds {
        Some(seconds) => if -2147483648 <= seconds && seconds <= 2147483647 {
            Ok(TenantTokenApiResponse { tenant_access_token: token, expire: seconds as i32 })
        } else {
            Err(complain(answer, "expire"))
        },
        None => Err(complain(answer, "expire")),
    }
}

/// Reads the text that came back on the request for a token.
///
/// A text that is no JSON fails as such, with the parser's words; a document
/// is read as [`token_from_document`] reads it.
pub fn token_from_response(text: &str) -> (outcome: Result<TenantTokenApiResponse, FeishuSyncError>)
    ensures
        token_result_view(outcome) == match parsed_json(text@) {
            Ok(answer) => token_outcome(answer),
            Err(words) => Err(ErrorView::JsonError(words)),
        },
{
    match parse_json(text) {
        Ok(answer) => token_from_document(&answer),
        Err(words) => Err(FeishuSyncError::JsonError(words)),
    }
}

} // verus!
