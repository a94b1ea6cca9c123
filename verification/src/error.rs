//! What can go wrong, and how the remote service's status codes read.

use vstd::prelude::*;
use vstd::string::StringExecFns;
use crate::text::{decimal_text, format_integer};

verus! {

/// A failure of the synchronisation.
#[derive(Debug, PartialEq, Eq)]
pub enum FeishuSyncError {
    /// The request did not get through or no answer came back.
    NetworkError(String),
    /// The stored configuration could not be read or written.
    ConfigError(String),
    /// A text was not the JSON that was expected.
    JsonError(String),
    /// The remote service answered with a status code other than zero.
    FeishuApiError { code: i32, msg: String },
    /// The address of the table could not be taken apart.
    UrlParseError(String),
}

/// The content of a [`FeishuSyncError`].
pub enum ErrorView {
    NetworkError(Seq<char>),
    ConfigError(Seq<char>),
    JsonError(Seq<char>),
    FeishuApiError { code: i32, msg: Seq<char> },
    UrlParseError(Seq<char>),
}

impl View for FeishuSyncError {
    type V = ErrorView;

    open spec fn view(&self) -> ErrorView {
        match self {
            FeishuSyncError::NetworkError(m) => ErrorView::NetworkError(m@),
            FeishuSyncError::ConfigError(m) => ErrorView::ConfigError(m@),
            FeishuSyncError::JsonError(m) => ErrorView::JsonError(m@),
            FeishuSyncError::FeishuApiError { code, msg } => ErrorView::FeishuApiError { code: *code, msg: msg@ },
            FeishuSyncError::UrlParseError(m) => ErrorView::UrlParseError(m@),
        }
    }
}

impl ErrorView {
    /// The text by which the failure is shown to a user.
    pub open spec fn message(self) -> Seq<char> {
        match self {
            ErrorView::NetworkError(m) => "网络请求失败: "@ + m,
            ErrorView::ConfigError(m) => "配置文件操作失败: "@ + m,
            ErrorView::JsonError(m) => "JSON序列化/反序列化失败: "@ + m,
            ErrorView::FeishuApiError { code, msg } => "飞书API错误: "@ + decimal_text(code as i64) + " - "@ + msg,
            ErrorView::UrlParseError(m) => "URL解析失败: "@ + m,
        }
    }
}

impl FeishuSyncError {
    /// The text by which the failure is shown to a user.
    pub fn message(&self) -> (text: String)
        ensures
            text@ == self@.message(),
    {
        match self {
            FeishuSyncError::NetworkError(m) => String::from_str("网络请求失败: ").concat(m.as_str()),
            FeishuSyncError::ConfigError(m) => String::from_str("配置文件操作失败: ").concat(m.as_str()),
            FeishuSyncError::JsonError(m) => String::from_str("JSON序列化/反序列化失败: ").concat(m.as_str()),
            FeishuSyncError::FeishuApiError { code, msg } => {
                let number = format_integer(*code as i64);
                String::from_str("飞书API错误: ").concat(number.as_str()).concat(" - ").concat(msg.as_str())
            },
            FeishuSyncError::UrlParseError(m) => String::from_str("URL解析失败: ").concat(m.as_str()),
        }
    }
}

/// Which operation met a status code.
#[derive(Clone, Copy, Debug, PartialEq, Eq, Structural)]
pub enum Operation {
    /// Asking for an access token.
    Authenticate,
    /// Reading the rows of the table.
    ListRecords,
    /// Writing rows to the table.
    WriteRecords,
}

/// The explanation kept for a status code that is known.
pub open spec fn curated_message(code: i64) -> Option<Seq<char>> {
    if code == 10014 {
        Some("App Secret 无效，请检查飞书应用配置中的 App Secret 是否正确"@)
    } else if code == 10013 {
        Some("App ID 无效，请检查飞书应用配置中的 App ID 是否正确"@)
    } else if code == 99991663 {
        Some("租户访问令牌无效"@)
    } else if code == 99991664 {
        Some("租户访问令牌过期"@)
    } else if code == 99991672 {
        Some(
            "应用权限不足。请前往飞书开放平台为应用开通多维表格权限：\n需要权限: bitable:app:readonly 或 bitable:app 或 base:record:retrieve"@,
        )
    } else if code == 1254032 {
        Some("应用无权访问此多维表格，请检查应用是否已添加到对应工作空间并有相应权限"@)
    } else if code == 1254051 {
        Some("多维表格不存在或已删除，请检查URL中的app_token是否正确"@)
    } else if code == 1254010 {
        Some("数据表不存在，请检查URL中的table参数是否正确"@)
    } else {
        None
    }
}

/// The message for a status code that is not known: the code and what the
/// service said, in the wording of the operation.
pub open spec fn generic_message(operation: Operation, code: i64, said: Seq<char>) -> Seq<char> {
    match operation {
        Operation::Authenticate => "飞书API错误 (代码: "@ + decimal_text(code) + "): "@ + said,
        Operation::ListRecords => "多维表格API调用失败: "@ + decimal_text(code) + " - "@ + said,
        Operation::WriteRecords => said,
    }
}

/// The message for a status code: the curated explanation where the code is
/// known, the generic message otherwise.
pub open spec fn status_message(operation: Operation, code: i64, said: Seq<char>) -> Seq<char> {
    match curated_message(code) {
        Some(explanation) => explanation,
        None => generic_message(operation, code, said),
    }
}

/// The failure that a status code other than zero stands for. The code is
/// kept in 32 bits, as the service's codes are.
pub open spec fn status_failure(operation: Operation, code: i64, said: Seq<char>) -> ErrorView {
    ErrorView::FeishuApiError { code: code as i32, msg: status_message(operation, code, said) }
}

/// The explanation kept for a status code, if it is a known one.
pub fn explain_code(code: i64) -> (explanation: Option<String>)
    ensures
        match explanation {
            Some(text) => curated_message(code) == Some(text@),
            None => curated_message(code) is None,
        },
{
    if code == 10014 {
        Some(String::from_str("App Secret 无效，请检查飞书应用配置中的 App Secret 是否正确"))
    } else if code == 10013 {
        Some(String::from_str("App ID 无效，请检查飞书应用配置中的 App ID 是否正确"))
    } else if code == 99991663 {
        Some(String::from_str("租户访问令牌无效"))
    } else if code == 99991664 {
        Some(String::from_str("租户访问令牌过期"))
    } else if code == 99991672 {
        Some(
            String::from_str(
                "应用权限不足。请前往飞书开放平台为应用开通多维表格权限：\n需要权限: bitable:app:readonly 或 bitable:app 或 base:record:retrieve",
            ),
        )
    } else if code == 1254032 {
        Some(String::from_str("应用无权访问此多维表格，请检查应用是否已添加到对应工作空间并有相应权限"))
    } else if code == 1254051 {
        Some(String::from_str("多维表格不存在或已删除，请检查URL中的app_token是否正确"))
    } else if code == 1254010 {
        Some(String::from_str("数据表不存在，请检查URL中的table参数是否正确"))
    } else {
        None
    }
}

/// Turns a status code other than zero, with what the service said, into the
/// failure it stands for.
pub fn api_failure(operation: Operation, code: i64, said: &str) -> (failure: FeishuSyncError)
    ensures
        failure@ == status_failure(operation, code, said@),
{
    let msg = match explain_code(code) {
        Some(explanation) => explanation,
        None => match operation {
            Operation::Authenticate => String::from_str("飞书API错误 (代码: ").concat(
                format_integer(code).as_str(),
            ).concat("): ").concat(said),
            Operation::ListRecords => String::from_str("多维表格API调用失败: ").concat(
                format_integer(code).as_str(),
            ).concat(" - ").concat(said),
            Operation::WriteRecords => String::from_str(said),
        },
    };
    FeishuSyncError::FeishuApiError { code: #[verifier::truncate] (code as i32), msg }
}

} // verus!
