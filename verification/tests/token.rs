use feishu_sync::error::FeishuSyncError;
use feishu_sync::json::{parse_json, JsonValue};
use feishu_sync::token::{
    refusal_in, said_in, token_endpoint, token_from_document, token_from_response, token_request_body,
    TenantTokenApiResponse,
};

#[test]
fn the_request_names_both_credentials() {
    let body = token_request_body("cli_a1", "s3cr3t");
    assert_eq!(
        body,
        JsonValue::Object(vec![
            ("app_id".to_string(), JsonValue::Text("cli_a1".to_string())),
            ("app_secret".to_string(), JsonValue::Text("s3cr3t".to_string())),
        ])
    );
    assert_eq!(token_endpoint(), "https://open.feishu.cn/open-apis/auth/v3/tenant_access_token/internal");
}

#[test]
fn a_good_answer_gives_the_token() {
    let outcome =
        token_from_response("{\"code\":0,\"msg\":\"ok\",\"tenant_access_token\":\"t-abc\",\"expire\":7200}");
    assert_eq!(outcome, Ok(TenantTokenApiResponse { tenant_access_token: "t-abc".to_string(), expire: 7200 }));
}

#[test]
fn an_answer_without_code_gives_the_token() {
    let outcome = token_from_response("{\"tenant_access_token\":\"t-abc\",\"expire\":1}");
    assert_eq!(outcome, Ok(TenantTokenApiResponse { tenant_access_token: "t-abc".to_string(), expire: 1 }));
}

#[test]
fn scenario_invalid_app_secret() {
    let outcome = token_from_response("{\"code\":10014,\"msg\":\"app secret invalid\"}");
    assert_eq!(
        outcome,
        Err(FeishuSyncError::FeishuApiError {
            code: 10014,
            msg: "App Secret 无效，请检查飞书应用配置中的 App Secret 是否正确".to_string(),
        })
    );
}

#[test]
fn a_refusal_is_no_token_even_if_it_holds_one() {
    let outcome = token_from_response(
        "{\"code\":10013,\"msg\":\"bad id\",\"tenant_access_token\":\"t-abc\",\"expire\":7200}",
    );
    assert_eq!(
        outcome,
        Err(FeishuSyncError::FeishuApiError {
            code: 10013,
            msg: "App ID 无效，请检查飞书应用配置中的 App ID 是否正确".to_string(),
        })
    );
}

#[test]
fn an_unknown_refusal_carries_code_and_words() {
    let outcome = token_from_response("{\"code\":77,\"msg\":\"try later\"}");
    assert_eq!(
        outcome,
        Err(FeishuSyncError::FeishuApiError { code: 77, msg: "飞书API错误 (代码: 77): try later".to_string() })
    );
    let outcome = token_from_response("{\"code\":77}");
    assert_eq!(
        outcome,
        Err(FeishuSyncError::FeishuApiError { code: 77, msg: "飞书API错误 (代码: 77): 未知错误".to_string() })
    );
}

#[test]
fn an_answer_without_token_or_lifetime_fails() {
    assert_eq!(
        token_from_response("{\"code\":0,\"expire\":7200}"),
        Err(FeishuSyncError::JsonError("missing field `tenant_access_token`".to_string()))
    );
    assert_eq!(
        token_from_response("{\"code\":0,\"tenant_access_token\":\"t\"}"),
        Err(FeishuSyncError::JsonError("missing field `expire`".to_string()))
    );
    assert_eq!(
        token_from_response("{\"tenant_access_token\":\"t\",\"expire\":4294967296}"),
        Err(FeishuSyncError::JsonError("invalid value for field `expire`".to_string()))
    );
    assert_eq!(
        token_from_response("{\"tenant_access_token\":\"t\",\"expire\":\"7200\"}"),
        Err(FeishuSyncError::JsonError("invalid value for field `expire`".to_string()))
    );
    assert_eq!(
        token_from_response("{\"tenant_access_token\":null,\"expire\":7200}"),
        Err(FeishuSyncError::JsonError("invalid value for field `tenant_access_token`".to_string()))
    );
    assert_eq!(
        token_from_response("[1,2]"),
        Err(FeishuSyncError::JsonError("missing field `tenant_access_token`".to_string()))
    );
}

#[test]
fn a_text_that_is_no_json_fails_as_such() {
    assert!(matches!(token_from_response("<html>502</html>"), Err(FeishuSyncError::JsonError(_))));
    assert!(matches!(token_from_response(""), Err(FeishuSyncError::JsonError(_))));
}

#[test]
fn a_code_that_is_no_integer_is_no_refusal() {
    let doc = parse_json("{\"code\":\"10014\",\"msg\":5,\"tenant_access_token\":\"t\",\"expire\":-3}").unwrap();
    assert_eq!(refusal_in(&doc), None);
    assert_eq!(said_in(&doc), "未知错误");
    assert_eq!(
        token_from_document(&doc),
        Ok(TenantTokenApiResponse { tenant_access_token: "t".to_string(), expire: -3 })
    );
}
