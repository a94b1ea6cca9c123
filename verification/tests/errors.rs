use feishu_sync::error::{api_failure, explain_code, FeishuSyncError, Operation};

fn api(code: i32, msg: &str) -> FeishuSyncError {
    FeishuSyncError::FeishuApiError { code, msg: msg.to_string() }
}

#[test]
fn known_codes_have_their_explanation() {
    assert_eq!(
        explain_code(10014).as_deref(),
        Some("App Secret 无效，请检查飞书应用配置中的 App Secret 是否正确")
    );
    assert_eq!(explain_code(10013).as_deref(), Some("App ID 无效，请检查飞书应用配置中的 App ID 是否正确"));
    assert_eq!(explain_code(99991663).as_deref(), Some("租户访问令牌无效"));
    assert_eq!(explain_code(99991664).as_deref(), Some("租户访问令牌过期"));
    assert_eq!(
        explain_code(99991672).as_deref(),
        Some("应用权限不足。请前往飞书开放平台为应用开通多维表格权限：\n需要权限: bitable:app:readonly 或 bitable:app 或 base:record:retrieve")
    );
    assert_eq!(
        explain_code(1254032).as_deref(),
        Some("应用无权访问此多维表格，请检查应用是否已添加到对应工作空间并有相应权限")
    );
    assert_eq!(explain_code(1254051).as_deref(), Some("多维表格不存在或已删除，请检查URL中的app_token是否正确"));
    assert_eq!(explain_code(1254010).as_deref(), Some("数据表不存在，请检查URL中的table参数是否正确"));
}

#[test]
fn other_codes_have_no_explanation() {
    for code in [0i64, 1, -1, 10012, 10015, 1254050, 99991665, i64::MAX, i64::MIN] {
        assert_eq!(explain_code(code), None, "{}", code);
    }
}

#[test]
fn a_known_code_fails_with_its_explanation_whatever_was_said() {
    for operation in [Operation::Authenticate, Operation::ListRecords, Operation::WriteRecords] {
        assert_eq!(
            api_failure(operation, 1254051, "NOTEXIST"),
            api(1254051, "多维表格不存在或已删除，请检查URL中的app_token是否正确")
        );
    }
}

#[test]
fn an_unknown_code_fails_with_the_code_and_what_was_said() {
    assert_eq!(
        api_failure(Operation::Authenticate, 12345, "something odd"),
        api(12345, "飞书API错误 (代码: 12345): something odd")
    );
    assert_eq!(
        api_failure(Operation::ListRecords, -7, "something odd"),
        api(-7, "多维表格API调用失败: -7 - something odd")
    );
    assert_eq!(api_failure(Operation::WriteRecords, 500, "something odd"), api(500, "something odd"));
}

#[test]
fn a_code_beyond_32_bits_is_cut_to_them() {
    assert_eq!(
        api_failure(Operation::WriteRecords, 4_294_967_296 + 5, "big"),
        api(5, "big")
    );
    assert_eq!(
        api_failure(Operation::ListRecords, 2_147_483_648, "big"),
        api(i32::MIN, "多维表格API调用失败: 2147483648 - big")
    );
}

#[test]
fn failures_read_in_words() {
    assert_eq!(FeishuSyncError::NetworkError("timed out".to_string()).message(), "网络请求失败: timed out");
    assert_eq!(FeishuSyncError::ConfigError("no such file".to_string()).message(), "配置文件操作失败: no such file");
    assert_eq!(
        FeishuSyncError::JsonError("expected value".to_string()).message(),
        "JSON序列化/反序列化失败: expected value"
    );
    assert_eq!(api(1254010, "数据表不存在").message(), "飞书API错误: 1254010 - 数据表不存在");
    assert_eq!(api(-1, "API响应数据为空").message(), "飞书API错误: -1 - API响应数据为空");
    assert_eq!(FeishuSyncError::UrlParseError("bad".to_string()).message(), "URL解析失败: bad");
}
