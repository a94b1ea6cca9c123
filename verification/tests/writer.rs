use feishu_sync::codec::encode_record;
use feishu_sync::error::FeishuSyncError;
use feishu_sync::json::{parse_json, JsonValue};
use feishu_sync::record::PromptRecord;
use feishu_sync::writer::{
    create_request_body, create_result, create_url, created_count, update_request_body, update_result, update_url,
    updated_count,
};

fn record(id: &str, last_used: Option<i64>) -> PromptRecord {
    PromptRecord {
        id: id.to_string(),
        title: format!("title {}", id),
        content: "c".to_string(),
        tags: "[\"x\"]".to_string(),
        is_favorite: id == "fav",
        created_at: 1,
        updated_at: 2,
        last_used,
        record_id: None,
    }
}

fn api(code: i32, msg: &str) -> FeishuSyncError {
    FeishuSyncError::FeishuApiError { code, msg: msg.to_string() }
}

#[test]
fn addresses_of_the_two_writes() {
    assert_eq!(
        create_url("APP", "tbl"),
        "https://open.feishu.cn/open-apis/bitable/v1/apps/APP/tables/tbl/records/batch_create"
    );
    assert_eq!(
        update_url("APP", "tbl"),
        "https://open.feishu.cn/open-apis/bitable/v1/apps/APP/tables/tbl/records/batch_update"
    );
}

#[test]
fn nothing_is_sent_for_an_empty_batch() {
    assert_eq!(create_request_body(&vec![]), None);
    assert_eq!(update_request_body(&vec![]), None);
}

#[test]
fn new_records_go_as_their_fields() {
    let records = vec![record("a", None), record("fav", Some(9))];
    let body = create_request_body(&records).unwrap();
    let expected = JsonValue::Object(vec![(
        "records".to_string(),
        JsonValue::Array(vec![
            JsonValue::Object(vec![("fields".to_string(), encode_record(&records[0]))]),
            JsonValue::Object(vec![("fields".to_string(), encode_record(&records[1]))]),
        ]),
    )]);
    assert_eq!(body, expected);
    let items = body.get("records").unwrap().as_array().unwrap();
    assert_eq!(items[1].get("fields").unwrap().get("isFavorite").unwrap().as_str(), Some("是"));
    assert_eq!(items[0].get("fields").unwrap().get("lastUsed"), None);
    assert_eq!(items[1].get("fields").unwrap().get("lastUsed").unwrap().as_i64(), Some(9));
}

#[test]
fn changed_records_name_their_row() {
    let updates = vec![("rec1".to_string(), record("a", None)), ("rec2".to_string(), record("b", Some(3)))];
    let body = update_request_body(&updates).unwrap();
    let expected = JsonValue::Object(vec![(
        "records".to_string(),
        JsonValue::Array(vec![
            JsonValue::Object(vec![
                ("record_id".to_string(), JsonValue::Text("rec1".to_string())),
                ("fields".to_string(), encode_record(&updates[0].1)),
            ]),
            JsonValue::Object(vec![
                ("record_id".to_string(), JsonValue::Text("rec2".to_string())),
                ("fields".to_string(), encode_record(&updates[1].1)),
            ]),
        ]),
    )]);
    assert_eq!(body, expected);
}

#[test]
fn a_create_that_went_well_counts_what_was_sent() {
    assert_eq!(create_result("{\"code\":0,\"msg\":\"success\",\"data\":{\"records\":[]}}", 3), Ok(3));
    assert_eq!(create_result("{\"code\":0}", 0), Ok(0));
    assert_eq!(create_result("{\"code\":0}", 2_147_483_647), Ok(i32::MAX));
}

#[test]
fn a_create_without_status_code_fails_with_minus_one() {
    assert_eq!(create_result("{\"msg\":\"hm\"}", 3), Err(api(-1, "hm")));
    assert_eq!(create_result("{}", 3), Err(api(-1, "未知错误")));
    assert_eq!(create_result("{\"code\":\"0\"}", 3), Err(api(-1, "未知错误")));
}

#[test]
fn a_refused_create_fails_with_the_code() {
    assert_eq!(create_result("{\"code\":1254045,\"msg\":\"FieldNameNotFound\"}", 3), Err(api(1254045, "FieldNameNotFound")));
    assert_eq!(
        create_result("{\"code\":99991663,\"msg\":\"token invalid\"}", 3),
        Err(api(99991663, "租户访问令牌无效"))
    );
    let doc = parse_json("{\"code\":1254045}").unwrap();
    assert_eq!(created_count(&doc, 1), Err(api(1254045, "未知错误")));
    assert!(matches!(create_result("oops", 3), Err(FeishuSyncError::JsonError(_))));
}

#[test]
fn an_update_counts_the_rows_in_the_answer() {
    assert_eq!(
        update_result("{\"code\":0,\"msg\":\"success\",\"data\":{\"records\":[{\"record_id\":\"a\"},{\"record_id\":\"b\"}]}}"),
        Ok(2)
    );
    assert_eq!(update_result("{\"code\":0,\"msg\":\"success\",\"data\":{\"records\":[]}}"), Ok(0));
    assert_eq!(update_result("{\"code\":0,\"msg\":\"success\"}"), Ok(0));
    assert_eq!(update_result("{\"code\":0,\"msg\":\"success\",\"data\":null}"), Ok(0));
}

#[test]
fn a_refused_update_fails_with_the_code() {
    assert_eq!(update_result("{\"code\":1254043,\"msg\":\"RecordIdNotFound\"}"), Err(api(1254043, "RecordIdNotFound")));
    assert_eq!(
        update_result("{\"code\":1254010,\"msg\":\"x\",\"data\":{}}"),
        Err(api(1254010, "数据表不存在，请检查URL中的table参数是否正确"))
    );
}

#[test]
fn a_malformed_update_answer_fails() {
    assert_eq!(
        update_result("{\"code\":0,\"msg\":\"success\",\"data\":{}}"),
        Err(FeishuSyncError::JsonError("missing field `records`".to_string()))
    );
    assert_eq!(
        update_result("{\"code\":0,\"msg\":\"success\",\"data\":{\"records\":3}}"),
        Err(FeishuSyncError::JsonError("invalid value for field `records`".to_string()))
    );
    assert_eq!(
        update_result("{\"msg\":\"success\"}"),
        Err(FeishuSyncError::JsonError("missing field `code`".to_string()))
    );
    let doc = parse_json("{\"code\":0}").unwrap();
    assert_eq!(updated_count(&doc), Err(FeishuSyncError::JsonError("missing field `msg`".to_string())));
    assert!(matches!(update_result("{"), Err(FeishuSyncError::JsonError(_))));
}

#[test]
fn the_overwritten_rows_are_read_from_the_data() {
    let data = parse_json("{\"records\":[{\"record_id\":\"a\"},7]}").unwrap();
    let rows = feishu_sync::writer::read_overwritten(&data).unwrap();
    assert_eq!(
        rows.records,
        vec![
            JsonValue::Object(vec![("record_id".to_string(), JsonValue::Text("a".to_string()))]),
            JsonValue::Integer(7),
        ]
    );
    assert_eq!(feishu_sync::writer::read_overwritten(&parse_json("{}").unwrap()), None);
    assert_eq!(feishu_sync::writer::read_overwritten(&parse_json("{\"records\":{}}").unwrap()), None);
}
