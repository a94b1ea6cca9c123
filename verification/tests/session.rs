use feishu_sync::config::FeishuConfig;
use feishu_sync::error::FeishuSyncError;
use feishu_sync::json::JsonValue;
use feishu_sync::record::PromptRecord;
use feishu_sync::sync::{SyncAction, SyncEvent, SyncResult, SyncSession, SyncStage};
use feishu_sync::token::token_request_body;
use feishu_sync::writer::{create_request_body, update_request_body};

const LIST: &str = "https://open.feishu.cn/open-apis/bitable/v1/apps/APP/tables/tbl/records?page_size=500";
const CREATE: &str = "https://open.feishu.cn/open-apis/bitable/v1/apps/APP/tables/tbl/records/batch_create";
const UPDATE: &str = "https://open.feishu.cn/open-apis/bitable/v1/apps/APP/tables/tbl/records/batch_update";
const TOKEN_ANSWER: &str = "{\"code\":0,\"msg\":\"ok\",\"tenant_access_token\":\"t-abc\",\"expire\":7200}";

fn config(enabled: bool) -> FeishuConfig {
    FeishuConfig {
        app_id: "cli_a1".to_string(),
        app_secret: "s3cr3t".to_string(),
        base_url: "https://x.feishu.cn/base/APP?table=tbl".to_string(),
        app_token: "APP".to_string(),
        table_id: "tbl".to_string(),
        enabled,
    }
}

fn record(id: &str, updated_at: i64, record_id: Option<&str>) -> PromptRecord {
    PromptRecord {
        id: id.to_string(),
        title: format!("t-{}", id),
        content: String::new(),
        tags: "[]".to_string(),
        is_favorite: false,
        created_at: 1000,
        updated_at,
        last_used: None,
        record_id: record_id.map(|k| k.to_string()),
    }
}

fn row_text(record_id: &str, id: &str, updated_at: i64) -> String {
    format!(
        "{{\"record_id\":\"{}\",\"fields\":{{\"id\":\"{}\",\"title\":\"t-{}\",\"content\":\"\",\"tags\":\"[]\",\
         \"isFavorite\":\"否\",\"createdAt\":1000,\"updatedAt\":{}}}}}",
        record_id, id, id, updated_at
    )
}

fn page_text(rows: &[String], has_more: bool, page_token: Option<&str>) -> String {
    let token = match page_token {
        Some(t) => format!(",\"page_token\":\"{}\"", t),
        None => String::new(),
    };
    format!(
        "{{\"code\":0,\"msg\":\"success\",\"data\":{{\"items\":[{}],\"has_more\":{}{}}}}}",
        rows.join(","),
        has_more,
        token
    )
}

fn failure(message: &str) -> SyncAction {
    SyncAction::Finish {
        create_local: vec![],
        update_local: vec![],
        result: SyncResult {
            success: false,
            message: message.to_string(),
            local_created: 0,
            local_updated: 0,
            remote_created: 0,
            remote_updated: 0,
            total_processed: 0,
        },
    }
}

fn answer(session: SyncSession, text: &str) -> (SyncSession, SyncAction) {
    let event = SyncEvent::Answer(text.to_string());
    assert!(session.accepts(&event));
    session.advance(event)
}

fn up_to_snapshot(remote_rows: &[String]) -> SyncSession {
    let (session, _) = SyncSession::begin(&config(true)).unwrap();
    let (session, _) = answer(session, TOKEN_ANSWER);
    let (session, action) = answer(session, &page_text(remote_rows, false, None));
    assert_eq!(action, SyncAction::ReadLocalSnapshot);
    session
}

#[test]
fn a_switched_off_synchronisation_does_not_begin() {
    assert_eq!(SyncSession::begin(&config(false)), None);
}

#[test]
fn a_run_begins_by_asking_for_the_token() {
    let (session, action) = SyncSession::begin(&config(true)).unwrap();
    assert_eq!(
        session,
        SyncSession { app_token: "APP".to_string(), table_id: "tbl".to_string(), stage: SyncStage::AcquireToken }
    );
    assert_eq!(
        action,
        SyncAction::Post {
            url: "https://open.feishu.cn/open-apis/auth/v3/tenant_access_token/internal".to_string(),
            authorization: None,
            body: token_request_body("cli_a1", "s3cr3t"),
        }
    );
}

#[test]
fn a_whole_run_goes_through_every_stage() {
    let (session, _) = SyncSession::begin(&config(true)).unwrap();

    let (session, action) = answer(session, TOKEN_ANSWER);
    assert_eq!(action, SyncAction::Get { url: LIST.to_string(), authorization: "Bearer t-abc".to_string() });

    let first = page_text(&[row_text("rec1", "both-newer-local", 50), row_text("rec2", "only-remote", 7)], true, Some("page-two"));
    let (session, action) = answer(session, &first);
    assert_eq!(
        action,
        SyncAction::Get { url: format!("{}&page_token=page-two", LIST), authorization: "Bearer t-abc".to_string() }
    );

    let second = page_text(&[row_text("rec3", "both-newer-remote", 90), row_text("rec4", "both-equal", 5)], false, None);
    let (session, action) = answer(session, &second);
    assert_eq!(action, SyncAction::ReadLocalSnapshot);
    assert!(!session.accepts(&SyncEvent::Answer(String::new())));

    let local = vec![
        record("only-local", 1, None),
        record("both-newer-local", 100, None),
        record("both-newer-remote", 10, None),
        record("both-equal", 5, None),
        record("only-local-2", 2, None),
    ];
    let event = SyncEvent::LocalSnapshot(local.clone());
    assert!(session.accepts(&event));
    let (session, action) = session.advance(event);
    assert_eq!(
        action,
        SyncAction::Post {
            url: CREATE.to_string(),
            authorization: Some("Bearer t-abc".to_string()),
            body: create_request_body(&vec![local[0].clone(), local[4].clone()]).unwrap(),
        }
    );

    let (session, action) = answer(session, "{\"code\":0,\"msg\":\"success\",\"data\":{\"records\":[{},{}]}}");
    assert_eq!(
        action,
        SyncAction::Post {
            url: UPDATE.to_string(),
            authorization: Some("Bearer t-abc".to_string()),
            body: update_request_body(&vec![("rec1".to_string(), local[1].clone())]).unwrap(),
        }
    );

    let (session, action) = answer(session, "{\"code\":0,\"msg\":\"success\",\"data\":{\"records\":[{}]}}");
    assert_eq!(session.stage, SyncStage::Finished);
    assert_eq!(
        action,
        SyncAction::Finish {
            create_local: vec![record("only-remote", 7, Some("rec2"))],
            update_local: vec![record("both-newer-remote", 90, Some("rec3"))],
            result: SyncResult {
                success: true,
                message: "同步成功".to_string(),
                local_created: 1,
                local_updated: 1,
                remote_created: 2,
                remote_updated: 1,
                total_processed: 5,
            },
        }
    );
    assert!(!session.accepts(&SyncEvent::Answer(String::new())));
    assert!(!session.accepts(&SyncEvent::TransportFailure(String::new())));
    assert!(!session.accepts(&SyncEvent::LocalSnapshot(vec![])));
}

#[test]
fn nothing_to_do_ends_the_run_at_once() {
    let session = up_to_snapshot(&[row_text("rec1", "a", 5)]);
    let (session, action) = session.advance(SyncEvent::LocalSnapshot(vec![record("a", 5, None)]));
    assert_eq!(session.stage, SyncStage::Finished);
    assert_eq!(
        action,
        SyncAction::Finish {
            create_local: vec![],
            update_local: vec![],
            result: SyncResult {
                success: true,
                message: "同步成功".to_string(),
                local_created: 0,
                local_updated: 0,
                remote_created: 0,
                remote_updated: 0,
                total_processed: 0,
            },
        }
    );
}

#[test]
fn only_local_writes_skip_the_remote_stages() {
    let session = up_to_snapshot(&[row_text("rec1", "a", 5), row_text("rec2", "b", 9)]);
    let (_, action) = session.advance(SyncEvent::LocalSnapshot(vec![record("b", 1, None)]));
    match action {
        SyncAction::Finish { create_local, update_local, result } => {
            assert_eq!(create_local, vec![record("a", 5, Some("rec1"))]);
            assert_eq!(update_local, vec![record("b", 9, Some("rec2"))]);
            assert!(result.success);
            assert_eq!((result.local_created, result.local_updated), (1, 1));
            assert_eq!((result.remote_created, result.remote_updated), (0, 0));
            assert_eq!(result.total_processed, 2);
        },
        other => panic!("unexpected {:?}", other),
    }
}

#[test]
fn only_updates_skip_the_create_stage() {
    let session = up_to_snapshot(&[row_text("rec1", "a", 5)]);
    let (session, action) = session.advance(SyncEvent::LocalSnapshot(vec![record("a", 6, None)]));
    assert!(matches!(&action, SyncAction::Post { url, .. } if url == UPDATE));
    let (_, action) = answer(session, "{\"code\":0,\"msg\":\"success\",\"data\":{\"records\":[{},{},{}]}}");
    match action {
        SyncAction::Finish { result, .. } => {
            // The remote side says how many rows it overwrote.
            assert_eq!(result.remote_updated, 3);
            assert_eq!(result.total_processed, 3);
            assert!(result.success);
        },
        other => panic!("unexpected {:?}", other),
    }
}

#[test]
fn a_refused_token_ends_the_run() {
    let (session, _) = SyncSession::begin(&config(true)).unwrap();
    let (session, action) = answer(session, "{\"code\":10014,\"msg\":\"invalid\"}");
    assert_eq!(session.stage, SyncStage::Finished);
    assert_eq!(
        action,
        failure("获取访问令牌失败: 飞书API错误: 10014 - App Secret 无效，请检查飞书应用配置中的 App Secret 是否正确")
    );
}

#[test]
fn a_failed_request_ends_the_run_at_any_stage() {
    let (session, _) = SyncSession::begin(&config(true)).unwrap();
    let event = SyncEvent::TransportFailure("connection refused".to_string());
    assert!(session.accepts(&event));
    let (session, action) = session.advance(event);
    assert_eq!(session.stage, SyncStage::Finished);
    assert_eq!(action, failure("获取访问令牌失败: 网络请求失败: connection refused"));

    let (session, _) = SyncSession::begin(&config(true)).unwrap();
    let (session, _) = answer(session, TOKEN_ANSWER);
    let (_, action) = session.advance(SyncEvent::TransportFailure("timed out".to_string()));
    assert_eq!(action, failure("获取云端数据失败: 网络请求失败: timed out"));

    let session = up_to_snapshot(&[]);
    let (session, _) = session.advance(SyncEvent::LocalSnapshot(vec![record("a", 1, None)]));
    let (_, action) = session.advance(SyncEvent::TransportFailure("reset".to_string()));
    assert_eq!(action, failure("向云端创建记录失败: 网络请求失败: reset"));
}

#[test]
fn a_refused_listing_ends_the_run() {
    let (session, _) = SyncSession::begin(&config(true)).unwrap();
    let (session, _) = answer(session, TOKEN_ANSWER);
    let (session, action) = answer(session, "{\"code\":1254051,\"msg\":\"NOTEXIST\"}");
    assert_eq!(session.stage, SyncStage::Finished);
    assert_eq!(
        action,
        failure("获取云端数据失败: 飞书API错误: 1254051 - 多维表格不存在或已删除，请检查URL中的app_token是否正确")
    );
}

#[test]
fn a_refused_create_ends_the_run_before_the_updates() {
    let session = up_to_snapshot(&[row_text("rec1", "a", 5)]);
    let local = vec![record("a", 6, None), record("new", 1, None)];
    let (session, action) = session.advance(SyncEvent::LocalSnapshot(local));
    assert!(matches!(&action, SyncAction::Post { url, .. } if url == CREATE));
    let (session, action) = answer(session, "{\"code\":1254045,\"msg\":\"FieldNameNotFound\"}");
    assert_eq!(session.stage, SyncStage::Finished);
    assert_eq!(action, failure("向云端创建记录失败: 飞书API错误: 1254045 - FieldNameNotFound"));
}

#[test]
fn a_refused_update_ends_the_run_without_counts() {
    let session = up_to_snapshot(&[row_text("rec1", "a", 5), row_text("rec2", "r", 5)]);
    let local = vec![record("a", 6, None), record("new", 1, None)];
    let (session, _) = session.advance(SyncEvent::LocalSnapshot(local));
    let (session, _) = answer(session, "{\"code\":0}");
    let (_, action) = answer(session, "{\"code\":1254043,\"msg\":\"RecordIdNotFound\"}");
    assert_eq!(action, failure("向云端更新记录失败: 飞书API错误: 1254043 - RecordIdNotFound"));
}

#[test]
fn an_answer_that_is_no_json_ends_the_run() {
    let (session, _) = SyncSession::begin(&config(true)).unwrap();
    let (session, action) = answer(session, "<html>Bad Gateway</html>");
    assert_eq!(session.stage, SyncStage::Finished);
    match action {
        SyncAction::Finish { create_local, update_local, result } => {
            assert!(create_local.is_empty() && update_local.is_empty());
            assert!(!result.success);
            assert!(result.message.starts_with("获取访问令牌失败: JSON序列化/反序列化失败: "));
            assert_eq!(result.total_processed, 0);
        },
        other => panic!("unexpected {:?}", other),
    }
}

#[test]
fn failed_outcomes_read_in_words() {
    let result = SyncResult::failed(&FeishuSyncError::UrlParseError("bad".to_string()));
    assert_eq!(
        result,
        SyncResult {
            success: false,
            message: "同步失败: URL解析失败: bad".to_string(),
            local_created: 0,
            local_updated: 0,
            remote_created: 0,
            remote_updated: 0,
            total_processed: 0,
        }
    );
}

#[test]
fn the_total_is_the_sum_of_the_counts() {
    let result = SyncResult::completed(1, 20, 300, 4000);
    assert_eq!(result.total_processed, 4321);
    assert!(result.success);
    assert_eq!(result.message, "同步成功");
    assert_eq!((result.local_created, result.local_updated), (1, 20));
    assert_eq!((result.remote_created, result.remote_updated), (300, 4000));
    let result = SyncResult::completed(u32::MAX, 0, 0, 0);
    assert_eq!(result.total_processed, u32::MAX);
}

#[test]
fn the_body_of_a_request_is_a_document() {
    let (_, action) = SyncSession::begin(&config(true)).unwrap();
    match action {
        SyncAction::Post { body, .. } => {
            assert_eq!(body.get("app_id"), Some(&JsonValue::Text("cli_a1".to_string())));
        },
        other => panic!("unexpected {:?}", other),
    }
}

#[test]
fn a_failure_names_what_the_run_was_doing() {
    let error = FeishuSyncError::NetworkError("down".to_string());
    assert_eq!(SyncStage::AcquireToken.failure_words(), "获取访问令牌失败: ");
    assert_eq!(SyncStage::Finished.failure_words(), "同步失败: ");
    let result = SyncResult::failed_saying("向云端更新记录失败: ", &error);
    assert_eq!(result.message, "向云端更新记录失败: 网络请求失败: down");
    assert!(!result.success);
    assert_eq!(result.total_processed, 0);

    let session = up_to_snapshot(&[row_text("rec1", "a", 5)]);
    let (session, _) = session.advance(SyncEvent::LocalSnapshot(vec![record("a", 6, None)]));
    let (_, action) = session.advance(SyncEvent::TransportFailure("reset".to_string()));
    assert_eq!(action, failure("向云端更新记录失败: 网络请求失败: reset"));
}
