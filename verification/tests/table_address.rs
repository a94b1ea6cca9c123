use feishu_sync::config::FeishuConfig;
use feishu_sync::error::FeishuSyncError;
use feishu_sync::url::parse_feishu_base_url;

fn parts(url: &str) -> (String, String) {
    parse_feishu_base_url(url).unwrap()
}

fn pair(a: &str, b: &str) -> (String, String) {
    (a.to_string(), b.to_string())
}

const NO_CONTAINER: &str = "无法从URL中提取app_token，请确保URL包含/base/或/wiki/路径";
const NO_TABLE: &str = "无法从URL中提取table_id，请确保URL包含?table=参数";

#[test]
fn base_address_with_table() {
    assert_eq!(
        parts("https://yourdomain.feishu.cn/base/VkbvbJGl0aSYGtsT6CQcTGcPnMd?table=tblNYzJrWFGN4OWI"),
        pair("VkbvbJGl0aSYGtsT6CQcTGcPnMd", "tblNYzJrWFGN4OWI")
    );
}

#[test]
fn wiki_address_with_table_and_view() {
    assert_eq!(
        parts("https://yourdomain.feishu.cn/wiki/I1iZwpcLli7wQtkGBywcYEldnmb?table=tblZCp9LxuJk7Z1H&view=vewHOQVag0"),
        pair("I1iZwpcLli7wQtkGBywcYEldnmb", "tblZCp9LxuJk7Z1H")
    );
}

#[test]
fn table_parameter_need_not_come_first() {
    assert_eq!(parts("https://x.feishu.cn/base/APP?view=v1&table=tbl7&x=y"), pair("APP", "tbl7"));
}

#[test]
fn address_without_table_fails() {
    assert_eq!(
        parse_feishu_base_url("https://yourdomain.feishu.cn/base/VkbvbJGl0aSYGtsT6CQcTGcPnMd"),
        Err(FeishuSyncError::UrlParseError(NO_TABLE.to_string()))
    );
    assert_eq!(
        parse_feishu_base_url("https://x.feishu.cn/base/APP?view=v1"),
        Err(FeishuSyncError::UrlParseError(NO_TABLE.to_string()))
    );
    assert_eq!(
        parse_feishu_base_url("https://x.feishu.cn/base/APP?table"),
        Err(FeishuSyncError::UrlParseError(NO_TABLE.to_string()))
    );
    assert_eq!(
        parse_feishu_base_url("https://x.feishu.cn/base/APP?"),
        Err(FeishuSyncError::UrlParseError(NO_TABLE.to_string()))
    );
}

#[test]
fn address_without_container_fails() {
    for url in ["", "https://x.feishu.cn/docs/APP?table=tbl1", "https://x.feishu.cn/base", "base", "https://x.cn/database/APP?table=t"] {
        assert_eq!(
            parse_feishu_base_url(url),
            Err(FeishuSyncError::UrlParseError(NO_CONTAINER.to_string())),
            "{:?}",
            url
        );
    }
}

#[test]
fn the_first_marker_with_a_segment_after_it_counts() {
    assert_eq!(parts("https://x.cn/wiki/W1?table=t1/base/B2?table=t2"), pair("W1", "t1"));
    assert_eq!(parts("base/base?table=t"), pair("base", "t"));
    // The marker at the very end has nothing after it.
    assert_eq!(parts("https://x.cn/base/APP?table=t/wiki"), pair("APP", "t"));
}

#[test]
fn the_query_ends_at_the_next_slash() {
    assert_eq!(parts("https://x.cn/base/APP?table=tbl/extra&table=other"), pair("APP", "tbl"));
    assert_eq!(
        parse_feishu_base_url("https://x.cn/base/APP/more?table=tbl"),
        Err(FeishuSyncError::UrlParseError(NO_TABLE.to_string()))
    );
}

#[test]
fn the_last_table_parameter_wins() {
    assert_eq!(parts("https://x.cn/base/APP?table=first&table=second"), pair("APP", "second"));
}

#[test]
fn a_value_keeps_what_follows_its_first_equals_sign() {
    assert_eq!(parts("https://x.cn/base/APP?table=a=b"), pair("APP", "a=b"));
    assert_eq!(parts("https://x.cn/base/APP?table=="), pair("APP", "="));
}

#[test]
fn an_empty_table_is_no_table() {
    for url in [
        "https://x.cn/base/APP?table=",
        "https://x.cn/base/APP?table=&view=v1",
        "https://x.cn/wiki/APP?view=v1&table=",
        "https://x.cn/base/APP?table=tbl1&table=",
    ] {
        assert_eq!(parse_feishu_base_url(url), Err(FeishuSyncError::UrlParseError(NO_TABLE.to_string())), "{:?}", url);
    }
}

#[test]
fn an_empty_container_is_no_container() {
    for url in [
        "https://yourdomain.feishu.cn/base/?table=tbl1",
        "https://yourdomain.feishu.cn/wiki/?table=tbl1&view=v",
        "https://yourdomain.feishu.cn/base/",
        "https://yourdomain.feishu.cn/base//APP?table=tbl1",
        "https://yourdomain.feishu.cn/base/?table=",
        "https://yourdomain.feishu.cn/base/?",
    ] {
        assert_eq!(
            parse_feishu_base_url(url),
            Err(FeishuSyncError::UrlParseError(NO_CONTAINER.to_string())),
            "{:?}",
            url
        );
    }
}

#[test]
fn what_comes_out_is_never_empty() {
    for url in [
        "https://x.cn/base/A?table=t",
        "https://x.cn/base/?table=t",
        "https://x.cn/base/A?table=",
        "base/base?table=t",
        "wiki/?",
        "",
    ] {
        if let Ok((container, table)) = parse_feishu_base_url(url) {
            assert!(!container.is_empty() && !table.is_empty(), "{:?}", url);
        }
    }
}

#[test]
fn only_the_exact_parameter_name_counts() {
    assert_eq!(
        parse_feishu_base_url("https://x.cn/base/APP?tables=t1&Table=t2&mytable=t3"),
        Err(FeishuSyncError::UrlParseError(NO_TABLE.to_string()))
    );
}

#[test]
fn only_the_first_question_mark_starts_the_query() {
    assert_eq!(parts("https://x.cn/base/APP?table=t?x"), pair("APP", "t?x"));
}

#[test]
fn names_outside_ascii_are_kept() {
    assert_eq!(parts("https://x.cn/wiki/表格一?视图=v&table=数据表"), pair("表格一", "数据表"));
}

#[test]
fn settings_take_container_and_table_from_the_address() {
    let config = FeishuConfig::for_table(
        "cli_a1".to_string(),
        "s3cr3t".to_string(),
        "https://x.feishu.cn/base/APP123?table=tbl456".to_string(),
    )
    .unwrap();
    assert_eq!(
        config,
        FeishuConfig {
            app_id: "cli_a1".to_string(),
            app_secret: "s3cr3t".to_string(),
            base_url: "https://x.feishu.cn/base/APP123?table=tbl456".to_string(),
            app_token: "APP123".to_string(),
            table_id: "tbl456".to_string(),
            enabled: true,
        }
    );
}

#[test]
fn settings_for_a_bad_address_fail() {
    let outcome = FeishuConfig::for_table("a".to_string(), "b".to_string(), "https://x.feishu.cn/base/APP".to_string());
    assert_eq!(outcome, Err(FeishuSyncError::UrlParseError(NO_TABLE.to_string())));
    let outcome =
        FeishuConfig::for_table("a".to_string(), "b".to_string(), "https://x.feishu.cn/base/?table=t".to_string());
    assert_eq!(outcome, Err(FeishuSyncError::UrlParseError(NO_CONTAINER.to_string())));
    let outcome =
        FeishuConfig::for_table("a".to_string(), "b".to_string(), "https://x.feishu.cn/base/APP?table=".to_string());
    assert_eq!(outcome, Err(FeishuSyncError::UrlParseError(NO_TABLE.to_string())));
}

#[test]
fn shown_settings_hide_the_secret() {
    let config = FeishuConfig::for_table(
        "cli_a1".to_string(),
        "s3cr3t".to_string(),
        "https://x.feishu.cn/base/APP123?table=tbl456".to_string(),
    )
    .unwrap();
    let shown = config.masked();
    assert_eq!(shown.app_secret, "********");
    assert_eq!(FeishuConfig { app_secret: "s3cr3t".to_string(), ..shown }, config);
    assert_eq!(config.clone(), config);
}
