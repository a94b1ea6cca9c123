//! Writing records to the remote table, a batch at a time.
//!
//! New records go in one request, changed records in another; a changed
//! record names the row to overwrite by the remote identifier. Neither
//! request is sent for an empty batch.

use vstd::prelude::*;
use vstd::string::StringExecFns;
use crate::codec::{encode_record, encoded};
use crate::envelope::{complain, complaint, envelope_of, read_envelope};
use crate::error::{api_failure, status_failure, ErrorView, FeishuSyncError, Operation};
use crate::json::{copy_items, item_views, member_views, parse_json, parsed_json, JsonValue, JsonView};
use crate::planner::update_views;
use crate::record::{record_views, PromptRecord, RecordView};
use crate::token::{said, said_in};

verus! {

/// The address to which new records are sent.
pub open spec fn create_url_text(app_token: Seq<char>, table_id: Seq<char>) -> Seq<char> {
    "https://open.feishu.cn/open-apis/bitable/v1/apps/"@ + app_token + "/tables/"@ + table_id
        + "/records/batch_create"@
}

/// The address to which changed records are sent.
pub open spec fn update_url_text(app_token: Seq<char>, table_id: Seq<char>) -> Seq<char> {
    "https://open.feishu.cn/open-apis/bitable/v1/apps/"@ + app_token + "/tables/"@ + table_id
        + "/records/batch_update"@
}

/// Builds the address to which new records are sent.
pub fn create_url(app_token: &str, table_id: &str) -> (url: String)
    ensures
        url@ == create_url_text(app_token@, table_id@),
{
    String::from_str("https://open.feishu.cn/open-apis/bitable/v1/apps/").concat(app_token).concat("/tables/").concat(
        table_id,
    ).concat("/records/batch_create")
}

/// Builds the address to which changed records are sent.
pub fn update_url(app_token: &str, table_id: &str) -> (url: String)
    ensures
        url@ == update_url_text(app_token@, table_id@),
{
    String::from_str("https://open.feishu.cn/open-apis/bitable/v1/apps/").concat(app_token).concat("/tables/").concat(
        table_id,
    ).concat("/records/batch_update")
}

/// A new record as it is sent: its fields.
pub open spec fn create_item(record: RecordView) -> JsonView {
    JsonView::Object(seq![("fields"@, encoded(record))])
}

/// A changed record as it is sent: the remote identifier of the row, and the
/// fields.
pub open spec fn update_item(update: (Seq<char>, RecordView)) -> JsonView {
    JsonView::Object(seq![("record_id"@, JsonView::Text(update.0)), ("fields"@, encoded(update.1))])
}

/// A batch as it is sent: its items under `records`.
pub open spec fn batch(items: Seq<JsonView>) -> JsonView {
    JsonView::Object(seq![("records"@, JsonView::Array(items))])
}

/// The request that creates the given records.
pub open spec fn create_request(records: Seq<RecordView>) -> JsonView {
    batch(records.map_values(|r: RecordView| create_item(r)))
}

/// The request that overwrites rows with the given records.
pub open spec fn update_request(updates: Seq<(Seq<char>, RecordView)>) -> JsonView {
    batch(updates.map_values(|u: (Seq<char>, RecordView)| update_item(u)))
}

fn batch_of(items: Vec<JsonValue>) -> (body: JsonValue)
    ensures
        body@ == batch(item_views(items@)),
{
    let ghost views = item_views(items@);
    let mut members: Vec<(String, JsonValue)> = Vec::new();
    members.push((String::from_str("records"), JsonValue::array(items)));
    proof {
        assert(member_views(members@) =~= seq![("records"@, JsonView::Array(views))]);
    }
    JsonValue::object(members)
}

/// Builds the request that creates the given records, or nothing where there
/// are none to create.
pub fn create_request_body(records: &Vec<PromptRecord>) -> (body: Option<JsonValue>)
    ensures
        match body {
            Some(b) => records@.len() > 0 && b@ == create_request(record_views(records@)),
            None => records@.len() == 0,
        },
{
    if records.len() == 0 {
        return None;
    }
    let ghost wanted = record_views(records@).map_values(|r: RecordView| create_item(r));
    let mut items: Vec<JsonValue> = Vec::new();
    let mut i: usize = 0;
    while i < records.len()
        invariant
            i <= records@.len(),
            wanted == record_views(records@).map_values(|r: RecordView| create_item(r)),
            item_views(items@) == wanted.take(i as int),
        decreases records@.len() - i,
    {
        let ghost before = item_views(items@);
        let mut members: Vec<(String, JsonValue)> = Vec::new();
        members.push((String::from_str("fields"), encode_record(&records[i])));
        proof {
            assert(member_views(members@) =~= seq![("fields"@, encoded(records@[i as int]@))]);
        }
        items.push(JsonValue::object(members));
        proof {
            assert(item_views(items@) =~= before.push(create_item(records@[i as int]@)));
            assert(wanted.take(i + 1) =~= wanted.take(i as int).push(wanted[i as int]));
        }
        i += 1;
    }
    proof {
        assert(wanted.take(records@.len() as int) =~= wanted);
    }
    Some(batch_of(items))
}

/// Builds the request that overwrites rows with the given records, or nothing
/// where there are none to overwrite.
pub fn update_request_body(updates: &Vec<(String, PromptRecord)>) -> (body: Option<JsonValue>)
    ensures
        match body {
            Some(b) => updates@.len() > 0 && b@ == update_request(update_views(updates@)),
            None => updates@.len() == 0,
        },
{
    if updates.len() == 0 {
        return None;
    }
    let ghost wanted = update_views(updates@).map_values(|u: (Seq<char>, RecordView)| update_item(u));
    let mut items: Vec<JsonValue> = Vec::new();
    let mut i: usize = 0;
    while i < updates.len()
        invariant
            i <= updates@.len(),
            wanted == update_views(updates@).map_values(|u: (Seq<char>, RecordView)| update_item(u)),
            item_views(items@) == wanted.take(i as int),
        decreases updates@.len() - i,
    {
        let ghost before = item_views(items@);
        let mut members: Vec<(String, JsonValue)> = Vec::new();
        members.push((String::from_str("record_id"), JsonValue::text(updates[i].0.as_str())));
        members.push((String::from_str("fields"), encode_record(&updates[i].1)));
        proof {
            assert(member_views(members@) =~= seq![
                ("record_id"@, JsonView::Text(updates@[i as int].0@)),
                ("fields"@, encoded(updates@[i as int].1@)),
            ]);
        }
        items.push(JsonValue::object(members));
        proof {
            assert(item_views(items@) =~= before.push(update_item((updates@[i as int].0@, updates@[i as int].1@))));
            assert(wanted.take(i + 1) =~= wanted.take(i as int).push(wanted[i as int]));
        }
        i += 1;
    }
    proof {
        assert(wanted.take(updates@.len() as int) =~= wanted);
    }
    Some(batch_of(items))
}

/// The rows that the service reports as overwritten.
#[derive(Debug, PartialEq, Eq)]
pub struct UpdateRecordsResponse {
    pub records: Vec<JsonValue>,
}

impl View for UpdateRecordsResponse {
    type V = Seq<JsonView>;

    open spec fn view(&self) -> Seq<JsonView> {
        item_views(self.records@)
    }
}

/// The status code of an answer to a request that creates records; an answer
/// without one counts as the code -1.
pub open spec fn create_code(answer: JsonView) -> i64 {
    match answer.integer_at("code"@) {
        Some(code) => code,
        None => -1i64,
    }
}

/// What an answer to a request that created `submitted` records amounts to:
/// the failure that its status code stands for, or, where the code is zero,
/// the number of records submitted.
pub open spec fn create_outcome(answer: JsonView, submitted: int) -> Result<i32, ErrorView> {
    if create_code(answer) != 0 {
        Err(status_failure(Operation::WriteRecords, create_code(answer), said(answer)))
    } else {
        Ok(submitted as i32)
    }
}

/// What is said of an answer that lists more rows than can be counted.
pub open spec fn too_many_records_message() -> Seq<char> {
    "too many entries in field `records`"@
}

/// The rows that the data of an answer reports as overwritten.
pub open spec fn overwritten_in(data: JsonView) -> Option<Seq<JsonView>> {
    match data.member("records"@) {
        Some(rows) => rows.items(),
        None => None,
    }
}

/// What an answer to a request that overwrote rows amounts to. An answer
/// that is no envelope fails as such; a status code other than zero is the
/// failure it stands for; otherwise the number of rows that the answer lists
/// counts, which must fit 32 bits, and an answer without data counts as none.
pub open spec fn update_outcome(answer: JsonView) -> Result<i32, ErrorView> {
    match envelope_of(answer) {
        Err(e) => Err(e),
        Ok(envelope) => if envelope.code != 0 {
            Err(status_failure(Operation::WriteRecords, envelope.code as i64, envelope.msg))
        } else {
            match envelope.data {
                None => Ok(0i32),
                Some(data) => match overwritten_in(data) {
                    Some(rows) => if rows.len() <= i32::MAX {
                        Ok(rows.len() as i32)
                    } else {
                        Err(ErrorView::JsonError(too_many_records_message()))
                    },
                    None => Err(complaint(data, "records"@)),
                },
            }
        },
    }
}

/// The content of the outcome of a write.
pub open spec fn count_view(outcome: Result<i32, FeishuSyncError>) -> Result<i32, ErrorView> {
    match outcome {
        Ok(n) => Ok(n),
        Err(e) => Err(e@),
    }
}

/// Reads the answer to a request that created `submitted` records.
pub fn created_count(answer: &JsonValue, submitted: usize) -> (outcome: Result<i32, FeishuSyncError>)
    requires
        submitted <= i32::MAX,
    ensures
        count_view(outcome) == create_outcome(answer@, submitted as int),
{
    let code = match answer.get("code") {
        Some(value) => match value.as_i64() {
            Some(code) => code,
            None => -1,
        },
        None => -1,
    };
    if code != 0 {
        let words = said_in(answer);
        Err(api_failure(Operation::WriteRecords, code, words.as_str()))
    } else {
        Ok(submitted as i32)
    }
}

/// Reads the rows that the data of an answer reports as overwritten, if it
/// reports any.
pub fn read_overwritten(data: &JsonValue) -> (rows: Option<UpdateRecordsResponse>)
    ensures
        match rows {
            Some(r) => overwritten_in(data@) == Some(r@),
            None => overwritten_in(data@) is None,
        },
{
    match data.get("records") {
        Some(rows) => match rows.as_array() {
            Some(list) => Some(UpdateRecordsResponse { records: copy_items(list) }),
            None => None,
        },
        None => None,
    }
}

/// Reads the answer to a request that overwrote rows.
pub fn updated_count(answer: &JsonValue) -> (outcome: Result<i32, FeishuSyncError>)
    ensures
        count_view(outcome) == update_outcome(answer@),
{
    let envelope = match read_envelope(answer) {
        Ok(envelope) => envelope,
        Err(e) => { return Err(e); },
    };
    if envelope.code != 0 {
        return Err(api_failure(Operation::WriteRecords, envelope.code as i64, envelope.msg.as_str()));
    }
    match &envelope.data {
        None => Ok(0),
        Some(data) => match read_overwritten(data) {
            Some(rows) => if rows.records.len() <= 2147483647 {
                Ok(rows.records.len() as i32)
            } else {
                Err(FeishuSyncError::JsonError(String::from_str("too many entries in field `records`")))
            },
            None => Err(complain(data, "records")),
        },
    }
}

/// Reads the text that came back on a request that created `submitted`
/// records. A text that is no JSON fails as such, with the parser's words.
pub fn create_result(text: &str, submitted: usize) -> (outcome: Result<i32, FeishuSyncError>)
    requires
        submitted <= i32::MAX,
    ensures
        count_view(outcome) == match parsed_json(text@) {
            Ok(answer) => create_outcome(answer, submitted as int),
            Err(words) => Err(ErrorView::JsonError(words)),
        },
{
    match parse_json(text) {
        Ok(answer) => created_count(&answer, submitted),
        Err(words) => Err(FeishuSyncError::JsonError(words)),
    }
}

/// Reads the text that came back on a request that overwrote rows. A text
/// that is no JSON fails as such, with the parser's words.
pub fn update_result(text: &str) -> (outcome: Result<i32, FeishuSyncError>)
    ensures
        count_view(outcome) == match parsed_json(text@) {
            Ok(answer) => update_outcome(answer),
            Err(words) => Err(ErrorView::JsonError(words)),
        },
{
    match parse_json(text) {
        Ok(answer) => updated_count(&answer),
        Err(words) => Err(FeishuSyncError::JsonError(words)),
    }
}

} // verus!
