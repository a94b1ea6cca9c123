//! Records as the remote table holds them.
//!
//! A row of the table is a bag of named fields. Texts go there as texts, the
//! favourite flag as one of two words, because the column is a single choice
//! and no truth value, and timestamps as whole milliseconds. Reading a row is
//! forgiving: only the id and the two timestamps of creation and change must
//! be there.

use vstd::prelude::*;
use vstd::string::StringExecFns;
use crate::json::{JsonValue, JsonView, member_views, lemma_object_view};
use crate::record::{PromptRecord, RecordView};
use crate::timestamp::{representable_millis, is_valid_millis};

verus! {

/// A timestamp of a record.
#[derive(Clone, Copy, Debug, PartialEq, Eq, Structural)]
pub enum TimestampField {
    CreatedAt,
    UpdatedAt,
    LastUsed,
}

impl TimestampField {
    /// The name of the field in a row.
    pub open spec fn key(self) -> Seq<char> {
        match self {
            TimestampField::CreatedAt => "createdAt"@,
            TimestampField::UpdatedAt => "updatedAt"@,
            TimestampField::LastUsed => "lastUsed"@,
        }
    }

    /// The name of the field in a row.
    pub fn name(self) -> (name: &'static str)
        ensures
            name@ == self.key(),
    {
        match self {
            TimestampField::CreatedAt => "createdAt",
            TimestampField::UpdatedAt => "updatedAt",
            TimestampField::LastUsed => "lastUsed",
        }
    }
}

/// Why a row of the remote table is no record.
#[derive(Debug, PartialEq, Eq)]
pub enum RecordParseError {
    /// The row has no remote identifier, or one that is no text.
    MissingRecordId,
    /// The row with this remote identifier has no bag of fields.
    MissingFields { record_id: String },
    /// The field `id` is absent or no text.
    MissingId,
    /// A timestamp that must be there is absent.
    MissingTimestamp(TimestampField),
    /// A timestamp is no integer but this.
    NotAnInteger(TimestampField, JsonValue),
    /// A timestamp is a count of milliseconds that stands for no moment.
    OutOfRange(TimestampField, i64),
}

/// The content of a [`RecordParseError`].
pub enum ParseErrorView {
    MissingRecordId,
    MissingFields { record_id: Seq<char> },
    MissingId,
    MissingTimestamp(TimestampField),
    NotAnInteger(TimestampField, JsonView),
    OutOfRange(TimestampField, i64),
}

impl View for RecordParseError {
    type V = ParseErrorView;

    open spec fn view(&self) -> ParseErrorView {
        match self {
            RecordParseError::MissingRecordId => ParseErrorView::MissingRecordId,
            RecordParseError::MissingFields { record_id } => ParseErrorView::MissingFields { record_id: record_id@ },
            RecordParseError::MissingId => ParseErrorView::MissingId,
            RecordParseError::MissingTimestamp(which) => ParseErrorView::MissingTimestamp(*which),
            RecordParseError::NotAnInteger(which, value) => ParseErrorView::NotAnInteger(*which, value@),
            RecordParseError::OutOfRange(which, millis) => ParseErrorView::OutOfRange(*which, *millis),
        }
    }
}

/// The word under which the favourite flag is stored.
pub open spec fn favorite_word(is_favorite: bool) -> Seq<char> {
    if is_favorite {
        "是"@
    } else {
        "否"@
    }
}

/// The fields of a record, in the order in which they are written. A record
/// that was never used has no field `lastUsed`.
pub open spec fn encoded_members(record: RecordView) -> Seq<(Seq<char>, JsonView)> {
    let always = seq![
        ("id"@, JsonView::Text(record.id)),
        ("title"@, JsonView::Text(record.title)),
        ("content"@, JsonView::Text(record.content)),
        ("tags"@, JsonView::Text(record.tags)),
        ("isFavorite"@, JsonView::Text(favorite_word(record.is_favorite))),
        ("createdAt"@, JsonView::Integer(record.created_at)),
        ("updatedAt"@, JsonView::Integer(record.updated_at)),
    ];
    match record.last_used {
        Some(millis) => always.push(("lastUsed"@, JsonView::Integer(millis))),
        None => always,
    }
}

/// The bag of fields that stands for a record.
pub open spec fn encoded(record: RecordView) -> JsonView {
    JsonView::Object(encoded_members(record))
}

/// A timestamp read from a bag of fields.
pub open spec fn timestamp_field(fields: JsonView, which: TimestampField) -> Result<i64, ParseErrorView> {
    match fields.member(which.key()) {
        None => Err(ParseErrorView::MissingTimestamp(which)),
        Some(value) => match value.integer() {
            None => Err(ParseErrorView::NotAnInteger(which, value)),
            Some(millis) => if representable_millis(millis) {
                Ok(millis)
            } else {
                Err(ParseErrorView::OutOfRange(which, millis))
            },
        },
    }
}

/// A text, or what stands in for it where it is missing.
pub open spec fn text_or(text: Option<Seq<char>>, fallback: Seq<char>) -> Seq<char> {
    match text {
        Some(t) => t,
        None => fallback,
    }
}

/// The record that a bag of fields stands for, under a remote identifier.
pub open spec fn decoded_fields(fields: JsonView, record_id: Seq<char>) -> Result<RecordView, ParseErrorView> {
    match fields.text_at("id"@) {
        None => Err(ParseErrorView::MissingId),
        Some(id) => match timestamp_field(fields, TimestampField::CreatedAt) {
            Err(e) => Err(e),
            Ok(created_at) => match timestamp_field(fields, TimestampField::UpdatedAt) {
                Err(e) => Err(e),
                Ok(updated_at) => Ok(
                    RecordView {
                        id,
                        title: text_or(fields.text_at("title"@), "未命名"@),
                        content: text_or(fields.text_at("content"@), ""@),
                        tags: text_or(fields.text_at("tags"@), "[]"@),
                        is_favorite: fields.text_at("isFavorite"@) == Some("是"@),
                        created_at,
                        updated_at,
                        last_used: match timestamp_field(fields, TimestampField::LastUsed) {
                            Ok(millis) => Some(millis),
                            Err(_) => None,
                        },
                        record_id: Some(record_id),
                    },
                ),
            },
        },
    }
}

/// The record that a row of the remote table stands for.
pub open spec fn decoded(item: JsonView) -> Result<RecordView, ParseErrorView> {
    match item.text_at("record_id"@) {
        None => Err(ParseErrorView::MissingRecordId),
        Some(record_id) => match item.member("fields"@) {
            Some(fields) => if fields is Object {
                decoded_fields(fields, record_id)
            } else {
                Err(ParseErrorView::MissingFields { record_id })
            },
            None => Err(ParseErrorView::MissingFields { record_id }),
        },
    }
}

/// The content of the outcome of reading a row.
pub open spec fn outcome_view(outcome: Result<PromptRecord, RecordParseError>) -> Result<
    RecordView,
    ParseErrorView,
> {
    match outcome {
        Ok(record) => Ok(record@),
        Err(e) => Err(e@),
    }
}

/// The content of the outcome of reading a timestamp.
pub open spec fn timestamp_view(outcome: Result<i64, RecordParseError>) -> Result<i64, ParseErrorView> {
    match outcome {
        Ok(millis) => Ok(millis),
        Err(e) => Err(e@),
    }
}

fn read_text(fields: &JsonValue, key: &str) -> (text: Option<String>)
    ensures
        match text {
            Some(t) => fields@.text_at(key@) == Some(t@),
            None => fields@.text_at(key@) is None,
        },
{
    match fields.get(key) {
        Some(value) => match value.as_str() {
            Some(t) => Some(String::from_str(t)),
            None => None,
        },
        None => None,
    }
}

fn read_text_or(fields: &JsonValue, key: &str, fallback: &str) -> (text: String)
    ensures
        text@ == text_or(fields@.text_at(key@), fallback@),
{
    match read_text(fields, key) {
        Some(t) => t,
        None => String::from_str(fallback),
    }
}

fn read_timestamp(fields: &JsonValue, which: TimestampField) -> (r: Result<i64, RecordParseError>)
    ensures
        timestamp_view(r) == timestamp_field(fields@, which),
{
    match fields.get(which.name()) {
        None => Err(RecordParseError::MissingTimestamp(which)),
        Some(value) => match value.as_i64() {
            None => Err(RecordParseError::NotAnInteger(which, value.clone())),
            Some(millis) => if is_valid_millis(millis) {
                Ok(millis)
            } else {
                Err(RecordParseError::OutOfRange(which, millis))
            },
        },
    }
}

/// Reads a record from a row of the remote table.
///
/// The row must carry its remote identifier under `record_id` and an object
/// under `fields`, and the fields must hold a text `id` and the integers
/// `createdAt` and `updatedAt`, each a count of milliseconds that stands for
/// a moment. `title`, `content` and `tags` fall back to "未命名", the empty
/// text and "[]"; the record is a favourite exactly where `isFavorite` is
/// the text "是"; `lastUsed` is taken where it can be read and left out
/// where it cannot.
pub fn parse_record_from_feishu(item: &JsonValue) -> (outcome: Result<PromptRecord, RecordParseError>)
    ensures
        outcome_view(outcome) == decoded(item@),
{
    let record_id = match read_text(item, "record_id") {
        Some(t) => t,
        None => { return Err(RecordParseError::MissingRecordId); },
    };
    let fields = match item.get("fields") {
        Some(f) => f,
        None => { return Err(RecordParseError::MissingFields { record_id }); },
    };
    if !fields.is_object() {
        return Err(RecordParseError::MissingFields { record_id });
    }
    let id = match read_text(fields, "id") {
        Some(t) => t,
        None => { return Err(RecordParseError::MissingId); },
    };
    let title = read_text_or(fields, "title", "未命名");
    let content = read_text_or(fields, "content", "");
    let tags = read_text_or(fields, "tags", "[]");
    let is_favorite = match read_text(fields, "isFavorite") {
        Some(word) => word == String::from_str("是"),
        None => false,
    };
    let created_at = match read_timestamp(fields, TimestampField::CreatedAt) {
        Ok(millis) => millis,
        Err(e) => { return Err(e); },
    };
    let updated_at = match read_timestamp(fields, TimestampField::UpdatedAt) {
        Ok(millis) => millis,
        Err(e) => { return Err(e); },
    };
    let last_used = match read_timestamp(fields, TimestampField::LastUsed) {
        Ok(millis) => Some(millis),
        Err(_) => None,
    };
    Ok(
        PromptRecord {
            id,
            title,
            content,
            tags,
            is_favorite,
            created_at,
            updated_at,
            last_used,
            record_id: Some(record_id),
        },
    )
}

/// Writes a record as the bag of fields that the remote table takes.
///
/// `id`, `title`, `content` and `tags` go as texts, the favourite flag as "是"
/// or "否", `created_at` and `updated_at` as integers, and `last_used` as an
/// integer where the record has one; a record without it gets no such field,
/// so that an update leaves the remote value alone.
pub fn encode_record(record: &PromptRecord) -> (fields: JsonValue)
    ensures
        fields@ == encoded(record@),
{
    let mut members: Vec<(String, JsonValue)> = Vec::new();
    members.push((String::from_str("id"), JsonValue::Text(record.id.clone())));
    members.push((String::from_str("title"), JsonValue::Text(record.title.clone())));
    members.push((String::from_str("content"), JsonValue::Text(record.content.clone())));
    members.push((String::from_str("tags"), JsonValue::Text(record.tags.clone())));
    let word = if record.is_favorite {
        String::from_str("是")
    } else {
        String::from_str("否")
    };
    members.push((String::from_str("isFavorite"), JsonValue::Text(word)));
    members.push((String::from_str("createdAt"), JsonValue::Integer(record.created_at)));
    members.push((String::from_str("updatedAt"), JsonValue::Integer(record.updated_at)));
    match record.last_used {
        Some(millis) => {
            members.push((String::from_str("lastUsed"), JsonValue::Integer(millis)));
        },
        None => {},
    }
    let fields = JsonValue::Object(members);
    proof {
        lemma_object_view(fields);
        assert(member_views(members@) =~= encoded_members(record@));
    }
    fields
}

} // verus!
