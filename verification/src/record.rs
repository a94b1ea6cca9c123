//! The unit of synchronisation.

use vstd::prelude::*;
use crate::timestamp::{is_valid_millis, representable_millis};

verus! {

/// A prompt as both sides store it.
///
/// `id` is chosen by the client, never changes, and is the key by which a
/// local and a remote record are recognised as the same one. Timestamps are
/// milliseconds since the Unix epoch; `updated_at` alone decides which of
/// two versions is the newer. `record_id` is the identifier the remote table
/// gave the record, and is unknown for a record that only exists locally.
#[derive(Debug, PartialEq, Eq)]
pub struct PromptRecord {
    pub id: String,
    pub title: String,
    pub content: String,
    /// The labels, kept as the text of a JSON array.
    pub tags: String,
    pub is_favorite: bool,
    pub created_at: i64,
    pub updated_at: i64,
    pub last_used: Option<i64>,
    pub record_id: Option<String>,
}

/// The content of a [`PromptRecord`].
pub struct RecordView {
    pub id: Seq<char>,
    pub title: Seq<char>,
    pub content: Seq<char>,
    pub tags: Seq<char>,
    pub is_favorite: bool,
    pub created_at: i64,
    pub updated_at: i64,
    pub last_used: Option<i64>,
    pub record_id: Option<Seq<char>>,
}

/// The content of an optional text.
pub open spec fn text_view(text: Option<String>) -> Option<Seq<char>> {
    match text {
        Some(t) => Some(t@),
        None => None,
    }
}

impl View for PromptRecord {
    type V = RecordView;

    open spec fn view(&self) -> RecordView {
        RecordView {
            id: self.id@,
            title: self.title@,
            content: self.content@,
            tags: self.tags@,
            is_favorite: self.is_favorite,
            created_at: self.created_at,
            updated_at: self.updated_at,
            last_used: self.last_used,
            record_id: text_view(self.record_id),
        }
    }
}

/// The contents of a sequence of records, in order.
pub open spec fn record_views(records: Seq<PromptRecord>) -> Seq<RecordView> {
    records.map_values(|r: PromptRecord| r@)
}

/// A copy of an optional text.
pub fn clone_text(text: &Option<String>) -> (copy: Option<String>)
    ensures
        copy == *text,
{
    match text {
        Some(t) => Some(t.clone()),
        None => None,
    }
}

/// Each timestamp of the record stands for a moment.
pub open spec fn valid_timestamps(record: RecordView) -> bool {
    &&& representable_millis(record.created_at)
    &&& representable_millis(record.updated_at)
    &&& match record.last_used {
        Some(millis) => representable_millis(millis),
        None => true,
    }
}

impl PromptRecord {
    /// Whether each timestamp of the record stands for a moment.
    pub fn has_valid_timestamps(&self) -> (ok: bool)
        ensures
            ok == valid_timestamps(self@),
    {
        is_valid_millis(self.created_at) && is_valid_millis(self.updated_at) && match self.last_used {
            Some(millis) => is_valid_millis(millis),
            None => true,
        }
    }
}

impl Clone for PromptRecord {
    fn clone(&self) -> (copy: Self)
        ensures
            copy == *self,
    {
        PromptRecord {
            id: self.id.clone(),
            title: self.title.clone(),
            content: self.content.clone(),
            tags: self.tags.clone(),
            is_favorite: self.is_favorite,
            created_at: self.created_at,
            updated_at: self.updated_at,
            last_used: self.last_used,
            record_id: clone_text(&self.record_id),
        }
    }
}

} // verus!
