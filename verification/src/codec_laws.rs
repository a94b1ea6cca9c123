//! What reading and writing rows guarantee.

use vstd::prelude::*;
use crate::codec::{
    decoded, decoded_fields, encoded, encoded_members, favorite_word, timestamp_field, ParseErrorView,
    TimestampField,
};
use crate::json::{JsonView, lookup};
use crate::record::{valid_timestamps, RecordView};

verus! {

/// A row as the remote table hands it out: the remote identifier beside the
/// bag of fields.
pub open spec fn remote_row(record_id: Seq<char>, fields: JsonView) -> JsonView {
    JsonView::Object(seq![("record_id"@, JsonView::Text(record_id)), ("fields"@, fields)])
}

/// A row without fields, or whose fields lack `id`, `createdAt` or
/// `updatedAt`, is no record.
pub proof fn law_required_fields(item: JsonView)
    requires
        match item.member("fields"@) {
            Some(fields) => fields.member("id"@) is None || fields.member("createdAt"@) is None || fields.member(
                "updatedAt"@,
            ) is None,
            None => true,
        },
    ensures
        decoded(item) is Err,
{
}

/// A row that has its remote identifier, its `id` and its two timestamps is
/// a record whatever else is missing, and what is missing gets its default:
/// the title "未命名", the empty content, the tags "[]", no favourite, never
/// used.
pub proof fn law_optional_fields(item: JsonView)
    requires
        item.text_at("record_id"@) is Some,
        item.member("fields"@) is Some,
        item.member("fields"@).unwrap() is Object,
        item.member("fields"@).unwrap().text_at("id"@) is Some,
        timestamp_field(item.member("fields"@).unwrap(), TimestampField::CreatedAt) is Ok,
        timestamp_field(item.member("fields"@).unwrap(), TimestampField::UpdatedAt) is Ok,
    ensures
        decoded(item) is Ok,
        item.member("fields"@).unwrap().member("title"@) is None ==> decoded(item)->Ok_0.title == "未命名"@,
        item.member("fields"@).unwrap().member("content"@) is None ==> decoded(item)->Ok_0.content == ""@,
        item.member("fields"@).unwrap().member("tags"@) is None ==> decoded(item)->Ok_0.tags == "[]"@,
        item.member("fields"@).unwrap().member("isFavorite"@) is None ==> !decoded(item)->Ok_0.is_favorite,
        item.member("fields"@).unwrap().member("lastUsed"@) is None ==> decoded(item)->Ok_0.last_used is None,
{
}

/// What tells the names of the fields apart, their lengths and, where these
/// agree, their first letters; the two words for the favourite flag differ
/// too.
proof fn lemma_names_differ()
    ensures
        "id"@.len() == 2,
        "title"@.len() == 5,
        "content"@.len() == 7,
        "tags"@.len() == 4,
        "isFavorite"@.len() == 10,
        "createdAt"@.len() == 9,
        "updatedAt"@.len() == 9,
        "lastUsed"@.len() == 8,
        "createdAt"@[0] == 'c',
        "updatedAt"@[0] == 'u',
        "record_id"@.len() == 9,
        "fields"@.len() == 6,
        "是"@ != "否"@,
{
    reveal_strlit("id");
    reveal_strlit("title");
    reveal_strlit("content");
    reveal_strlit("tags");
    reveal_strlit("isFavorite");
    reveal_strlit("createdAt");
    reveal_strlit("updatedAt");
    reveal_strlit("lastUsed");
    reveal_strlit("record_id");
    reveal_strlit("fields");
    reveal_strlit("是");
    reveal_strlit("否");
    assert("是"@[0] != "否"@[0]);
}

/// What each name finds among the fields written for a record.
proof fn lemma_encoded_lookup(record: RecordView)
    ensures
        encoded(record).text_at("id"@) == Some(record.id),
        encoded(record).text_at("title"@) == Some(record.title),
        encoded(record).text_at("content"@) == Some(record.content),
        encoded(record).text_at("tags"@) == Some(record.tags),
        encoded(record).text_at("isFavorite"@) == Some(favorite_word(record.is_favorite)),
        encoded(record).integer_at("createdAt"@) == Some(record.created_at),
        encoded(record).integer_at("updatedAt"@) == Some(record.updated_at),
        encoded(record).member("lastUsed"@) == match record.last_used {
            Some(millis) => Some(JsonView::Integer(millis)),
            None => None,
        },
{
    lemma_names_differ();
    reveal_with_fuel(lookup, 10);
    let members = encoded_members(record);
    let always = seq![
        ("id"@, JsonView::Text(record.id)),
        ("title"@, JsonView::Text(record.title)),
        ("content"@, JsonView::Text(record.content)),
        ("tags"@, JsonView::Text(record.tags)),
        ("isFavorite"@, JsonView::Text(favorite_word(record.is_favorite))),
        ("createdAt"@, JsonView::Integer(record.created_at)),
        ("updatedAt"@, JsonView::Integer(record.updated_at)),
    ];
    assert(always.drop_last() =~= always.take(6));
    assert(always.take(6).drop_last() =~= always.take(5));
    assert(always.take(5).drop_last() =~= always.take(4));
    assert(always.take(4).drop_last() =~= always.take(3));
    assert(always.take(3).drop_last() =~= always.take(2));
    assert(always.take(2).drop_last() =~= always.take(1));
    assert(always.take(1).drop_last() =~= always.take(0));
    if record.last_used is Some {
        assert(members.drop_last() =~= always);
    }
}

/// Writing a record and reading the row back, under the remote identifier
/// that the table gave it, yields the record as it was, with that identifier.
pub proof fn law_round_trip(record: RecordView, record_id: Seq<char>)
    requires
        valid_timestamps(record),
    ensures
        decoded(remote_row(record_id, encoded(record))) == Ok::<RecordView, ParseErrorView>(
            RecordView { record_id: Some(record_id), ..record },
        ),
{
    lemma_names_differ();
    lemma_encoded_lookup(record);
    let row = remote_row(record_id, encoded(record));
    let outer = seq![("record_id"@, JsonView::Text(record_id)), ("fields"@, encoded(record))];
    assert(outer.drop_last() =~= seq![("record_id"@, JsonView::Text(record_id))]);
    reveal_with_fuel(lookup, 3);
    assert(row.member("fields"@) == Some(encoded(record)));
    assert(row.text_at("record_id"@) == Some(record_id));
    let back = decoded_fields(encoded(record), record_id);
    assert(back is Ok);
    assert(back->Ok_0 =~= RecordView { record_id: Some(record_id), ..record });
}

} // verus!
