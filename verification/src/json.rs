//! JSON documents as plain values.
//!
//! The remote service speaks JSON. Texts are parsed by `serde_json`; what
//! comes out is copied into a [`JsonValue`], which holds a document as plain
//! data, and everything else in the crate reads and builds documents in that
//! form.

use vstd::prelude::*;
use vstd::string::StringExecFns;

verus! {

/// A JSON document.
#[derive(Debug, PartialEq, Eq)]
pub enum JsonValue {
    Null,
    Bool(bool),
    /// A number that is an integer in the range of `i64`.
    Integer(i64),
    /// Any other number, by its JSON text.
    Decimal(String),
    Text(String),
    Array(Vec<JsonValue>),
    /// The members of an object. A key that occurs more than once counts
    /// with its last occurrence.
    Object(Vec<(String, JsonValue)>),
}

/// The mathematical content of a [`JsonValue`].
pub enum JsonView {
    Null,
    Bool(bool),
    Integer(i64),
    Decimal(Seq<char>),
    Text(Seq<char>),
    Array(Seq<JsonView>),
    Object(Seq<(Seq<char>, JsonView)>),
}

/// The content of a document.
pub open spec fn content(doc: JsonValue) -> JsonView
    decreases doc,
{
    match doc {
        JsonValue::Null => JsonView::Null,
        JsonValue::Bool(b) => JsonView::Bool(b),
        JsonValue::Integer(n) => JsonView::Integer(n),
        JsonValue::Decimal(t) => JsonView::Decimal(t@),
        JsonValue::Text(t) => JsonView::Text(t@),
        JsonValue::Array(items) => JsonView::Array(
            Seq::new(items@.len(), |i: int| if 0 <= i < items@.len() { content(items@[i]) } else { JsonView::Null }),
        ),
        JsonValue::Object(members) => JsonView::Object(
            Seq::new(
                members@.len(),
                |i: int|
                    if 0 <= i < members@.len() {
                        (members@[i].0@, content(members@[i].1))
                    } else {
                        (Seq::empty(), JsonView::Null)
                    },
            ),
        ),
    }
}

impl View for JsonValue {
    type V = JsonView;

    open spec fn view(&self) -> JsonView {
        content(*self)
    }
}

/// The member of a list of members that carries `key`: the last one, should
/// the key occur more than once.
pub open spec fn lookup(members: Seq<(Seq<char>, JsonView)>, key: Seq<char>) -> Option<JsonView>
    decreases members.len(),
{
    if members.len() == 0 {
        None
    } else if members.last().0 == key {
        Some(members.last().1)
    } else {
        lookup(members.drop_last(), key)
    }
}

impl JsonView {
    /// The member `key` of an object; nothing for any other document.
    pub open spec fn member(self, key: Seq<char>) -> Option<JsonView> {
        match self {
            JsonView::Object(members) => lookup(members, key),
            _ => None,
        }
    }

    /// The characters of a text; nothing for any other document.
    pub open spec fn text(self) -> Option<Seq<char>> {
        match self {
            JsonView::Text(t) => Some(t),
            _ => None,
        }
    }

    /// The value of an integer; nothing for any other document.
    pub open spec fn integer(self) -> Option<i64> {
        match self {
            JsonView::Integer(n) => Some(n),
            _ => None,
        }
    }

    /// The truth value; nothing for any other document.
    pub open spec fn boolean(self) -> Option<bool> {
        match self {
            JsonView::Bool(b) => Some(b),
            _ => None,
        }
    }

    /// The items of an array; nothing for any other document.
    pub open spec fn items(self) -> Option<Seq<JsonView>> {
        match self {
            JsonView::Array(items) => Some(items),
            _ => None,
        }
    }

    /// The text under `key`, where the document is an object that has a text
    /// there.
    pub open spec fn text_at(self, key: Seq<char>) -> Option<Seq<char>> {
        match self.member(key) {
            Some(v) => v.text(),
            None => None,
        }
    }

    /// The integer under `key`, where the document is an object that has an
    /// integer there.
    pub open spec fn integer_at(self, key: Seq<char>) -> Option<i64> {
        match self.member(key) {
            Some(v) => v.integer(),
            None => None,
        }
    }
}

/// The content of a document that may be absent.
pub open spec fn view_of(doc: Option<&JsonValue>) -> Option<JsonView> {
    match doc {
        Some(d) => Some(d@),
        None => None,
    }
}

/// The contents of a list of documents, in order.
pub open spec fn item_views(items: Seq<JsonValue>) -> Seq<JsonView> {
    Seq::new(items.len(), |i: int| if 0 <= i < items.len() { items[i]@ } else { JsonView::Null })
}

/// The contents of a list of members, in order.
pub open spec fn member_views(members: Seq<(String, JsonValue)>) -> Seq<(Seq<char>, JsonView)> {
    Seq::new(
        members.len(),
        |i: int| if 0 <= i < members.len() { (members[i].0@, members[i].1@) } else { (Seq::empty(), JsonView::Null) },
    )
}

/// The content of an array is the contents of its items.
pub proof fn lemma_array_view(doc: JsonValue)
    requires
        doc is Array,
    ensures
        doc@ == JsonView::Array(item_views(doc->Array_0@)),
{
    assert(doc@->Array_0 =~= item_views(doc->Array_0@));
}

/// The content of an object is the contents of its members.
pub proof fn lemma_object_view(doc: JsonValue)
    requires
        doc is Object,
    ensures
        doc@ == JsonView::Object(member_views(doc->Object_0@)),
{
    assert(doc@->Object_0 =~= member_views(doc->Object_0@));
}

impl JsonValue {
    /// The object with the given members.
    pub fn object(members: Vec<(String, JsonValue)>) -> (doc: JsonValue)
        ensures
            doc@ == JsonView::Object(member_views(members@)),
    {
        let doc = JsonValue::Object(members);
        proof {
            lemma_object_view(doc);
        }
        doc
    }

    /// The array with the given items.
    pub fn array(items: Vec<JsonValue>) -> (doc: JsonValue)
        ensures
            doc@ == JsonView::Array(item_views(items@)),
    {
        let doc = JsonValue::Array(items);
        proof {
            lemma_array_view(doc);
        }
        doc
    }

    /// The text with the given characters.
    pub fn text(characters: &str) -> (doc: JsonValue)
        ensures
            doc@ == JsonView::Text(characters@),
    {
        JsonValue::Text(String::from_str(characters))
    }

    /// The member `key` of an object.
    pub fn get(&self, key: &str) -> (found: Option<&JsonValue>)
        ensures
            view_of(found) == self@.member(key@),
    {
        match self {
            JsonValue::Object(members) => {
                let wanted = String::from_str(key);
                let ghost views = member_views(members@);
                proof {
                    lemma_object_view(*self);
                }
                let mut i: usize = members.len();
                proof {
                    assert(views.take(i as int) =~= views);
                }
                while i > 0
                    invariant
                        i <= members@.len(),
                        views == member_views(members@),
                        self@ == JsonView::Object(views),
                        wanted@ == key@,
                        lookup(views, key@) == lookup(views.take(i as int), key@),
                    decreases i,
                {
                    i -= 1;
                    proof {
                        assert(views.take(i + 1).drop_last() =~= views.take(i as int));
                        assert(views.take(i + 1).last() == views[i as int]);
                    }
                    if members[i].0 == wanted {
                        proof {
                            assert(views[i as int] == (members@[i as int].0@, members@[i as int].1@));
                            assert(lookup(views.take(i + 1), key@) == Some(views[i as int].1));
                        }
                        return Some(&members[i].1);
                    }
                }
                None
            },
            _ => None,
        }
    }

    /// The characters of a text.
    pub fn as_str(&self) -> (text: Option<&str>)
        ensures
            match text {
                Some(t) => self@.text() == Some(t@),
                None => self@.text() is None,
            },
    {
        match self {
            JsonValue::Text(t) => Some(t.as_str()),
            _ => None,
        }
    }

    /// The value of an integer.
    pub fn as_i64(&self) -> (n: Option<i64>)
        ensures
            n == self@.integer(),
    {
        match self {
            JsonValue::Integer(n) => Some(*n),
            _ => None,
        }
    }

    /// The truth value.
    pub fn as_bool(&self) -> (b: Option<bool>)
        ensures
            b == self@.boolean(),
    {
        match self {
            JsonValue::Bool(b) => Some(*b),
            _ => None,
        }
    }

    /// The items of an array.
    pub fn as_array(&self) -> (items: Option<&Vec<JsonValue>>)
        ensures
            match items {
                Some(list) => self@.items() == Some(item_views(list@)),
                None => self@.items() is None,
            },
    {
        match self {
            JsonValue::Array(items) => {
                proof {
                    lemma_array_view(*self);
                }
                Some(items)
            },
            _ => None,
        }
    }

    /// Whether the document is an object.
    pub fn is_object(&self) -> (b: bool)
        ensures
            b == (self@ is Object),
    {
        match self {
            JsonValue::Object(_) => true,
            _ => false,
        }
    }

    /// Whether the document is `null`.
    pub fn is_null(&self) -> (b: bool)
        ensures
            b == (self@ is Null),
    {
        match self {
            JsonValue::Null => true,
            _ => false,
        }
    }
}

impl Clone for JsonValue {
    fn clone(&self) -> (copy: Self)
        ensures
            copy@ == self@,
        decreases *self,
    {
        match self {
            JsonValue::Null => JsonValue::Null,
            JsonValue::Bool(b) => JsonValue::Bool(*b),
            JsonValue::Integer(n) => JsonValue::Integer(*n),
            JsonValue::Decimal(t) => JsonValue::Decimal(t.clone()),
            JsonValue::Text(t) => JsonValue::Text(t.clone()),
            JsonValue::Array(items) => {
                let mut copies: Vec<JsonValue> = Vec::new();
                let mut i: usize = 0;
                while i < items.len()
                    invariant
                        i <= items@.len(),
                        *self == JsonValue::Array(*items),
                        copies@.len() == i,
                        forall|k: int| 0 <= k < i ==> (#[trigger] copies@[k])@ == items@[k]@,
                    decreases items@.len() - i,
                {
                    proof {
                        vstd::std_specs::vec::axiom_vec_index_decreases(*items, i as int);
                        assert(decreases_to!(*self => self->Array_0));
                    }
                    let copy = items[i].clone();
                    copies.push(copy);
                    i += 1;
                }
                proof {
                    lemma_array_view(*self);
                    assert(item_views(copies@) =~= item_views(items@));
                }
                JsonValue::array(copies)
            },
            JsonValue::Object(members) => {
                let mut copies: Vec<(String, JsonValue)> = Vec::new();
                let mut i: usize = 0;
                while i < members.len()
                    invariant
                        i <= members@.len(),
                        *self == JsonValue::Object(*members),
                        copies@.len() == i,
                        forall|k: int|
                            0 <= k < i ==> (#[trigger] copies@[k]).0@ == members@[k].0@ && copies@[k].1@
                                == members@[k].1@,
                    decreases members@.len() - i,
                {
                    proof {
                        vstd::std_specs::vec::axiom_vec_index_decreases(*members, i as int);
                        assert(decreases_to!(*self => self->Object_0));
                    }
                    let copy = members[i].1.clone();
                    copies.push((members[i].0.clone(), copy));
                    i += 1;
                }
                proof {
                    lemma_object_view(*self);
                    assert(member_views(copies@) =~= member_views(members@));
                }
                JsonValue::object(copies)
            },
        }
    }
}

/// Copies a list of documents.
pub fn copy_items(items: &Vec<JsonValue>) -> (copies: Vec<JsonValue>)
    ensures
        item_views(copies@) == item_views(items@),
{
    let mut copies: Vec<JsonValue> = Vec::new();
    let mut i: usize = 0;
    while i < items.len()
        invariant
            i <= items@.len(),
            copies@.len() == i,
            forall|k: int| 0 <= k < i ==> (#[trigger] copies@[k])@ == items@[k]@,
        decreases items@.len() - i,
    {
        copies.push(items[i].clone());
        i += 1;
    }
    proof {
        assert(item_views(copies@) =~= item_views(items@));
    }
    copies
}

/// `serde_json::Value`, as a value that is only passed on.
#[verifier::external_type_specification]
#[verifier::external_body]
pub struct ExSerdeValue(serde_json::Value);

/// What `serde_json::from_str` makes of a text: the document it holds, or,
/// where the text is not one JSON document, the words of the parser's error.
pub uninterp spec fn parsed_json(text: Seq<char>) -> Result<JsonView, Seq<char>>;

/// What a `serde_json::Value` holds. A number is `Integer` where
/// `Number::as_i64` gives a value and `Decimal`, with the number's own text,
/// otherwise; the members of an object come in the order of its map.
pub uninterp spec fn value_content(value: serde_json::Value) -> JsonView;

/// Copies a `serde_json::Value` into a [`JsonValue`], variant by variant,
/// using `Number::as_i64` and the `Display` of `Number` for numbers. The
/// content of the copy is taken to be what the value holds.
#[verifier::external_body]
fn copy_value(value: &serde_json::Value) -> (doc: JsonValue)
    ensures
        doc@ == value_content(*value),
{
    match value {
        serde_json::Value::Null => JsonValue::Null,
        serde_json::Value::Bool(b) => JsonValue::Bool(*b),
        serde_json::Value::Number(n) => match n.as_i64() {
            Some(i) => JsonValue::Integer(i),
            None => JsonValue::Decimal(n.to_string()),
        },
        serde_json::Value::String(s) => JsonValue::Text(s.clone()),
        serde_json::Value::Array(a) => JsonValue::Array(a.iter().map(copy_value).collect()),
        serde_json::Value::Object(m) => JsonValue::Object(
            m.iter().map(|(k, v)| (k.clone(), copy_value(v))).collect(),
        ),
    }
}

/// Parses a text with `serde_json::from_str`, and hands out an error as the
/// words that its `Display` gives. Taken on trust: whether the parser
/// succeeds, and with which document or which words, depends on the text
/// alone.
#[verifier::external_body]
fn parse_value(text: &str) -> (r: Result<serde_json::Value, String>)
    ensures
        match r {
            Ok(value) => parsed_json(text@) == Ok::<JsonView, Seq<char>>(value_content(value)),
            Err(words) => parsed_json(text@) == Err::<JsonView, Seq<char>>(words@),
        },
{
    serde_json::from_str::<serde_json::Value>(text).map_err(|e| e.to_string())
}

/// The content of the outcome of reading a text.
pub open spec fn parse_view(outcome: Result<JsonValue, String>) -> Result<JsonView, Seq<char>> {
    match outcome {
        Ok(doc) => Ok(doc@),
        Err(words) => Err(words@),
    }
}

/// Reads a JSON text. Fails, with the parser's words, where the text is not
/// one JSON document.
pub fn parse_json(text: &str) -> (outcome: Result<JsonValue, String>)
    ensures
        parse_view(outcome) == parsed_json(text@),
{
    match parse_value(text) {
        Ok(value) => Ok(copy_value(&value)),
        Err(words) => Err(words),
    }
}

} // verus!
