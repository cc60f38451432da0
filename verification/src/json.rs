//! JSON objects: their members as plain values, their text by key or in a given
//! order, and the flags read back out of a text.

use vstd::prelude::*;

verus! {

/// What one member of a JSON object holds.
pub enum JsonNode {
    Null,
    Flag(bool),
    Number(u64),
    Text(Seq<char>),
    Texts(Seq<Seq<char>>),
    Object(Map<Seq<char>, JsonNode>),
    /// A value of another kind, as it is.
    Other(serde_json::Value),
}

/// The crate's own JSON value; carried through and never looked into.
#[verifier::external_type_specification]
#[verifier::external_body]
pub struct ExJsonValue(serde_json::Value);

/// The members of a JSON object, by key.
#[verifier::external_type_specification]
#[verifier::external_body]
#[verifier::reject_recursive_types(K)]
#[verifier::reject_recursive_types(V)]
pub struct ExJsonMap<K, V>(serde_json::Map<K, V>);

/// The members that a JSON object holds.
pub uninterp spec fn object_members(
    object: serde_json::Map<String, serde_json::Value>,
) -> Map<Seq<char>, JsonNode>;

/// The compact JSON text of an object with the given members.
pub uninterp spec fn rendered(members: Map<Seq<char>, JsonNode>) -> Seq<char>;

/// The compact JSON text of an object with the given fields, in their order.
pub uninterp spec fn rendered_in_order(fields: Seq<(Seq<char>, JsonNode)>) -> Seq<char>;

/// The boolean that the member `key` of the JSON object `text` holds; nothing
/// where `text` is no JSON, no object, or has no such boolean member.
pub uninterp spec fn parsed_flag(text: Seq<char>, key: Seq<char>) -> Option<bool>;

/// The members of the empty object.
pub open spec fn no_members() -> Map<Seq<char>, JsonNode> {
    Map::empty()
}

/// Every member is null, a boolean, a number, a text or a list of texts.
pub open spec fn flat(members: Map<Seq<char>, JsonNode>) -> bool {
    forall|key: Seq<char>| #[trigger]
        members.contains_key(key) ==> !(members[key] is Object || members[key] is Other)
}

/// The boolean that `members` holds under `key`.
pub open spec fn flag_member(members: Map<Seq<char>, JsonNode>, key: Seq<char>) -> Option<bool> {
    if members.contains_key(key) {
        match members[key] {
            JsonNode::Flag(flag) => Some(flag),
            _ => None,
        }
    } else {
        None
    }
}

/// A value to put into a JSON object.
pub enum JsonInput {
    Null,
    Flag(bool),
    Number(u64),
    Text(String),
    Texts(Vec<String>),
    Object(serde_json::Map<String, serde_json::Value>),
}

/// The texts of a list of strings.
pub open spec fn texts(items: Seq<String>) -> Seq<Seq<char>> {
    Seq::new(items.len(), |i: int| items[i]@)
}

impl JsonInput {
    pub open spec fn node(self) -> JsonNode {
        match self {
            JsonInput::Null => JsonNode::Null,
            JsonInput::Flag(flag) => JsonNode::Flag(flag),
            JsonInput::Number(number) => JsonNode::Number(number),
            JsonInput::Text(text) => JsonNode::Text(text@),
            JsonInput::Texts(items) => JsonNode::Texts(texts(items@)),
            JsonInput::Object(object) => JsonNode::Object(object_members(object)),
        }
    }
}

/// The fields of a JSON object that is written in their order.
pub open spec fn field_views(fields: Seq<(String, JsonInput)>) -> Seq<(Seq<char>, JsonNode)> {
    Seq::new(fields.len(), |i: int| (fields[i].0@, fields[i].1.node()))
}

/// No fields.
pub open spec fn no_fields() -> Seq<(Seq<char>, JsonNode)> {
    Seq::empty()
}

/// There is a field under `key`.
pub open spec fn has_field(fields: Seq<(Seq<char>, JsonNode)>, key: Seq<char>) -> bool {
    exists|i: int| 0 <= i < fields.len() && (#[trigger] fields[i]).0 == key
}

/// `serde_json::Map::new` makes an object without members.
#[verifier::external_body]
pub(crate) fn empty_object() -> (object: serde_json::Map<String, serde_json::Value>)
    ensures
        object_members(object) == no_members(),
{
    serde_json::Map::new()
}

/// `serde_json::Map::insert` sets the member under a key, whether or not the
/// object had one there, and leaves every other member as it was.
#[verifier::external_body]
pub(crate) fn put(
    object: &mut serde_json::Map<String, serde_json::Value>,
    key: &str,
    value: JsonInput,
)
    ensures
        object_members(*final(object)) == object_members(*old(object)).insert(key@, value.node()),
{
    let value = match value {
        JsonInput::Null => serde_json::Value::Null,
        JsonInput::Flag(flag) => serde_json::Value::Bool(flag),
        JsonInput::Number(number) => serde_json::Value::from(number),
        JsonInput::Text(text) => serde_json::Value::String(text),
        JsonInput::Texts(items) => serde_json::Value::from(items),
        JsonInput::Object(object) => serde_json::Value::Object(object),
    };
    object.insert(key.to_owned(), value);
}

/// The text of `serde_json::Value` is the compact form of the object. It depends
/// on the members alone, since an object keeps them in the order of their keys,
/// and parsing it gives the members back; of a flat object that is stated here
/// for the boolean ones.
#[verifier::external_body]
pub(crate) fn render_object(object: serde_json::Map<String, serde_json::Value>) -> (text: String)
    ensures
        text@ == rendered(object_members(object)),
        flat(object_members(object)) ==> forall|key: Seq<char>| #[trigger]
            parsed_flag(text@, key) == flag_member(object_members(object), key),
{
    serde_json::Value::Object(object).to_string()
}

/// `serde::Serializer::collect_map` of `serde_json::Serializer` writes an object in its
/// compact form, one field after the other in the order in which they come. The text
/// depends on the fields alone. Writing into memory does not fail, and what is written is
/// always text.
#[verifier::external_body]
pub(crate) fn render_in_order(fields: Vec<(String, JsonInput)>) -> (text: String)
    ensures
        text@ == rendered_in_order(field_views(fields@)),
{
    let fields = fields.into_iter().map(|(key, value)| match value {
        JsonInput::Null => (key, serde_json::Value::Null),
        JsonInput::Flag(flag) => (key, serde_json::Value::Bool(flag)),
        JsonInput::Number(number) => (key, serde_json::Value::from(number)),
        JsonInput::Text(text) => (key, serde_json::Value::String(text)),
        JsonInput::Texts(items) => (key, serde_json::Value::from(items)),
        JsonInput::Object(object) => (key, serde_json::Value::Object(object)),
    });
    let mut out = Vec::new();
    let mut serializer = serde_json::Serializer::new(&mut out);
    serde::Serializer::collect_map(&mut serializer, fields).unwrap_or_default();
    String::from_utf8(out).unwrap_or_default()
}

/// `serde_json::from_str`, then `get` and `as_bool`: the boolean under `key` of
/// the object that `text` denotes.
#[verifier::external_body]
pub(crate) fn json_flag(text: &str, key: &str) -> (flag: Option<bool>)
    ensures
        flag == parsed_flag(text@, key@),
{
    serde_json::from_str::<serde_json::Value>(text).ok()?.get(key)?.as_bool()
}

/// What an optional text is as a member: a text, or null where it is absent.
pub open spec fn optional_text_node(value: Option<String>) -> JsonNode {
    match value {
        Some(text) => JsonNode::Text(text@),
        None => JsonNode::Null,
    }
}

/// An optional text as a member.
pub fn optional_text(value: &Option<String>) -> (r: JsonInput)
    ensures
        r.node() == optional_text_node(*value),
{
    match value {
        Some(text) => JsonInput::Text(text.clone()),
        None => JsonInput::Null,
    }
}

/// A text as a member.
pub fn text_member(value: &str) -> (r: JsonInput)
    ensures
        r.node() == JsonNode::Text(value@),
{
    JsonInput::Text(value.to_owned())
}

/// A text that is there is written as it is, and an absent one as null.
pub proof fn law_texts_are_written_as_they_are(
    value: Option<String>,
    r: JsonInput,
    text: &str,
    member: JsonInput,
)
    requires
        call_ensures(optional_text, (&value,), r),
        call_ensures(text_member, (text,), member),
    ensures
        value matches Some(there) ==> r.node() == JsonNode::Text(there@),
        value is None ==> r.node() == JsonNode::Null,
        member.node() == JsonNode::Text(text@),
{
}

} // verus!
