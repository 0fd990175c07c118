//! A mathematical model of JSON documents, and the few calls into
//! `serde_json` through which the crate builds them.
use vstd::prelude::*;

verus! {

/// A JSON document as a mathematical value.
///
/// Numbers are integers: the documents built by this crate hold no
/// fractions. Objects are maps, so the order of their members is not part
/// of the model.
pub enum Json {
    Null,
    Bool(bool),
    Number(int),
    Text(Seq<char>),
    Array(Seq<Json>),
    Object(Map<Seq<char>, Json>),
}

/// `serde_json::Value`. The verifier sees nothing inside a value of it: what
/// it holds is spoken of through [`json_model`].
#[verifier::external_type_specification]
#[verifier::external_body]
pub struct ExValue(serde_json::Value);

/// `serde_json::Map`. The verifier sees nothing inside a value of it: what
/// it holds is spoken of through [`json_members`].
#[verifier::external_type_specification]
#[verifier::external_body]
#[verifier::reject_recursive_types(K)]
#[verifier::reject_recursive_types(V)]
pub struct ExMembers<K, V>(serde_json::Map<K, V>);

/// The document that a `serde_json::Value` holds.
pub uninterp spec fn json_model(value: serde_json::Value) -> Json;

/// The members that a `serde_json::Map` holds, by key.
pub uninterp spec fn json_members(members: serde_json::Map<String, serde_json::Value>) -> Map<
    Seq<char>,
    Json,
>;

/// `serde_json::Value::Bool`: the variant holds the given boolean.
#[verifier::external_body]
pub(crate) fn json_bool(b: bool) -> (value: serde_json::Value)
    ensures
        json_model(value) == Json::Bool(b),
{
    serde_json::Value::Bool(b)
}

/// `From<u64> for serde_json::Value`: a number variant that holds the given
/// unsigned integer.
#[verifier::external_body]
pub(crate) fn json_number(n: u64) -> (value: serde_json::Value)
    ensures
        json_model(value) == Json::Number(n as int),
{
    serde_json::Value::from(n)
}

/// `serde_json::Value::String`: the variant holds the given text.
#[verifier::external_body]
pub(crate) fn json_string(text: String) -> (value: serde_json::Value)
    ensures
        json_model(value) == Json::Text(text@),
{
    serde_json::Value::String(text)
}

/// `serde_json::Value::Array`: the variant holds the given items in their
/// order.
#[verifier::external_body]
pub(crate) fn json_array(items: Vec<serde_json::Value>) -> (value: serde_json::Value)
    ensures
        json_model(value) == Json::Array(
            items@.map_values(|item: serde_json::Value| json_model(item)),
        ),
{
    serde_json::Value::Array(items)
}

/// `serde_json::Map::new`: a map without members.
#[verifier::external_body]
pub(crate) fn members_new() -> (members: serde_json::Map<String, serde_json::Value>)
    ensures
        json_members(members) == (Map::<Seq<char>, Json>::empty()),
{
    serde_json::Map::new()
}

/// `serde_json::Map::insert`: the key holds the given value afterwards,
/// whether or not it was present before; the other members stay.
#[verifier::external_body]
pub(crate) fn members_insert(
    members: &mut serde_json::Map<String, serde_json::Value>,
    key: String,
    value: serde_json::Value,
)
    ensures
        json_members(*final(members)) == json_members(*old(members)).insert(
            key@,
            json_model(value),
        ),
{
    members.insert(key, value);
}

/// `serde_json::Value::Object`: the variant holds the given members.
#[verifier::external_body]
pub(crate) fn json_object(members: serde_json::Map<String, serde_json::Value>) -> (value:
    serde_json::Value)
    ensures
        json_model(value) == Json::Object(json_members(members)),
{
    serde_json::Value::Object(members)
}

/// The array of the given texts, in their order.
pub open spec fn texts(items: Seq<Seq<char>>) -> Json {
    Json::Array(Seq::new(items.len(), |i: int| Json::Text(items[i])))
}

/// A JSON string that holds `content`.
pub fn text(content: &str) -> (value: serde_json::Value)
    ensures
        json_model(value) == Json::Text(content@),
{
    json_string(content.to_owned())
}

/// A JSON array of strings that holds `items` in their order.
pub fn text_array(items: &[&str]) -> (value: serde_json::Value)
    ensures
        json_model(value) == texts(items.deep_view()),
{
    let mut values: Vec<serde_json::Value> = Vec::new();
    let mut i: usize = 0;
    while i < items.len()
        invariant
            i <= items.len(),
            values.len() == i,
            forall|k: int|
                0 <= k < i ==> json_model(#[trigger] values@[k]) == Json::Text(items@[k]@),
        decreases items.len() - i,
    {
        values.push(text(items[i]));
        i = i + 1;
    }
    assert(values@.map_values(|item: serde_json::Value| json_model(item)) =~= Seq::new(
        items.deep_view().len(),
        |k: int| Json::Text(items.deep_view()[k]),
    ));
    json_array(values)
}

/// A JSON array of strings that holds `items` in their order.
pub fn string_array(items: &Vec<String>) -> (value: serde_json::Value)
    ensures
        json_model(value) == texts(items.deep_view()),
{
    let mut values: Vec<serde_json::Value> = Vec::new();
    let mut i: usize = 0;
    while i < items.len()
        invariant
            i <= items.len(),
            values.len() == i,
            forall|k: int|
                0 <= k < i ==> json_model(#[trigger] values@[k]) == Json::Text(items@[k]@),
        decreases items.len() - i,
    {
        values.push(text(items[i].as_str()));
        i = i + 1;
    }
    assert(values@.map_values(|item: serde_json::Value| json_model(item)) =~= Seq::new(
        items.deep_view().len(),
        |k: int| Json::Text(items.deep_view()[k]),
    ));
    json_array(values)
}

/// Sets the member `key` of `members` to `value`.
pub fn put(
    members: &mut serde_json::Map<String, serde_json::Value>,
    key: &str,
    value: serde_json::Value,
)
    ensures
        json_members(*final(members)) == json_members(*old(members)).insert(
            key@,
            json_model(value),
        ),
{
    members_insert(members, key.to_owned(), value);
}

impl Json {
    /// Whether this is an object with a member `key`.
    pub open spec fn has_member(self, key: Seq<char>) -> bool {
        self is Object && self->Object_0.contains_key(key)
    }

    /// The member `key` of an object.
    pub open spec fn member(self, key: Seq<char>) -> Json
        recommends
            self.has_member(key),
    {
        self->Object_0[key]
    }

    /// The items of an array.
    pub open spec fn items(self) -> Seq<Json>
        recommends
            self is Array,
    {
        self->Array_0
    }
}

} // verus!
