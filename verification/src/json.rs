//! JSON values of `serde_json`, seen through the data they hold.
use vstd::prelude::*;
use vstd::utf8::*;

use crate::text_map::{entries_map, keys_are_distinct};

verus! {

/// The data of a JSON value. A number is given by its decimal text.
pub enum JsonView {
    Null,
    Bool(bool),
    Number(Seq<char>),
    String(Seq<char>),
    Array(Seq<JsonView>),
    Object(Map<Seq<char>, JsonView>),
}

/// The JSON value type of `serde_json`, a tree of arrays and objects.
#[verifier::external_type_specification]
#[verifier::external_body]
pub struct ExJsonValue(serde_json::Value);

/// What a `serde_json::Value` holds.
pub uninterp spec fn json_view(value: serde_json::Value) -> JsonView;

/// The compact JSON text of a value.
pub uninterp spec fn json_text(value: JsonView) -> Seq<char>;

/// The value that a JSON document stands for, or what is wrong with the document.
pub uninterp spec fn json_document(bytes: Seq<u8>) -> Result<JsonView, Seq<char>>;

/// The texts that a JSON array of strings lists, or what is wrong with the document.
pub uninterp spec fn json_string_list(text: Seq<char>) -> Result<Seq<Seq<char>>, Seq<char>>;

/// The member of an object under a name, where the value is an object that has one.
pub open spec fn json_member(value: JsonView, key: Seq<char>) -> Option<JsonView> {
    match value {
        JsonView::Object(members) if members.contains_key(key) => Some(members[key]),
        _ => None,
    }
}

/// The text of a string.
pub open spec fn json_string_text(value: JsonView) -> Option<Seq<char>> {
    match value {
        JsonView::String(text) => Some(text),
        _ => None,
    }
}

/// The text of the string member of an object under a name.
pub open spec fn json_member_text(value: JsonView, key: Seq<char>) -> Option<Seq<char>> {
    match json_member(value, key) {
        Some(member) => json_string_text(member),
        None => None,
    }
}

/// Calls `serde_json::Value::get` with a string index: the member of an object under that name,
/// and `None` where there is none or the value is no object.
#[verifier::external_body]
pub(crate) fn json_get<'a>(value: &'a serde_json::Value, key: &str) -> (member: Option<
    &'a serde_json::Value,
>)
    ensures
        member matches Some(found) ==> json_member(json_view(*value), key@) == Some(
            json_view(*found),
        ),
        member is None ==> json_member(json_view(*value), key@) is None,
{
    value.get(key)
}

/// `serde_json::Value::as_str` gives the text of a string and `None` for any other value.
pub assume_specification[ serde_json::Value::as_str ](value: &serde_json::Value) -> (text: Option<
    &str,
>)
    ensures
        text matches Some(found) ==> json_string_text(json_view(*value)) == Some(found@),
        text is None ==> json_string_text(json_view(*value)) is None,
;

/// The clone of a `serde_json::Value` holds the same data.
pub assume_specification[ <serde_json::Value as Clone>::clone ](value: &serde_json::Value) -> (copy:
    serde_json::Value)
    ensures
        json_view(copy) == json_view(*value),
;

/// Calls `serde_json::Value::from` on a text: the string of that text.
#[verifier::external_body]
pub(crate) fn json_string(text: String) -> (value: serde_json::Value)
    ensures
        json_view(value) == JsonView::String(text@),
{
    serde_json::Value::from(text)
}

/// Calls `serde_json::Value::from` on a truth value.
#[verifier::external_body]
pub(crate) fn json_bool(flag: bool) -> (value: serde_json::Value)
    ensures
        json_view(value) == JsonView::Bool(flag),
{
    serde_json::Value::from(flag)
}

/// What the values of a list hold.
pub open spec fn json_views(values: Seq<serde_json::Value>) -> Seq<JsonView> {
    values.map_values(|value: serde_json::Value| json_view(value))
}

/// Calls `serde_json::Value::from` on a list of values: the array of them, in order.
#[verifier::external_body]
pub(crate) fn json_array(items: Vec<serde_json::Value>) -> (value: serde_json::Value)
    ensures
        json_view(value) == JsonView::Array(json_views(items@)),
{
    serde_json::Value::from(items)
}

/// The members that a list of names and values stands for.
pub open spec fn json_members(members: Seq<(String, serde_json::Value)>) -> Map<
    Seq<char>,
    JsonView,
> {
    entries_map(members).map_values(|value: serde_json::Value| json_view(value))
}

/// Collects names and values into a `serde_json::Map` and makes it an object, which has each of
/// the distinct names with its value and no other member.
#[verifier::external_body]
pub(crate) fn json_object(members: Vec<(String, serde_json::Value)>) -> (value: serde_json::Value)
    requires
        keys_are_distinct(members@),
    ensures
        json_view(value) == JsonView::Object(json_members(members@)),
{
    serde_json::Value::Object(members.into_iter().collect::<serde_json::Map<_, _>>())
}

/// The object of one member.
pub(crate) fn object_of_one(key: &str, value: serde_json::Value) -> (object: serde_json::Value)
    ensures
        json_view(object) == JsonView::Object(map![key@ => json_view(value)]),
{
    let mut members: Vec<(String, serde_json::Value)> = Vec::new();
    members.push((key.to_owned(), value));
    proof {
        reveal_with_fuel(entries_map, 2);
        assert(members@.drop_last() =~= Seq::empty());
        assert(json_members(members@) =~= map![key@ => json_view(value)]);
    }
    json_object(members)
}

/// The object of two members under different names.
pub(crate) fn object_of_two(
    first_key: &str,
    first: serde_json::Value,
    second_key: &str,
    second: serde_json::Value,
) -> (object: serde_json::Value)
    requires
        first_key@ != second_key@,
    ensures
        json_view(object) == JsonView::Object(
            map![first_key@ => json_view(first), second_key@ => json_view(second)],
        ),
{
    let mut members: Vec<(String, serde_json::Value)> = Vec::new();
    members.push((first_key.to_owned(), first));
    members.push((second_key.to_owned(), second));
    proof {
        reveal_with_fuel(entries_map, 3);
        assert(members@.drop_last().drop_last() =~= Seq::empty());
        assert(json_members(members@) =~= map![
            first_key@ => json_view(first),
            second_key@ => json_view(second),
        ]);
    }
    json_object(members)
}

/// The array of one value.
pub(crate) fn array_of_one(item: serde_json::Value) -> (array: serde_json::Value)
    ensures
        json_view(array) == JsonView::Array(seq![json_view(item)]),
{
    let mut items: Vec<serde_json::Value> = Vec::new();
    items.push(item);
    assert(json_views(items@) =~= seq![json_view(item)]);
    json_array(items)
}

/// Calls `serde_json::to_string`, which writes the compact text of a value; on a
/// `serde_json::Value` it cannot fail, since the writer is a growing buffer and the names of
/// members are strings. A failure would be given by its message.
#[verifier::external_body]
pub(crate) fn json_to_string(value: &serde_json::Value) -> (text: Result<String, String>)
    ensures
        text is Ok,
        text->Ok_0@ == json_text(json_view(*value)),
{
    serde_json::to_string(value).map_err(|error| error.to_string())
}

/// Calls `serde_json::to_vec`, which writes the bytes of the text that `serde_json::to_string`
/// gives, and fails as little.
#[verifier::external_body]
pub(crate) fn json_to_vec(value: &serde_json::Value) -> (bytes: Result<Vec<u8>, String>)
    ensures
        bytes is Ok,
        bytes->Ok_0@ == encode_utf8(json_text(json_view(*value))),
{
    serde_json::to_vec(value).map_err(|error| error.to_string())
}

/// Shows a `serde_json::Value` with its `Display`, which writes the compact text.
#[verifier::external_body]
pub(crate) fn json_display(value: &serde_json::Value) -> (text: String)
    ensures
        text@ == json_text(json_view(*value)),
{
    value.to_string()
}

/// What the outcome of parsing a document says.
pub open spec fn document_view(outcome: Result<serde_json::Value, String>) -> Result<
    JsonView,
    Seq<char>,
> {
    match outcome {
        Ok(value) => Ok(json_view(value)),
        Err(message) => Err(message@),
    }
}

/// What the outcome of parsing a list of strings says.
pub open spec fn string_list_view(outcome: Result<Vec<String>, String>) -> Result<
    Seq<Seq<char>>,
    Seq<char>,
> {
    match outcome {
        Ok(list) => Ok(list.deep_view()),
        Err(message) => Err(message@),
    }
}

/// Calls `serde_json::from_slice` for a `serde_json::Value`. A failure is given by its message.
#[verifier::external_body]
pub(crate) fn json_from_slice(bytes: &[u8]) -> (value: Result<serde_json::Value, String>)
    ensures
        document_view(value) == json_document(bytes@),
{
    serde_json::from_slice::<serde_json::Value>(bytes).map_err(|error| error.to_string())
}

/// Calls `serde_json::from_str` for a list of strings. A failure is given by its message.
#[verifier::external_body]
pub(crate) fn json_parse_string_list(text: &str) -> (list: Result<Vec<String>, String>)
    ensures
        string_list_view(list) == json_string_list(text@),
{
    serde_json::from_str::<Vec<String>>(text).map_err(|error| error.to_string())
}

} // verus!
