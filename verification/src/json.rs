use vstd::prelude::*;

verus! {

/// A JSON object, from serde_json; the library carries it through unread.
#[verifier::external_type_specification]
#[verifier::external_body]
#[verifier::reject_recursive_types(K)]
#[verifier::reject_recursive_types(V)]
pub struct ExJsonMap<K, V>(serde_json::Map<K, V>);

/// A JSON value, from serde_json.
#[verifier::external_type_specification]
#[verifier::external_body]
pub struct ExJsonValue(serde_json::Value);

/// A serde_json error.
#[verifier::external_type_specification]
#[verifier::external_body]
pub struct ExJsonError(serde_json::Error);

/// The list of strings that serde_json reads from `text` as a JSON array of
/// strings; `None` where it refuses the text.
pub uninterp spec fn json_string_list(text: Seq<char>) -> Option<Seq<Seq<char>>>;

/// The JSON text that serde_json writes for a list of strings.
pub uninterp spec fn json_string_list_text(items: Seq<Seq<char>>) -> Seq<char>;

/// Whether serde_json reads `text` as a JSON object.
pub uninterp spec fn json_object_accepts(text: Seq<char>) -> bool;

/// Reads `text` as a JSON array of strings with `serde_json::from_str`.
///
/// Claimed: the result is the named `json_string_list` of the text.
#[verifier::external_body]
pub(crate) fn parse_string_list(text: &str) -> (items: Option<Vec<String>>)
    ensures
        match json_string_list(text@) {
            Some(list) => items matches Some(v) && v.deep_view() == list,
            None => items is None,
        },
{
    match serde_json::from_str::<Vec<String>>(text) {
        Ok(items) => Some(items),
        Err(_) => None,
    }
}

/// Writes a list of strings as JSON with `serde_json::to_string`.
///
/// Claimed: the text is the named `json_string_list_text` of the list;
/// writing succeeds (serde_json documents failure only for a `Serialize`
/// impl that fails or for a map with keys that are not strings); and
/// serde_json reads the text back as the same list (it writes each string
/// with `format_escaped_str`, whose escapes its string parser undoes).
#[verifier::external_body]
pub(crate) fn string_list_json(items: &Vec<String>) -> (text: Result<String, serde_json::Error>)
    ensures
        text is Ok,
        text->Ok_0@ == json_string_list_text(items.deep_view()),
        json_string_list(text->Ok_0@) == Some(items.deep_view()),
{
    serde_json::to_string(items)
}

/// Reads `text` as a JSON object with `serde_json::from_str`.
///
/// Claimed: it succeeds exactly where the named `json_object_accepts` holds;
/// the object itself is left unsaid.
#[verifier::external_body]
pub(crate) fn parse_object(text: &str) -> (object: Option<serde_json::Map<String, serde_json::Value>>)
    ensures
        object is Some <==> json_object_accepts(text@),
{
    match serde_json::from_str::<serde_json::Map<String, serde_json::Value>>(text) {
        Ok(object) => Some(object),
        Err(_) => None,
    }
}

/// Writes a JSON object as text with `serde_json::to_string`.
///
/// Claimed: writing succeeds (the keys are strings, and serde_json documents
/// no other failure for its own values); the text is left unsaid.
#[verifier::external_body]
pub(crate) fn object_json(object: &serde_json::Map<String, serde_json::Value>) -> (text: Result<String, serde_json::Error>)
    ensures
        text is Ok,
{
    serde_json::to_string(object)
}

/// A new, empty JSON object, from serde_json's `Map::new`.
#[verifier::external_body]
pub(crate) fn empty_object() -> serde_json::Map<String, serde_json::Value> {
    serde_json::Map::new()
}

} // verus!
