use vstd::prelude::*;

verus! {

/// A JSON document of `serde_json`. Its inside is not visible here: it is
/// read through `member`, `text_of` and `items_of`.
#[verifier::external_type_specification]
#[verifier::external_body]
pub struct ExDocument(serde_json::Value);

/// Why `serde_json` refused a text or a value.
#[verifier::external_type_specification]
#[verifier::external_body]
pub struct ExDocumentError(serde_json::Error);

/// The document that `serde_json::from_str` reads from `text`, if it reads one.
pub uninterp spec fn parsed(text: Seq<char>) -> Option<serde_json::Value>;

/// What `serde_json::Value::get` finds in `doc` under the string key `key`:
/// the member of that name if `doc` is an object that has one.
pub uninterp spec fn member(doc: serde_json::Value, key: Seq<char>) -> Option<serde_json::Value>;

/// What `serde_json::Value::as_str` returns: the text of `doc` if it is a string.
pub uninterp spec fn text_of(doc: serde_json::Value) -> Option<Seq<char>>;

/// What `serde_json::Value::as_array` returns: the elements of `doc` if it is an array.
pub uninterp spec fn items_of(doc: serde_json::Value) -> Option<Seq<serde_json::Value>>;

/// The object whose one member is the string `text` under `key`.
pub uninterp spec fn object_of(key: Seq<char>, text: Seq<char>) -> serde_json::Value;

/// The compact text that `serde_json::to_string` writes for `doc`, if it writes one.
pub uninterp spec fn rendered(doc: serde_json::Value) -> Option<Seq<char>>;

/// `serde_json::from_str` at `serde_json::Value`. Trusted: the outcome depends
/// on the text alone, and is named `parsed`.
#[verifier::external_body]
pub(crate) fn parse(text: &str) -> (r: Result<serde_json::Value, serde_json::Error>)
    ensures
        match r {
            Ok(doc) => parsed(text@) == Some(doc),
            Err(_) => parsed(text@) is None,
        },
{
    serde_json::from_str::<serde_json::Value>(text)
}

/// `serde_json::Value::get` with a string key. Trusted: the outcome depends on
/// the document and the key alone, and is named `member`.
#[verifier::external_body]
pub(crate) fn get_member<'a>(doc: &'a serde_json::Value, key: &str) -> (r: Option<&'a serde_json::Value>)
    ensures
        match r {
            Some(found) => member(*doc, key@) == Some(*found),
            None => member(*doc, key@) is None,
        },
{
    doc.get(key)
}

/// `serde_json::Value::as_str`. Trusted: the outcome is named `text_of`.
#[verifier::external_body]
pub(crate) fn get_text<'a>(doc: &'a serde_json::Value) -> (r: Option<&'a str>)
    ensures
        match r {
            Some(text) => text_of(*doc) == Some(text@),
            None => text_of(*doc) is None,
        },
{
    doc.as_str()
}

/// `serde_json::Value::as_array`. Trusted: the outcome is named `items_of`.
#[verifier::external_body]
pub(crate) fn get_items<'a>(doc: &'a serde_json::Value) -> (r: Option<&'a Vec<serde_json::Value>>)
    ensures
        match r {
            Some(items) => items_of(*doc) == Some(items@),
            None => items_of(*doc) is None,
        },
{
    doc.as_array()
}

/// `serde_json::Map::insert` on a new map, with a `Value::String` as the
/// member and the map made a `Value::Object`. Trusted: the object is named
/// `object_of`; `get` finds the member under `key`, and the member is the
/// string `text`.
#[verifier::external_body]
pub(crate) fn make_object(key: &str, text: &str) -> (r: serde_json::Value)
    ensures
        r == object_of(key@, text@),
        string_member(r, key@) == Some(text@),
{
    let mut fields = serde_json::Map::new();
    fields.insert(key.to_owned(), serde_json::Value::String(text.to_owned()));
    serde_json::Value::Object(fields)
}

/// `serde_json::to_string` on a `serde_json::Value`. Trusted: the outcome
/// depends on the document alone, and is named `rendered`.
#[verifier::external_body]
pub(crate) fn render(doc: &serde_json::Value) -> (r: Result<String, serde_json::Error>)
    ensures
        match r {
            Ok(text) => rendered(*doc) == Some(text@),
            Err(_) => rendered(*doc) is None,
        },
{
    serde_json::to_string(doc)
}

/// The text of the member `key` of `doc`, if `doc` has that member and it is
/// a string.
pub open spec fn string_member(doc: serde_json::Value, key: Seq<char>) -> Option<Seq<char>> {
    match member(doc, key) {
        Some(found) => text_of(found),
        None => None,
    }
}

/// Reads the string member `key` of `doc`.
pub fn string_field(doc: &serde_json::Value, key: &str) -> (r: Option<String>)
    ensures
        match r {
            Some(text) => string_member(*doc, key@) == Some(text@),
            None => string_member(*doc, key@) is None,
        },
{
    match get_member(doc, key) {
        Some(found) => match get_text(found) {
            Some(text) => Some(text.to_owned()),
            None => None,
        },
        None => None,
    }
}

} // verus!
