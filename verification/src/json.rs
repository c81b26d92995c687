//! The JSON objects that tools answer with: objects whose fields are null,
//! text, flags, numbers, lists of text, or JSON texts (themselves such
//! objects, alone or in a list), printed by `serde_json` in its pretty form.

use vstd::prelude::*;
use crate::text::views;
use serde_json::{from_str, Value};

verus! {

/// The value of a field of an answer object.
pub enum JsonField {
    /// `null`.
    Null,
    /// A string.
    Text(String),
    /// A boolean.
    Flag(bool),
    /// A number.
    Int(i64),
    /// An array of strings.
    List(Vec<String>),
    /// The value that a JSON text holds (`null` when it does not parse).
    Raw(String),
    /// An array of the values that JSON texts hold.
    RawList(Vec<String>),
}

/// A field value as plain values.
pub enum JsonFieldView {
    Null,
    Text(Seq<char>),
    Flag(bool),
    Int(int),
    List(Seq<Seq<char>>),
    Raw(Seq<char>),
    RawList(Seq<Seq<char>>),
}

impl View for JsonField {
    type V = JsonFieldView;

    open spec fn view(&self) -> JsonFieldView {
        match self {
            JsonField::Null => JsonFieldView::Null,
            JsonField::Text(s) => JsonFieldView::Text(s@),
            JsonField::Flag(b) => JsonFieldView::Flag(*b),
            JsonField::Int(i) => JsonFieldView::Int(*i as int),
            JsonField::List(v) => JsonFieldView::List(views(v@)),
            JsonField::Raw(t) => JsonFieldView::Raw(t@),
            JsonField::RawList(v) => JsonFieldView::RawList(views(v@)),
        }
    }
}

/// The fields of an object as values.
pub open spec fn fields_view(fs: Seq<(String, JsonField)>) -> Seq<(Seq<char>, JsonFieldView)> {
    fs.map_values(|f: (String, JsonField)| (f.0@, f.1@))
}

/// The pretty JSON text that `serde_json` prints for the object with these
/// fields.
pub uninterp spec fn json_pretty(fields: Seq<(Seq<char>, JsonFieldView)>) -> Seq<char>;

/// `serde_json::to_string_pretty` of the object with these fields, a JSON
/// text field read by `serde_json::from_str` (a later field of a name
/// replaces an earlier one; keys come out sorted, as `serde_json`'s map
/// keeps them). Printing such a value does not fail.
#[verifier::external_body]
pub fn pretty_object(fields: &[(String, JsonField)]) -> (r: String)
    ensures
        r@ == json_pretty(fields_view(fields@)),
{
    let map = fields.iter().map(|(k, f)| (k, match f {
        JsonField::Null => Value::Null,
        JsonField::Text(s) => s.as_str().into(),
        JsonField::Flag(b) => (*b).into(),
        JsonField::Int(i) => (*i).into(),
        JsonField::List(v) => v.clone().into(),
        JsonField::Raw(t) => from_str(t).unwrap_or_default(),
        JsonField::RawList(v) => v.iter().map(|t| from_str::<Value>(t).unwrap_or_default()).collect(),
    }));
    serde_json::to_string_pretty(&map.collect::<Value>()).unwrap_or_default()
}

/// A text field.
pub fn text_field(key: &str, value: &str) -> (r: (String, JsonField))
    ensures
        r.0@ == key@,
        r.1@ == JsonFieldView::Text(value@),
{
    (crate::text::owned(key), JsonField::Text(crate::text::owned(value)))
}

} // verus!
