use vstd::prelude::*;

verus! {

/// `serde_json::Value`, a JSON value of any form. It is opaque here: its
/// form is told by [`shape_of`].
#[verifier::external_type_specification]
#[verifier::external_body]
pub struct ExJsonValue(serde_json::Value);

/// What a JSON value is, as far as reading it as text goes.
#[derive(Debug, PartialEq)]
pub enum JsonShape {
    Null,
    Bool(bool),
    /// A number, in the notation in which JSON writes it.
    Number(String),
    String(String),
    Array,
    Object,
}

/// What a [`JsonShape`] holds.
pub enum JsonShapeView {
    Null,
    Bool(bool),
    Number(Seq<char>),
    String(Seq<char>),
    Array,
    Object,
}

impl View for JsonShape {
    type V = JsonShapeView;

    open spec fn view(&self) -> JsonShapeView {
        match self {
            JsonShape::Null => JsonShapeView::Null,
            JsonShape::Bool(b) => JsonShapeView::Bool(*b),
            JsonShape::Number(notation) => JsonShapeView::Number(notation@),
            JsonShape::String(text) => JsonShapeView::String(text@),
            JsonShape::Array => JsonShapeView::Array,
            JsonShape::Object => JsonShapeView::Object,
        }
    }
}

/// The form of a JSON value: which of the six forms it has, with the
/// characters of a string and the notation of a number.
pub uninterp spec fn json_shape(value: serde_json::Value) -> JsonShapeView;

/// Tells the variants of `serde_json::Value` apart. A string is moved over;
/// a number is written out through the `Display` of `serde_json::Number`.
/// The result is a function of the value alone; nothing else is claimed
/// about it.
#[verifier::external_body]
fn shape_of(value: serde_json::Value) -> (shape: JsonShape)
    ensures
        shape@ == json_shape(value),
{
    match value {
        serde_json::Value::Null => JsonShape::Null,
        serde_json::Value::Bool(b) => JsonShape::Bool(b),
        serde_json::Value::Number(n) => JsonShape::Number(n.to_string()),
        serde_json::Value::String(s) => JsonShape::String(s),
        serde_json::Value::Array(_) => JsonShape::Array,
        serde_json::Value::Object(_) => JsonShape::Object,
    }
}

/// The text of a member that the service sends as a number or as a string:
/// the number's notation or the string itself. A missing member and a value
/// of any other form give none.
pub open spec fn text_of_shape(shape: Option<JsonShape>) -> Option<String> {
    match shape {
        Some(JsonShape::Number(notation)) => Some(notation),
        Some(JsonShape::String(text)) => Some(text),
        _ => None,
    }
}

/// Reads a member as text from the form of its value.
pub fn string_from_shape(shape: Option<JsonShape>) -> (text: Option<String>)
    ensures
        text == text_of_shape(shape),
{
    match shape {
        Some(JsonShape::Number(notation)) => Some(notation),
        Some(JsonShape::String(text)) => Some(text),
        _ => None,
    }
}

/// The form of a member's value, where the member is there.
pub open spec fn member_shape(value: Option<serde_json::Value>) -> Option<JsonShapeView> {
    match value {
        Some(value) => Some(json_shape(value)),
        None => None,
    }
}

/// The characters a member is read as: the notation of a number, the
/// characters of a string, and none for a missing member and for a value of
/// any other form.
pub open spec fn shape_text(shape: Option<JsonShapeView>) -> Option<Seq<char>> {
    match shape {
        Some(JsonShapeView::Number(notation)) => Some(notation),
        Some(JsonShapeView::String(text)) => Some(text),
        _ => None,
    }
}

/// Reads a member as text, whether the service sent a number or a string:
/// a number gives its notation, a string gives itself, and a missing member
/// or a value of any other form gives none.
pub fn deserialize_as_string(value: Option<serde_json::Value>) -> (text: Option<String>)
    ensures
        match shape_text(member_shape(value)) {
            Some(characters) => text.is_some() && text.unwrap()@ == characters,
            None => text.is_none(),
        },
{
    match value {
        Some(value) => string_from_shape(Some(shape_of(value))),
        None => None,
    }
}

} // verus!
