//! The shape of a JSON value, as far as settings editing reads it.

use vstd::prelude::*;

verus! {

/// A parsed JSON value, reduced to what setting a field needs to know.
#[derive(Debug)]
pub enum JsonValue {
    Null,
    Bool(bool),
    /// A number; `Some(n)` when it is a non-negative integer that fits `u64`.
    Number(Option<u64>),
    Text(String),
    Array,
    Object,
}

/// The mathematical view of a [`JsonValue`].
pub enum JsonValueView {
    Null,
    Bool(bool),
    Number(Option<u64>),
    Text(Seq<char>),
    Array,
    Object,
}

impl View for JsonValue {
    type V = JsonValueView;

    open spec fn view(&self) -> JsonValueView {
        match self {
            JsonValue::Null => JsonValueView::Null,
            JsonValue::Bool(b) => JsonValueView::Bool(*b),
            JsonValue::Number(n) => JsonValueView::Number(*n),
            JsonValue::Text(s) => JsonValueView::Text(s@),
            JsonValue::Array => JsonValueView::Array,
            JsonValue::Object => JsonValueView::Object,
        }
    }
}

/// What `serde_json::from_str::<serde_json::Value>` makes of `text`
/// (`None` when the text is not JSON).
pub uninterp spec fn json_parse_result(text: Seq<char>) -> Option<JsonValueView>;

/// Parses `text` as JSON with `serde_json::from_str`, keeping the value's
/// kind, a non-negative integer's value and a string's text.
#[verifier::external_body]
pub(crate) fn parse_json(text: &str) -> (r: Option<JsonValue>)
    ensures
        match r {
            Some(v) => json_parse_result(text@) == Some(v@),
            None => json_parse_result(text@) is None,
        },
{
    match serde_json::from_str::<serde_json::Value>(text) {
        Ok(serde_json::Value::Null) => Some(JsonValue::Null),
        Ok(serde_json::Value::Bool(b)) => Some(JsonValue::Bool(b)),
        Ok(serde_json::Value::Number(n)) => Some(JsonValue::Number(n.as_u64())),
        Ok(serde_json::Value::String(s)) => Some(JsonValue::Text(s)),
        Ok(serde_json::Value::Array(_)) => Some(JsonValue::Array),
        Ok(serde_json::Value::Object(_)) => Some(JsonValue::Object),
        Err(_) => None,
    }
}

} // verus!
