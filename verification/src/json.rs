use vstd::prelude::*;

verus! {

/// The JSON value type of `serde_json`, carried through the library unread.
#[verifier::external_type_specification]
#[verifier::external_body]
pub struct ExJsonValue(serde_json::Value);

/// The variant of a JSON value, as much of it as the server's decisions read.
#[derive(Clone, Copy, Debug, PartialEq, Eq, Structural)]
pub enum JsonKind {
    Null,
    Bool,
    Number,
    String,
    Array,
    Object,
}

/// The variant of a `serde_json::Value`: which of its six enum variants it is.
pub uninterp spec fn json_variant(v: serde_json::Value) -> JsonKind;

/// Tells the variants of a `serde_json::Value` apart, one arm each. Claimed:
/// the result is the variant that `json_variant` names for the value; the
/// value is opaque to the library, so the variant is known only by that name.
#[verifier::external_body]
fn variant_of(value: &serde_json::Value) -> (kind: JsonKind)
    ensures
        kind == json_variant(*value),
{
    match value {
        serde_json::Value::Null => JsonKind::Null,
        serde_json::Value::Bool(_) => JsonKind::Bool,
        serde_json::Value::Number(_) => JsonKind::Number,
        serde_json::Value::String(_) => JsonKind::String,
        serde_json::Value::Array(_) => JsonKind::Array,
        serde_json::Value::Object(_) => JsonKind::Object,
    }
}

/// A JSON value together with its variant; only `from_value` makes one, so
/// the variant is always `json_variant` of the value.
#[derive(Debug, PartialEq)]
pub struct JsonBody {
    kind: JsonKind,
    value: serde_json::Value,
}

impl JsonBody {
    /// The variant of the value.
    pub closed spec fn kind(&self) -> JsonKind {
        self.kind
    }

    /// The value.
    pub closed spec fn value(&self) -> serde_json::Value {
        self.value
    }

    /// Pairs a JSON value with its variant.
    pub fn from_value(value: serde_json::Value) -> (body: JsonBody)
        ensures
            body.value() == value,
            body.kind() == json_variant(value),
    {
        let kind = variant_of(&value);
        JsonBody { kind, value }
    }

    /// The variant of the value.
    pub fn json_kind(&self) -> (kind: JsonKind)
        ensures
            kind == self.kind(),
    {
        self.kind
    }

    /// Gives the value up.
    pub fn into_value(self) -> (value: serde_json::Value)
        ensures
            value == self.value(),
    {
        self.value
    }
}

} // verus!
