//! The boundary to `serde_json`.
//!
//! A [`serde_json::Value`] is opaque to the verifier. Its content is described
//! by [`shape_of`], and every item below that has no verified body states what
//! the corresponding item of `serde_json` does in terms of that description.
//! These statements are assumed, not proved.
use vstd::prelude::*;

verus! {

/// What a JSON value holds, as far as this crate reads it.
pub enum JsonShape {
    /// The literal `null`.
    Null,
    /// `true` or `false`.
    Bool(bool),
    /// A number. The payload is its value where the number is held as a
    /// non-negative integer of 64 bits, and `None` for every other number
    /// (negative, fractional or out of that range).
    Number(Option<u64>),
    /// A string, by its characters.
    Text(Seq<char>),
    /// An array, in order.
    Array(Seq<JsonShape>),
    /// An object, by key.
    Object(Map<Seq<char>, JsonShape>),
}

impl JsonShape {
    /// The shape is an object that has the key.
    pub open spec fn has(self, key: Seq<char>) -> bool {
        self is Object && self->Object_0.contains_key(key)
    }

    /// The member under the key, of an object that has it.
    pub open spec fn at(self, key: Seq<char>) -> JsonShape
        recommends
            self.has(key),
    {
        self->Object_0[key]
    }

    /// The shape is an object whose members are all strings or booleans.
    /// Such an object is written out in one way only.
    pub open spec fn is_flat_object(self) -> bool {
        &&& self is Object
        &&& forall|key: Seq<char>| #[trigger]
            self.has(key) ==> self.at(key) is Text || self.at(key) is Bool
    }
}

/// The shapes of a list of values, in order.
pub open spec fn shapes_of(values: Seq<serde_json::Value>) -> Seq<JsonShape> {
    values.map_values(|value: serde_json::Value| shape_of(value))
}

#[verifier::external_type_specification]
#[verifier::external_body]
pub struct ExValue(serde_json::Value);

#[verifier::external_type_specification]
#[verifier::external_body]
pub struct ExError(serde_json::Error);

/// The content of a JSON value.
pub uninterp spec fn shape_of(value: serde_json::Value) -> JsonShape;

/// What `serde_json::from_str` makes of a text: the shape of the value it
/// parses to, or the message of the error it reports.
pub uninterp spec fn parsed(text: Seq<char>) -> Result<JsonShape, Seq<char>>;

/// The message that a `serde_json::Error` displays.
pub uninterp spec fn complaint_of(error: serde_json::Error) -> Seq<char>;

/// The compact JSON text that `serde_json` writes for a flat object.
pub uninterp spec fn rendered(shape: JsonShape) -> Seq<char>;

/// Calls `serde_json::from_str` for a `Value`. The parser reads nothing but
/// the text, so its outcome is a function of the text, named [`parsed`]: the
/// shape of the value on success, the error's message on failure.
#[verifier::external_body]
pub(crate) fn parse(text: &str) -> (outcome: Result<serde_json::Value, serde_json::Error>)
    ensures
        match outcome {
            Ok(value) => parsed(text@) == Ok::<JsonShape, Seq<char>>(shape_of(value)),
            Err(error) => parsed(text@) == Err::<JsonShape, Seq<char>>(complaint_of(error)),
        },
{
    serde_json::from_str::<serde_json::Value>(text)
}

/// Calls `to_string` on a `serde_json::Error`, which gives the message that
/// its `Display` impl writes, named [`complaint_of`].
#[verifier::external_body]
pub(crate) fn complaint(error: &serde_json::Error) -> (message: String)
    ensures
        message@ == complaint_of(*error),
{
    error.to_string()
}

/// Calls `Value::get` with a string index: the member under that key where
/// the value is an object that has it, `None` for an object without it and
/// for every value that is no object.
#[verifier::external_body]
pub(crate) fn member<'a>(value: &'a serde_json::Value, key: &str) -> (found: Option<
    &'a serde_json::Value,
>)
    ensures
        match found {
            Some(inner) => shape_of(*value).has(key@) && shape_of(*inner) == shape_of(*value).at(
                key@,
            ),
            None => !shape_of(*value).has(key@),
        },
{
    value.get(key)
}

/// `Value::is_null`: whether the value is the literal `null`.
pub assume_specification[ serde_json::Value::is_null ](value: &serde_json::Value) -> (answer: bool)
    ensures
        answer == (shape_of(*value) is Null),
;

/// `Value::is_object`: whether the value is an object.
pub assume_specification[ serde_json::Value::is_object ](value: &serde_json::Value) -> (answer:
    bool)
    ensures
        answer == (shape_of(*value) is Object),
;

/// `Value::as_bool`: the boolean, where the value is one.
pub assume_specification[ serde_json::Value::as_bool ](value: &serde_json::Value) -> (flag: Option<
    bool,
>)
    ensures
        match flag {
            Some(b) => shape_of(*value) == JsonShape::Bool(b),
            None => !(shape_of(*value) is Bool),
        },
;

/// `Value::as_u64`: the number, where the value is a number held as a
/// non-negative integer of 64 bits.
pub assume_specification[ serde_json::Value::as_u64 ](value: &serde_json::Value) -> (number: Option<
    u64,
>)
    ensures
        number == match shape_of(*value) {
            JsonShape::Number(n) => n,
            _ => None,
        },
;

/// `Value::as_str`: the characters, where the value is a string.
pub assume_specification<'a>[ serde_json::Value::as_str ](value: &'a serde_json::Value) -> (text:
    Option<&'a str>)
    ensures
        match text {
            Some(s) => shape_of(*value) == JsonShape::Text(s@),
            None => !(shape_of(*value) is Text),
        },
;

/// `Value::as_array`: the elements in order, where the value is an array.
pub assume_specification<'a>[ serde_json::Value::as_array ](value: &'a serde_json::Value) -> (items:
    Option<&'a Vec<serde_json::Value>>)
    ensures
        match items {
            Some(list) => shape_of(*value) == JsonShape::Array(shapes_of(list@)),
            None => !(shape_of(*value) is Array),
        },
;

/// Builds `Value::Object` around a new `serde_json::Map`: an object without
/// members.
#[verifier::external_body]
pub(crate) fn empty_object() -> (value: serde_json::Value)
    ensures
        shape_of(value) == JsonShape::Object(Map::<Seq<char>, JsonShape>::empty()),
{
    serde_json::Value::Object(serde_json::Map::new())
}

/// Calls `Value::from` on a string slice: a JSON string of the same
/// characters.
#[verifier::external_body]
pub(crate) fn text_value(text: &str) -> (value: serde_json::Value)
    ensures
        shape_of(value) == JsonShape::Text(text@),
{
    serde_json::Value::from(text)
}

/// Calls `Value::from` on a `bool`: the JSON boolean.
#[verifier::external_body]
pub(crate) fn flag_value(flag: bool) -> (value: serde_json::Value)
    ensures
        shape_of(value) == JsonShape::Bool(flag),
{
    serde_json::Value::from(flag)
}

/// Assigns through `Value`'s `IndexMut` with a string index. On an object
/// this puts the entry under the key, in place of an earlier one with that
/// key, and leaves the other members as they were. It panics on values other
/// than objects and `null`; those are left out here.
#[verifier::external_body]
pub(crate) fn set_member(object: &mut serde_json::Value, key: &str, entry: serde_json::Value)
    requires
        shape_of(*old(object)) is Object,
    ensures
        shape_of(*final(object)) == JsonShape::Object(
            shape_of(*old(object))->Object_0.insert(key@, shape_of(entry)),
        ),
{
    object[key] = entry;
}

/// Calls `to_string` on a `Value`, whose `Display` impl writes compact JSON.
/// For an object of strings and booleans the text is a function of the
/// members, named [`rendered`]: the map behind an object keeps its keys
/// sorted.
#[verifier::external_body]
pub(crate) fn render(value: &serde_json::Value) -> (text: String)
    requires
        shape_of(*value).is_flat_object(),
    ensures
        text@ == rendered(shape_of(*value)),
{
    value.to_string()
}

} // verus!
