//! Reading the members of a JSON object into the optional fields of a record.
//!
//! Every field of a record is optional: a member that is missing or `null`
//! reads as "not present". A member of another type than the field's does not
//! fit, and the whole record is refused.
use crate::json::{flag_value, member, set_member, shape_of, text_value, JsonShape};
use vstd::prelude::*;

verus! {

/// A JSON value that is not of the shape that a record expects.
#[derive(Debug, Clone, Copy, PartialEq, Eq)]
pub struct Misfit;

/// A type that is read from a JSON object, field by field.
pub trait Record: Sized + DeepView {
    /// The shape can be read as this record.
    spec fn fits(shape: JsonShape) -> bool;

    /// The record that a fitting shape is read as.
    spec fn decoded(shape: JsonShape) -> <Self as DeepView>::V;

    /// Reads the record from a JSON value, or refuses the value.
    fn from_json(value: &serde_json::Value) -> (outcome: Result<Self, Misfit>)
        ensures
            outcome is Ok <==> Self::fits(shape_of(*value)),
            outcome matches Ok(record) ==> record.deep_view() == Self::decoded(shape_of(*value)),
    ;
}

/// The object has no member under the key, or has `null` there.
pub open spec fn vacant(shape: JsonShape, key: Seq<char>) -> bool {
    !shape.has(key) || shape.at(key) is Null
}

/// The member under the key can be read as an optional string.
pub open spec fn text_fits(shape: JsonShape, key: Seq<char>) -> bool {
    vacant(shape, key) || shape.at(key) is Text
}

/// The string under the key, where there is one.
pub open spec fn text_at(shape: JsonShape, key: Seq<char>) -> Option<Seq<char>> {
    if shape.has(key) && shape.at(key) is Text {
        Some(shape.at(key)->Text_0)
    } else {
        None
    }
}

/// The member under the key can be read as an optional boolean.
pub open spec fn flag_fits(shape: JsonShape, key: Seq<char>) -> bool {
    vacant(shape, key) || shape.at(key) is Bool
}

/// The boolean under the key, where there is one.
pub open spec fn flag_at(shape: JsonShape, key: Seq<char>) -> Option<bool> {
    if shape.has(key) && shape.at(key) is Bool {
        Some(shape.at(key)->Bool_0)
    } else {
        None
    }
}

/// The shape is a non-negative integer that a `usize` holds.
pub open spec fn is_count(shape: JsonShape) -> bool {
    shape matches JsonShape::Number(Some(n)) && n <= usize::MAX
}

/// The member under the key can be read as an optional count.
pub open spec fn count_fits(shape: JsonShape, key: Seq<char>) -> bool {
    vacant(shape, key) || is_count(shape.at(key))
}

/// The count under the key, where there is one.
pub open spec fn count_at(shape: JsonShape, key: Seq<char>) -> Option<usize> {
    if shape.has(key) && is_count(shape.at(key)) {
        Some(shape.at(key)->Number_0->Some_0 as usize)
    } else {
        None
    }
}

/// The member under the key can be read as an optional record of type `T`.
pub open spec fn nested_fits<T: Record>(shape: JsonShape, key: Seq<char>) -> bool {
    vacant(shape, key) || T::fits(shape.at(key))
}

/// The record under the key, where there is a member other than `null`.
pub open spec fn nested_at<T: Record>(shape: JsonShape, key: Seq<char>) -> Option<
    <T as DeepView>::V,
> {
    if vacant(shape, key) {
        None
    } else {
        Some(T::decoded(shape.at(key)))
    }
}

/// Reads an optional string field.
pub fn text_member(object: &serde_json::Value, key: &str) -> (outcome: Result<
    Option<String>,
    Misfit,
>)
    ensures
        outcome is Ok <==> text_fits(shape_of(*object), key@),
        outcome matches Ok(field) ==> field.deep_view() == text_at(shape_of(*object), key@),
{
    match member(object, key) {
        None => Ok(None),
        Some(inner) => {
            if inner.is_null() {
                Ok(None)
            } else {
                match inner.as_str() {
                    Some(text) => Ok(Some(text.to_owned())),
                    None => Err(Misfit),
                }
            }
        },
    }
}

/// Reads an optional boolean field.
pub fn flag_member(object: &serde_json::Value, key: &str) -> (outcome: Result<Option<bool>, Misfit>)
    ensures
        outcome is Ok <==> flag_fits(shape_of(*object), key@),
        outcome matches Ok(field) ==> field == flag_at(shape_of(*object), key@),
{
    match member(object, key) {
        None => Ok(None),
        Some(inner) => {
            if inner.is_null() {
                Ok(None)
            } else {
                match inner.as_bool() {
                    Some(flag) => Ok(Some(flag)),
                    None => Err(Misfit),
                }
            }
        },
    }
}

/// Reads an optional count field. A number that is negative, fractional or
/// too large for a `usize` does not fit.
pub fn count_member(object: &serde_json::Value, key: &str) -> (outcome: Result<
    Option<usize>,
    Misfit,
>)
    ensures
        outcome is Ok <==> count_fits(shape_of(*object), key@),
        outcome matches Ok(field) ==> field == count_at(shape_of(*object), key@),
{
    match member(object, key) {
        None => Ok(None),
        Some(inner) => {
            if inner.is_null() {
                Ok(None)
            } else {
                match inner.as_u64() {
                    Some(number) => {
                        if number <= usize::MAX as u64 {
                            Ok(Some(number as usize))
                        } else {
                            Err(Misfit)
                        }
                    },
                    None => Err(Misfit),
                }
            }
        },
    }
}

/// Reads an optional field that is itself a record.
pub fn nested_member<T: Record>(object: &serde_json::Value, key: &str) -> (outcome: Result<
    Option<T>,
    Misfit,
>)
    ensures
        outcome is Ok <==> nested_fits::<T>(shape_of(*object), key@),
        outcome matches Ok(field) ==> field.deep_view() == nested_at::<T>(
            shape_of(*object),
            key@,
        ),
{
    match member(object, key) {
        None => Ok(None),
        Some(inner) => {
            if inner.is_null() {
                Ok(None)
            } else {
                match T::from_json(inner) {
                    Ok(record) => Ok(Some(record)),
                    Err(misfit) => Err(misfit),
                }
            }
        },
    }
}

/// The members of an object after an optional string is written under a
/// key: a field that is not set leaves the members as they are.
pub open spec fn with_text(
    members: Map<Seq<char>, JsonShape>,
    key: Seq<char>,
    field: Option<Seq<char>>,
) -> Map<Seq<char>, JsonShape> {
    match field {
        Some(text) => members.insert(key, JsonShape::Text(text)),
        None => members,
    }
}

/// The members of an object after an optional boolean is written under a
/// key: a field that is not set leaves the members as they are.
pub open spec fn with_flag(
    members: Map<Seq<char>, JsonShape>,
    key: Seq<char>,
    field: Option<bool>,
) -> Map<Seq<char>, JsonShape> {
    match field {
        Some(flag) => members.insert(key, JsonShape::Bool(flag)),
        None => members,
    }
}

/// Writes an optional string field into an object. A field that is not set
/// is left out, not written as `null`.
pub fn put_text(object: &mut serde_json::Value, key: &str, field: &Option<String>)
    requires
        shape_of(*old(object)) is Object,
    ensures
        shape_of(*final(object)) == JsonShape::Object(
            with_text(shape_of(*old(object))->Object_0, key@, field.deep_view()),
        ),
{
    match field {
        Some(text) => set_member(object, key, text_value(text.as_str())),
        None => {},
    }
}

/// Writes an optional boolean field into an object. A field that is not set
/// is left out, not written as `null`.
pub fn put_flag(object: &mut serde_json::Value, key: &str, field: &Option<bool>)
    requires
        shape_of(*old(object)) is Object,
    ensures
        shape_of(*final(object)) == JsonShape::Object(
            with_flag(shape_of(*old(object))->Object_0, key@, *field),
        ),
{
    match field {
        Some(flag) => set_member(object, key, flag_value(*flag)),
        None => {},
    }
}

/// A member that is missing or `null` fits a field of every kind and reads
/// as "not present".
pub proof fn vacant_member_is_not_present<T: Record>(shape: JsonShape, key: Seq<char>)
    requires
        vacant(shape, key),
    ensures
        text_fits(shape, key) && text_at(shape, key) is None,
        flag_fits(shape, key) && flag_at(shape, key) is None,
        count_fits(shape, key) && count_at(shape, key) is None,
        nested_fits::<T>(shape, key) && nested_at::<T>(shape, key) is None,
{
}

/// A member of the field's type fits the field and reads as its value.
pub proof fn present_member_is_populated<T: Record>(shape: JsonShape, key: Seq<char>)
    requires
        shape.has(key),
    ensures
        shape.at(key) matches JsonShape::Text(text) ==> text_fits(shape, key) && text_at(
            shape,
            key,
        ) == Some(text),
        shape.at(key) matches JsonShape::Bool(flag) ==> flag_fits(shape, key) && flag_at(
            shape,
            key,
        ) == Some(flag),
        is_count(shape.at(key)) ==> count_fits(shape, key) && count_at(shape, key) == Some(
            shape.at(key)->Number_0->Some_0 as usize,
        ),
        T::fits(shape.at(key)) && !(shape.at(key) is Null) ==> nested_fits::<T>(shape, key)
            && nested_at::<T>(shape, key) == Some(T::decoded(shape.at(key))),
{
}

} // verus!
