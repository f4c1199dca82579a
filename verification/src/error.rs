//! The errors of a call, and the reading of the server's error envelope.
//!
//! A call fails in one of three ways: the transport did not deliver an
//! answer, the server answered with its error envelope, or a body was not of
//! the shape that was expected of it.
use crate::json::{member, shape_of, shapes_of, JsonShape};
use crate::record::{Misfit, Record};
use vstd::prelude::*;

verus! {

/// A failure below HTTP: the request got no answer.
#[derive(Debug, Clone, PartialEq, Eq)]
pub struct TransportError {
    /// What the transport reports as the cause.
    pub cause: String,
}

/// One entry of the server's list of causes.
#[derive(Debug, Clone, PartialEq, Eq)]
pub struct ApiErrorPart {
    /// The field of the request that the entry is about.
    pub field: String,
    /// The server's code for the fault.
    pub code: String,
    /// The server's words on it.
    pub message: String,
}

/// The mathematical value of an [`ApiErrorPart`].
pub struct ApiErrorPartView {
    pub field: Seq<char>,
    pub code: Seq<char>,
    pub message: Seq<char>,
}

/// The server refused the request and said why.
#[derive(Debug, Clone, PartialEq, Eq)]
pub struct ApiError {
    /// The server's message.
    pub message: String,
    /// The causes it lists, in its order.
    pub parts: Vec<ApiErrorPart>,
}

/// The mathematical value of an [`ApiError`].
pub struct ApiErrorView {
    pub message: Seq<char>,
    pub parts: Seq<ApiErrorPartView>,
}

/// Why a body could not be read.
#[derive(Debug, Clone, PartialEq, Eq)]
pub enum DecodeCause {
    /// The body is no JSON text; the payload is the parser's message.
    Syntax(String),
    /// The body is JSON of another shape than the expected one.
    Shape,
}

/// The mathematical value of a [`DecodeCause`].
pub enum DecodeCauseView {
    Syntax(Seq<char>),
    Shape,
}

/// A body that could not be read, with the body as it came.
#[derive(Debug, Clone, PartialEq, Eq)]
pub struct DecodeError {
    /// The body exactly as the server sent it.
    pub raw_body: String,
    /// Why it could not be read.
    pub cause: DecodeCause,
}

/// The mathematical value of a [`DecodeError`].
pub struct DecodeErrorView {
    pub raw_body: Seq<char>,
    pub cause: DecodeCauseView,
}

/// The ways in which a call fails.
#[derive(Debug, Clone, PartialEq, Eq)]
pub enum ClientError {
    /// The transport delivered no answer.
    Transport(TransportError),
    /// The server answered with its error envelope.
    Api(ApiError),
    /// A body was not of the expected shape.
    Decode(DecodeError),
}

/// The mathematical value of a [`ClientError`].
pub enum ClientErrorView {
    Transport(Seq<char>),
    Api(ApiErrorView),
    Decode(DecodeErrorView),
}

impl DeepView for TransportError {
    type V = Seq<char>;

    open spec fn deep_view(&self) -> Seq<char> {
        self.cause@
    }
}

impl DeepView for ApiErrorPart {
    type V = ApiErrorPartView;

    open spec fn deep_view(&self) -> ApiErrorPartView {
        ApiErrorPartView { field: self.field@, code: self.code@, message: self.message@ }
    }
}

impl DeepView for ApiError {
    type V = ApiErrorView;

    open spec fn deep_view(&self) -> ApiErrorView {
        ApiErrorView { message: self.message@, parts: self.parts.deep_view() }
    }
}

impl DeepView for DecodeCause {
    type V = DecodeCauseView;

    open spec fn deep_view(&self) -> DecodeCauseView {
        match self {
            DecodeCause::Syntax(message) => DecodeCauseView::Syntax(message@),
            DecodeCause::Shape => DecodeCauseView::Shape,
        }
    }
}

impl DeepView for DecodeError {
    type V = DecodeErrorView;

    open spec fn deep_view(&self) -> DecodeErrorView {
        DecodeErrorView { raw_body: self.raw_body@, cause: self.cause.deep_view() }
    }
}

impl DeepView for ClientError {
    type V = ClientErrorView;

    open spec fn deep_view(&self) -> ClientErrorView {
        match self {
            ClientError::Transport(error) => ClientErrorView::Transport(error.deep_view()),
            ClientError::Api(error) => ClientErrorView::Api(error.deep_view()),
            ClientError::Decode(error) => ClientErrorView::Decode(error.deep_view()),
        }
    }
}

/// The object has a string under the key.
pub open spec fn has_text(shape: JsonShape, key: Seq<char>) -> bool {
    shape.has(key) && shape.at(key) is Text
}

/// The shape is one entry of the envelope's list: an object with the strings
/// `field`, `code` and `message`.
pub open spec fn part_fits(shape: JsonShape) -> bool {
    &&& has_text(shape, "field"@)
    &&& has_text(shape, "code"@)
    &&& has_text(shape, "message"@)
}

/// The entry that a fitting shape holds, word for word.
pub open spec fn part_of(shape: JsonShape) -> ApiErrorPartView {
    ApiErrorPartView {
        field: shape.at("field"@)->Text_0,
        code: shape.at("code"@)->Text_0,
        message: shape.at("message"@)->Text_0,
    }
}

/// Every shape of the list is an entry.
pub open spec fn parts_fit(shapes: Seq<JsonShape>) -> bool {
    forall|i: int| 0 <= i < shapes.len() ==> part_fits(#[trigger] shapes[i])
}

/// The entries that a list of fitting shapes holds, in order.
pub open spec fn parts_of(shapes: Seq<JsonShape>) -> Seq<ApiErrorPartView> {
    shapes.map_values(|shape: JsonShape| part_of(shape))
}

/// The shape is the server's error envelope: an object with a string
/// `message` and an array `errors` of entries.
pub open spec fn envelope_fits(shape: JsonShape) -> bool {
    &&& has_text(shape, "message"@)
    &&& shape.has("errors"@)
    &&& shape.at("errors"@) is Array
    &&& parts_fit(shape.at("errors"@)->Array_0)
}

/// The error that an envelope reports: its message and its entries, word for
/// word and in order.
pub open spec fn envelope_of(shape: JsonShape) -> ApiErrorView {
    ApiErrorView {
        message: shape.at("message"@)->Text_0,
        parts: parts_of(shape.at("errors"@)->Array_0),
    }
}

/// Reads a string that has to be there.
pub fn required_text(object: &serde_json::Value, key: &str) -> (outcome: Result<String, Misfit>)
    ensures
        outcome is Ok <==> has_text(shape_of(*object), key@),
        outcome matches Ok(text) ==> text@ == shape_of(*object).at(key@)->Text_0,
{
    match member(object, key) {
        None => Err(Misfit),
        Some(inner) => match inner.as_str() {
            Some(text) => Ok(text.to_owned()),
            None => Err(Misfit),
        },
    }
}

impl Record for ApiErrorPart {
    open spec fn fits(shape: JsonShape) -> bool {
        part_fits(shape)
    }

    open spec fn decoded(shape: JsonShape) -> ApiErrorPartView {
        part_of(shape)
    }

    fn from_json(value: &serde_json::Value) -> (outcome: Result<Self, Misfit>) {
        let field = match required_text(value, "field") {
            Ok(text) => text,
            Err(misfit) => { return Err(misfit); },
        };
        let code = match required_text(value, "code") {
            Ok(text) => text,
            Err(misfit) => { return Err(misfit); },
        };
        let message = match required_text(value, "message") {
            Ok(text) => text,
            Err(misfit) => { return Err(misfit); },
        };
        Ok(ApiErrorPart { field, code, message })
    }
}

/// Reads the entries of the envelope's list, in order.
pub fn parts_from_json(list: &Vec<serde_json::Value>) -> (outcome: Result<
    Vec<ApiErrorPart>,
    Misfit,
>)
    ensures
        outcome is Ok <==> parts_fit(shapes_of(list@)),
        outcome matches Ok(parts) ==> parts.deep_view() == parts_of(shapes_of(list@)),
{
    let mut parts: Vec<ApiErrorPart> = Vec::new();
    let mut i: usize = 0;
    while i < list.len()
        invariant
            i <= list@.len(),
            parts@.len() == i,
            forall|j: int| 0 <= j < i ==> part_fits(#[trigger] shapes_of(list@)[j]),
            forall|j: int|
                0 <= j < i ==> (#[trigger] parts@[j]).deep_view() == part_of(shape_of(list@[j])),
        decreases list@.len() - i,
    {
        match ApiErrorPart::from_json(&list[i]) {
            Ok(part) => {
                parts.push(part);
            },
            Err(misfit) => {
                assert(!part_fits(shapes_of(list@)[i as int]));
                return Err(misfit);
            },
        }
        i += 1;
    }
    assert(parts.deep_view() =~= parts_of(shapes_of(list@)));
    Ok(parts)
}

impl Record for ApiError {
    open spec fn fits(shape: JsonShape) -> bool {
        envelope_fits(shape)
    }

    open spec fn decoded(shape: JsonShape) -> ApiErrorView {
        envelope_of(shape)
    }

    fn from_json(value: &serde_json::Value) -> (outcome: Result<Self, Misfit>) {
        let message = match required_text(value, "message") {
            Ok(text) => text,
            Err(misfit) => { return Err(misfit); },
        };
        let list = match member(value, "errors") {
            Some(inner) => match inner.as_array() {
                Some(list) => list,
                None => { return Err(Misfit); },
            },
            None => { return Err(Misfit); },
        };
        match parts_from_json(list) {
            Ok(parts) => Ok(ApiError { message, parts }),
            Err(misfit) => Err(misfit),
        }
    }
}

} // verus!
