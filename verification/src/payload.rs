//! Request and response bodies: structured (JSON) or opaque binary, chosen
//! by the declared content type.

use vstd::prelude::*;
use crate::json::{json_error_text, json_parse};
use crate::text::{body_text, opt_view, read_body_to_string, starts_with};

verus! {

/// A blob of bytes together with the media type it was declared with.
#[derive(Debug)]
pub struct Binary {
    pub mimetype: String,
    pub data: Vec<u8>,
}

/// What a `Binary` holds: the media type as text and the bytes.
pub struct BinaryView {
    pub mimetype: Seq<char>,
    pub data: Seq<u8>,
}

impl View for Binary {
    type V = BinaryView;

    open spec fn view(&self) -> BinaryView {
        BinaryView { mimetype: self.mimetype@, data: self.data@ }
    }
}

impl Clone for Binary {
    fn clone(&self) -> (r: Self)
        ensures
            r@ == self@,
    {
        Binary { mimetype: self.mimetype.clone(), data: self.data.clone() }
    }
}

/// A value paired with its encoding format.
#[derive(Debug)]
pub enum Payload {
    /// A structured value.
    Json(serde_json::Value),
    /// An opaque blob.
    Binary(Binary),
}

/// What a `Payload` holds.
pub enum PayloadView {
    Json(serde_json::Value),
    Binary(BinaryView),
}

impl View for Payload {
    type V = PayloadView;

    open spec fn view(&self) -> PayloadView {
        match *self {
            Payload::Json(value) => PayloadView::Json(value),
            Payload::Binary(binary) => PayloadView::Binary(binary@),
        }
    }
}

/// Why a structured body could not be decoded.
#[derive(Debug)]
pub enum ParseError {
    /// The text is not well-formed JSON; the message says where.
    Json { message: String },
    /// A field that the operation needs is absent.
    MissingField { name: String, at: String },
    /// What stands at a place is not what is expected there.
    Invalid { at: String, message: String },
}

/// What a `ParseError` holds.
pub enum ParseErrorView {
    Json { message: Seq<char> },
    MissingField { name: Seq<char>, at: Seq<char> },
    Invalid { at: Seq<char>, message: Seq<char> },
}

impl View for ParseError {
    type V = ParseErrorView;

    open spec fn view(&self) -> ParseErrorView {
        match *self {
            ParseError::Json { message } => ParseErrorView::Json { message: message@ },
            ParseError::MissingField { name, at } => ParseErrorView::MissingField {
                name: name@,
                at: at@,
            },
            ParseError::Invalid { at, message } => ParseErrorView::Invalid {
                at: at@,
                message: message@,
            },
        }
    }
}

impl ParseErrorView {
    /// The error as one line of text: what went wrong and where.
    pub open spec fn describe(self) -> Seq<char> {
        match self {
            ParseErrorView::Json { message } => "invalid JSON: "@ + message,
            ParseErrorView::MissingField { name, at } => "missing field "@ + name + " at "@ + at,
            ParseErrorView::Invalid { at, message } => "invalid value at "@ + at + ": "@ + message,
        }
    }
}

impl ParseError {
    /// The error as one line of text: what went wrong and where.
    pub fn describe(&self) -> (r: String)
        ensures
            r@ == self@.describe(),
    {
        match self {
            ParseError::Json { message } => String::from_str("invalid JSON: ").concat(
                message.as_str(),
            ),
            ParseError::MissingField { name, at } => String::from_str("missing field ").concat(
                name.as_str(),
            ).concat(" at ").concat(at.as_str()),
            ParseError::Invalid { at, message } => String::from_str("invalid value at ").concat(
                at.as_str(),
            ).concat(": ").concat(message.as_str()),
        }
    }
}

/// The media type that marks a structured body, as a prefix of the declared
/// content type.
pub open spec fn structured_prefix() -> Seq<char> {
    "application/json"@
}

/// The media type assumed for a body that declares none.
pub open spec fn default_mimetype() -> Seq<char> {
    "application/octet-stream"@
}

/// Whether a content type announces structured data.
pub open spec fn is_structured(content_type: Seq<char>) -> bool {
    structured_prefix().is_prefix_of(content_type)
}

/// The content type a body goes by: the declared one, or the default.
pub open spec fn effective_type(declared: Option<Seq<char>>) -> Seq<char> {
    match declared {
        Some(t) => t,
        None => default_mimetype(),
    }
}

/// The error for a structured body whose bytes are not text.
pub open spec fn not_text() -> ParseErrorView {
    ParseErrorView::Invalid { at: "body"@, message: "not valid UTF-8"@ }
}

/// What a parsed text stands for as the outcome of decoding a structured
/// body.
pub open spec fn structured_outcome(
    parsed: Result<serde_json::Value, serde_json::Error>,
) -> Result<serde_json::Value, ParseErrorView> {
    match parsed {
        Ok(value) => Ok(value),
        Err(error) => Err(ParseErrorView::Json { message: json_error_text(error) }),
    }
}

/// The JSON value that a structured body holds. A body that is not UTF-8
/// text holds none, as little as one that is not well-formed JSON.
pub open spec fn structured_body(body: Seq<u8>) -> Result<serde_json::Value, ParseErrorView> {
    match body_text(body) {
        None => Err(not_text()),
        Some(text) => structured_outcome(json_parse(text)),
    }
}

/// The payload that a body decodes to under its declared content type.
pub open spec fn decoded(body: Seq<u8>, declared: Option<Seq<char>>) -> Result<
    PayloadView,
    ParseErrorView,
> {
    let content_type = effective_type(declared);
    if is_structured(content_type) {
        match structured_body(body) {
            Ok(value) => Ok(PayloadView::Json(value)),
            Err(error) => Err(error),
        }
    } else {
        Ok(PayloadView::Binary(BinaryView { mimetype: content_type, data: body }))
    }
}

/// The views of a decoded payload, or of the reason why there is none.
pub open spec fn payload_result_view(r: Result<Payload, ParseError>) -> Result<
    PayloadView,
    ParseErrorView,
> {
    match r {
        Ok(payload) => Ok(payload@),
        Err(error) => Err(error@),
    }
}

/// The view of the reason why a structured body gave no value.
pub open spec fn json_result_view(r: Result<serde_json::Value, ParseError>) -> Result<
    serde_json::Value,
    ParseErrorView,
> {
    match r {
        Ok(value) => Ok(value),
        Err(error) => Err(error@),
    }
}

/// Turns the outcome of parsing a text into the outcome of decoding a
/// structured body: the value, or a parse error that carries the parser's
/// message.
pub fn from_parsed(parsed: Result<serde_json::Value, serde_json::Error>) -> (r: Result<
    serde_json::Value,
    ParseError,
>)
    ensures
        json_result_view(r) == structured_outcome(parsed),
{
    match parsed {
        Ok(value) => Ok(value),
        Err(error) => Err(ParseError::Json { message: crate::json::error_text(&error) }),
    }
}

/// Reads a whole body as one JSON value.
pub fn parse_body(body: &Vec<u8>) -> (r: Result<serde_json::Value, ParseError>)
    ensures
        json_result_view(r) == structured_body(body@),
{
    match read_body_to_string(body) {
        None => Err(
            ParseError::Invalid {
                at: String::from_str("body"),
                message: String::from_str("not valid UTF-8"),
            },
        ),
        Some(text) => from_parsed(crate::json::parse(text.as_str())),
    }
}

/// Decodes a request body. A content type that begins with the structured
/// media type has the whole body parsed as JSON; under any other, and where
/// none is declared, the bytes are kept as they are, labelled with the
/// content type.
pub fn decode(body: &Vec<u8>, content_type: &Option<String>) -> (r: Result<Payload, ParseError>)
    ensures
        payload_result_view(r) == decoded(body@, opt_view(*content_type)),
{
    let declared = match content_type {
        Some(t) => t.clone(),
        None => String::from_str("application/octet-stream"),
    };
    if starts_with(declared.as_str(), "application/json") {
        match parse_body(body) {
            Ok(value) => Ok(Payload::Json(value)),
            Err(error) => Err(error),
        }
    } else {
        Ok(Payload::Binary(Binary { mimetype: declared, data: body.clone() }))
    }
}

} // verus!
