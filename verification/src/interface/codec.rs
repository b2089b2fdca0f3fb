//! The codec: from request text to a request envelope, and from a response
//! envelope to response text.
//!
//! A request is a JSON object with a string `source`, a number `version`, and
//! an object `request` that has a string `type`. Other members are ignored.
//! A response is written as `{"status":..,"message":..,"code":..}`, in that
//! order and without spaces.

use vstd::prelude::*;
use crate::interface::json::{
    json_of,
    json_parse,
    json_quoted,
    parse_json,
    quote_json,
    value_is_object,
    value_member,
    value_number_text,
    value_text,
    JsonTree,
};
use crate::interface::model::{Request, RequestData, RequestView, ResponseData, ResponseView};
use crate::text::{decimal, decimal_string};

verus! {

/// A member of the request envelope that decoding looks for.
#[derive(Debug, Clone, Copy, PartialEq, Eq)]
pub enum Field {
    /// `source`, at the top level.
    Source,
    /// `version`, at the top level.
    Version,
    /// `request`, at the top level.
    Request,
    /// `type`, inside `request`.
    Kind,
}

impl Field {
    /// The key of the member on the wire.
    pub open spec fn name(self) -> Seq<char> {
        match self {
            Field::Source => "source"@,
            Field::Version => "version"@,
            Field::Request => "request"@,
            Field::Kind => "type"@,
        }
    }

    /// The key of the member on the wire.
    pub fn key(self) -> (key: &'static str)
        ensures
            key@ == self.name(),
    {
        match self {
            Field::Source => "source",
            Field::Version => "version",
            Field::Request => "request",
            Field::Kind => "type",
        }
    }
}

/// Why a text is no request envelope.
#[derive(Debug, Clone, PartialEq, Eq)]
pub enum DecodeError {
    /// The text is no JSON document; the parser's own diagnostic.
    Syntax(String),
    /// The document is not an object.
    NotAnObject,
    /// The object, or its `request`, lacks a member.
    MissingField(Field),
    /// A member is there and has the wrong type.
    InvalidType(Field),
}

/// The mathematical content of a [`DecodeError`].
pub enum DecodeErrorView {
    Syntax(Seq<char>),
    NotAnObject,
    MissingField(Field),
    InvalidType(Field),
}

impl View for DecodeError {
    type V = DecodeErrorView;

    open spec fn view(&self) -> DecodeErrorView {
        match self {
            DecodeError::Syntax(diagnostic) => DecodeErrorView::Syntax(diagnostic@),
            DecodeError::NotAnObject => DecodeErrorView::NotAnObject,
            DecodeError::MissingField(field) => DecodeErrorView::MissingField(*field),
            DecodeError::InvalidType(field) => DecodeErrorView::InvalidType(*field),
        }
    }
}

impl DecodeErrorView {
    /// The diagnostic text of the error.
    pub open spec fn diagnostic(self) -> Seq<char> {
        match self {
            DecodeErrorView::Syntax(diagnostic) => diagnostic,
            DecodeErrorView::NotAnObject => "invalid type: expected a request object"@,
            DecodeErrorView::MissingField(field) => "missing field `"@ + field.name() + "`"@,
            DecodeErrorView::InvalidType(field) => "invalid type for field `"@ + field.name()
                + "`"@,
        }
    }
}

impl DecodeError {
    /// The diagnostic text of the error.
    pub fn diagnostic(&self) -> (text: String)
        ensures
            text@ == self@.diagnostic(),
    {
        match self {
            DecodeError::Syntax(diagnostic) => diagnostic.clone(),
            DecodeError::NotAnObject => String::from_str("invalid type: expected a request object"),
            DecodeError::MissingField(field) => {
                let mut text = String::from_str("missing field `");
                text.append(field.key());
                text.append("`");
                text
            },
            DecodeError::InvalidType(field) => {
                let mut text = String::from_str("invalid type for field `");
                text.append(field.key());
                text.append("`");
                text
            },
        }
    }
}

/// The string member `field` of an object.
pub open spec fn text_member(tree: JsonTree, field: Field) -> Result<Seq<char>, DecodeErrorView> {
    match tree.member(field.name()) {
        None => Err(DecodeErrorView::MissingField(field)),
        Some(JsonTree::Text(text)) => Ok(text),
        Some(_) => Err(DecodeErrorView::InvalidType(field)),
    }
}

/// The number member `field` of an object, as the number's text.
pub open spec fn number_member(tree: JsonTree, field: Field) -> Result<
    Seq<char>,
    DecodeErrorView,
> {
    match tree.member(field.name()) {
        None => Err(DecodeErrorView::MissingField(field)),
        Some(JsonTree::Number(text)) => Ok(text),
        Some(_) => Err(DecodeErrorView::InvalidType(field)),
    }
}

/// The object member `field` of an object.
pub open spec fn object_member(tree: JsonTree, field: Field) -> Result<JsonTree, DecodeErrorView> {
    match tree.member(field.name()) {
        None => Err(DecodeErrorView::MissingField(field)),
        Some(JsonTree::Object(members)) => Ok(JsonTree::Object(members)),
        Some(_) => Err(DecodeErrorView::InvalidType(field)),
    }
}

/// The request envelope that a JSON value is, or the first reason why it is
/// none. Members are looked at in the order `source`, `version`, `request`,
/// `type`.
pub open spec fn envelope_of(tree: JsonTree) -> Result<RequestView, DecodeErrorView> {
    if !(tree is Object) {
        Err(DecodeErrorView::NotAnObject)
    } else {
        match text_member(tree, Field::Source) {
            Err(error) => Err(error),
            Ok(source) => match number_member(tree, Field::Version) {
                Err(error) => Err(error),
                Ok(version) => match object_member(tree, Field::Request) {
                    Err(error) => Err(error),
                    Ok(request) => match text_member(request, Field::Kind) {
                        Err(error) => Err(error),
                        Ok(kind) => Ok(RequestView { source, version, kind }),
                    },
                },
            },
        }
    }
}

/// The request envelope that a text is, or why it is none.
pub open spec fn decoded(text: Seq<char>) -> Result<RequestView, DecodeErrorView> {
    match json_parse(text) {
        Err(diagnostic) => Err(DecodeErrorView::Syntax(diagnostic)),
        Ok(tree) => envelope_of(tree),
    }
}

fn text_field(value: &serde_json::Value, field: Field) -> (found: Result<String, DecodeError>)
    ensures
        match found {
            Ok(text) => text_member(json_of(*value), field) == Ok::<Seq<char>, DecodeErrorView>(
                text@,
            ),
            Err(error) => text_member(json_of(*value), field) == Err::<Seq<char>, DecodeErrorView>(
                error@,
            ),
        },
{
    match value_member(value, field.key()) {
        None => Err(DecodeError::MissingField(field)),
        Some(member) => match value_text(member) {
            Some(text) => Ok(text.to_owned()),
            None => Err(DecodeError::InvalidType(field)),
        },
    }
}

fn number_field(value: &serde_json::Value, field: Field) -> (found: Result<String, DecodeError>)
    ensures
        match found {
            Ok(text) => number_member(json_of(*value), field) == Ok::<Seq<char>, DecodeErrorView>(
                text@,
            ),
            Err(error) => number_member(json_of(*value), field) == Err::<
                Seq<char>,
                DecodeErrorView,
            >(error@),
        },
{
    match value_member(value, field.key()) {
        None => Err(DecodeError::MissingField(field)),
        Some(member) => match value_number_text(member) {
            Some(text) => Ok(text),
            None => Err(DecodeError::InvalidType(field)),
        },
    }
}

fn object_field<'a>(value: &'a serde_json::Value, field: Field) -> (found: Result<
    &'a serde_json::Value,
    DecodeError,
>)
    ensures
        match found {
            Ok(inner) => object_member(json_of(*value), field) == Ok::<JsonTree, DecodeErrorView>(
                json_of(*inner),
            ),
            Err(error) => object_member(json_of(*value), field) == Err::<
                JsonTree,
                DecodeErrorView,
            >(error@),
        },
{
    match value_member(value, field.key()) {
        None => Err(DecodeError::MissingField(field)),
        Some(member) => if value_is_object(member) {
            Ok(member)
        } else {
            Err(DecodeError::InvalidType(field))
        },
    }
}

/// Reads a parsed JSON value as a request envelope.
pub fn request_of_value(value: &serde_json::Value) -> (request: Result<RequestData, DecodeError>)
    ensures
        match request {
            Ok(data) => envelope_of(json_of(*value)) == Ok::<RequestView, DecodeErrorView>(data@),
            Err(error) => envelope_of(json_of(*value)) == Err::<RequestView, DecodeErrorView>(
                error@,
            ),
        },
{
    if !value_is_object(value) {
        return Err(DecodeError::NotAnObject);
    }
    let source = match text_field(value, Field::Source) {
        Ok(source) => source,
        Err(error) => {
            return Err(error);
        },
    };
    let version = match number_field(value, Field::Version) {
        Ok(version) => version,
        Err(error) => {
            return Err(error);
        },
    };
    let inner = match object_field(value, Field::Request) {
        Ok(inner) => inner,
        Err(error) => {
            return Err(error);
        },
    };
    let kind = match text_field(inner, Field::Kind) {
        Ok(kind) => kind,
        Err(error) => {
            return Err(error);
        },
    };
    Ok(RequestData { source, version, request: Request { kind } })
}

/// Decodes a request text.
pub fn decode(text: &str) -> (request: Result<RequestData, DecodeError>)
    ensures
        match request {
            Ok(data) => decoded(text@) == Ok::<RequestView, DecodeErrorView>(data@),
            Err(error) => decoded(text@) == Err::<RequestView, DecodeErrorView>(error@),
        },
{
    match parse_json(text) {
        Err(diagnostic) => Err(DecodeError::Syntax(diagnostic)),
        Ok(value) => request_of_value(&value),
    }
}

/// The text of a response envelope, given the JSON string literals of its
/// status and message.
pub open spec fn envelope_text(
    status_literal: Seq<char>,
    message_literal: Seq<char>,
    code: int,
) -> Seq<char> {
    "{\"status\":"@ + status_literal + ",\"message\":"@ + message_literal + ",\"code\":"@
        + decimal(code) + "}"@
}

/// The text of a response envelope, or nothing where one of its strings
/// cannot be written as JSON.
pub open spec fn encoded(response: ResponseView) -> Option<Seq<char>> {
    match (json_quoted(response.status), json_quoted(response.message)) {
        (Some(status), Some(message)) => Some(envelope_text(status, message, response.code)),
        _ => None,
    }
}

/// Puts a response envelope together from the JSON string literals of its
/// status and message, and its code.
pub fn assemble_envelope(status_literal: &str, message_literal: &str, code: i32) -> (text: String)
    ensures
        text@ == envelope_text(status_literal@, message_literal@, code as int),
{
    let mut text = String::from_str("{\"status\":");
    text.append(status_literal);
    text.append(",\"message\":");
    text.append(message_literal);
    text.append(",\"code\":");
    let code_text = decimal_string(code);
    text.append(code_text.as_str());
    text.append("}");
    text
}

/// Encodes a response envelope.
pub fn encode(response: &ResponseData) -> (text: Option<String>)
    ensures
        match text {
            Some(envelope) => encoded(response@) == Some(envelope@),
            None => encoded(response@) is None,
        },
{
    let status = match quote_json(response.status.as_str()) {
        Some(status) => status,
        None => {
            return None;
        },
    };
    let message = match quote_json(response.message.as_str()) {
        Some(message) => message,
        None => {
            return None;
        },
    };
    Some(assemble_envelope(status.as_str(), message.as_str(), response.code))
}

/// Whether a JSON value has the shape of a request envelope: an object with a
/// string `source`, a number `version` and an object `request` that has a
/// string `type`.
pub open spec fn is_envelope(tree: JsonTree) -> bool {
    &&& tree is Object
    &&& tree.member(Field::Source.name()) matches Some(source) && source is Text
    &&& tree.member(Field::Version.name()) matches Some(version) && version is Number
    &&& tree.member(Field::Request.name()) matches Some(request) && request is Object && (
    request.member(Field::Kind.name()) matches Some(kind) && kind is Text)
}

/// A value is read as a request exactly when it has the shape of an envelope,
/// and then the request holds what the value's members hold: the kind comes
/// back as it stands under `type`, whatever characters it is made of.
pub proof fn lemma_envelope_is_read(tree: JsonTree)
    ensures
        envelope_of(tree) is Ok <==> is_envelope(tree),
        is_envelope(tree) ==> envelope_of(tree) == Ok::<RequestView, DecodeErrorView>(
            RequestView {
                source: tree.member(Field::Source.name())->0->Text_0,
                version: tree.member(Field::Version.name())->0->Number_0,
                kind: tree.member(Field::Request.name())->0.member(Field::Kind.name())->0->Text_0,
            },
        ),
{
}

/// A text that parses to an envelope is decoded to a request of the kind that
/// stands under `type`, whatever characters that kind is made of.
pub proof fn lemma_decode_keeps_kind(text: Seq<char>, tree: JsonTree, kind: Seq<char>)
    requires
        json_parse(text) == Ok::<JsonTree, Seq<char>>(tree),
        is_envelope(tree),
        tree.member(Field::Request.name())->0.member(Field::Kind.name()) == Some(
            JsonTree::Text(kind),
        ),
    ensures
        decoded(text) matches Ok(request) && request.kind == kind,
{
    lemma_envelope_is_read(tree);
}

/// A text is decoded exactly when it parses to a value with the shape of an
/// envelope. A text that does not parse fails with the parser's diagnostic; a
/// value of another shape fails with a diagnostic that is not empty.
pub proof fn lemma_decode_rejects_malformed(text: Seq<char>)
    ensures
        decoded(text) is Ok <==> (json_parse(text) matches Ok(tree) && is_envelope(tree)),
        json_parse(text) matches Err(diagnostic) ==> decoded(text) == Err::<
            RequestView,
            DecodeErrorView,
        >(DecodeErrorView::Syntax(diagnostic)),
        decoded(text) matches Err(error) ==> (error is Syntax || error.diagnostic().len() > 0),
{
    if let Ok(tree) = json_parse(text) {
        lemma_envelope_is_read(tree);
    }
    reveal_strlit("invalid type: expected a request object");
    reveal_strlit("missing field `");
    reveal_strlit("invalid type for field `");
    assert("invalid type: expected a request object"@.len() > 0);
    assert("missing field `"@.len() > 0);
    assert("invalid type for field `"@.len() > 0);
}

} // verus!
