//! Responses as plain values: what a handler answers, without the means to
//! send it.

use crate::api::{Status, StatusView};
use rustc_serialize::json::{Json, ToJson};
use std::collections::BTreeMap;
use vstd::prelude::*;

verus! {

/// The status codes that the handlers answer with.
#[derive(Debug, Clone, Copy, PartialEq, Eq, Structural)]
pub enum StatusCode {
    Success,
    NoContent,
    BadRequest,
    InternalServerError,
}

/// What a response carries.
#[derive(Debug, PartialEq, Eq)]
pub enum Body {
    Empty,
    /// JSON text, ready to be sent.
    Json(String),
    /// A status document, to be sent in its JSON form.
    Document(Status),
}

/// A response to a request, without the means to send it.
#[derive(Debug, PartialEq, Eq)]
pub struct Response {
    pub status: StatusCode,
    pub content_type: String,
    /// Whether the response is marked as not to be cached.
    pub no_cache: bool,
    /// Whether pages of any origin may read the response.
    pub allow_any_origin: bool,
    pub body: Body,
}

/// The view of a [`Body`].
pub enum BodyView {
    Empty,
    Json(Seq<char>),
    Document(StatusView),
}

/// The view of a [`Response`].
pub struct ResponseView {
    pub status: StatusCode,
    pub content_type: Seq<char>,
    pub no_cache: bool,
    pub allow_any_origin: bool,
    pub body: BodyView,
}

impl View for Body {
    type V = BodyView;

    open spec fn view(&self) -> BodyView {
        match self {
            Body::Empty => BodyView::Empty,
            Body::Json(text) => BodyView::Json(text@),
            Body::Document(status) => BodyView::Document(status@),
        }
    }
}

impl View for Response {
    type V = ResponseView;

    open spec fn view(&self) -> ResponseView {
        ResponseView {
            status: self.status,
            content_type: self.content_type@,
            no_cache: self.no_cache,
            allow_any_origin: self.allow_any_origin,
            body: self.body@,
        }
    }
}

/// The response with the given status and body, and the headers that every
/// response of the handlers has: JSON as content type, not to be cached,
/// readable from any origin.
pub open spec fn response_with(status: StatusCode, body: BodyView) -> ResponseView {
    ResponseView {
        status,
        content_type: "application/json; charset=utf-8"@,
        no_cache: true,
        allow_any_origin: true,
        body,
    }
}

/// The text that `rustc_serialize` renders for the JSON object with the two
/// members `key1: value1` and `key2: value2`, all four of them strings.
pub uninterp spec fn json_object_text(
    key1: Seq<char>,
    value1: Seq<char>,
    key2: Seq<char>,
    value2: Seq<char>,
) -> Seq<char>;

/// Calls `rustc_serialize::json`: makes a `Json::Object` that holds the two
/// members, their values as `Json::String`, and renders it by `to_string`. It is
/// taken on trust that the text depends on the four strings alone.
#[verifier::external_body]
fn json_object(key1: &str, value1: &str, key2: &str, value2: &str) -> (text: String)
    ensures
        text@ == json_object_text(key1@, value1@, key2@, value2@),
{
    let mut object = BTreeMap::new();
    object.insert(key1.to_string(), value1.to_json());
    object.insert(key2.to_string(), value2.to_json());
    Json::Object(object).to_string()
}

/// The JSON text that tells a client why its request failed.
pub open spec fn error_json(reason: Seq<char>) -> Seq<char> {
    json_object_text("status"@, "error"@, "reason"@, reason)
}

/// The response that reports an error with the given status and reason.
pub open spec fn error_response(status: StatusCode, reason: Seq<char>) -> ResponseView {
    response_with(status, BodyView::Json(error_json(reason)))
}

/// What a client is told when its request failed.
pub(crate) struct ErrorResponse {
    pub(crate) reason: String,
}

impl ErrorResponse {
    /// Serialize an ErrorResponse object into a proper JSON structure.
    pub(crate) fn to_json(&self) -> (text: String)
        ensures
            text@ == error_json(self.reason@),
    {
        json_object("status", "error", "reason", self.reason.as_str())
    }
}

impl Response {
    /// The response with the given status and body, and the headers that
    /// every response has.
    pub fn new(status: StatusCode, body: Body) -> (res: Response)
        ensures
            res@ == response_with(status, body@),
    {
        Response {
            status,
            content_type: String::from_str("application/json; charset=utf-8"),
            no_cache: true,
            allow_any_origin: true,
            body,
        }
    }
}

} // verus!
