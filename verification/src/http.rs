//! Responses as plain data: a status, a content type and a body text.

use vstd::prelude::*;

verus! {

/// The statuses that the service answers with.
#[derive(Debug, Clone, Copy, PartialEq, Eq, Structural)]
pub enum Status {
    /// 200
    Success,
    /// 201
    Created,
    /// 400
    BadRequest,
    /// 404
    NotFound,
    /// 413
    PayloadTooLarge,
    /// 500
    InternalServerError,
}

impl Status {
    /// The status code as a number.
    pub open spec fn number(self) -> int {
        match self {
            Status::Success => 200,
            Status::Created => 201,
            Status::BadRequest => 400,
            Status::NotFound => 404,
            Status::PayloadTooLarge => 413,
            Status::InternalServerError => 500,
        }
    }

    /// Whether the status blames the request: a code from 400 to 499.
    pub open spec fn client_error(self) -> bool {
        400 <= self.number() < 500
    }

    /// The status code.
    pub fn code(&self) -> (n: u16)
        ensures
            n == self.number(),
    {
        match self {
            Status::Success => 200,
            Status::Created => 201,
            Status::BadRequest => 400,
            Status::NotFound => 404,
            Status::PayloadTooLarge => 413,
            Status::InternalServerError => 500,
        }
    }

    /// Whether the code is one from 400 to 499.
    pub fn is_client_error(&self) -> (b: bool)
        ensures
            b == self.client_error(),
    {
        let n: u16 = self.code();
        400 <= n && n < 500
    }
}

/// What the `Content-Type` header of a response says.
#[derive(Debug, Clone, Copy, PartialEq, Eq, Structural)]
pub enum ContentType {
    /// No header is sent.
    Unset,
    /// `application/json`
    Json,
    /// `text/plain; charset=utf-8`
    PlainText,
}

impl ContentType {
    /// The header's value, where one is sent.
    pub open spec fn header(self) -> Option<Seq<char>> {
        match self {
            ContentType::Unset => None,
            ContentType::Json => Some("application/json"@),
            ContentType::PlainText => Some("text/plain; charset=utf-8"@),
        }
    }

    /// The value to send in the header, or `None` where no header is sent.
    pub fn header_value(&self) -> (value: Option<&'static str>)
        ensures
            value is Some == self.header() is Some,
            value is Some ==> value->0@ == self.header()->0,
    {
        match self {
            ContentType::Unset => None,
            ContentType::Json => Some("application/json"),
            ContentType::PlainText => Some("text/plain; charset=utf-8"),
        }
    }
}

/// A response, ready to be sent.
#[derive(Debug, Clone, PartialEq, Eq)]
pub struct Response {
    pub status: Status,
    pub content_type: ContentType,
    pub body: String,
}

/// A response as the contracts see it.
pub struct ResponseView {
    pub status: Status,
    pub content_type: ContentType,
    pub body: Seq<char>,
}

impl View for Response {
    type V = ResponseView;

    open spec fn view(&self) -> ResponseView {
        ResponseView { status: self.status, content_type: self.content_type, body: self.body@ }
    }
}

impl Response {
    /// A response without a body.
    pub fn empty(status: Status) -> (r: Response)
        ensures
            r@ == (ResponseView { status, content_type: ContentType::Unset, body: Seq::empty() }),
    {
        Response { status, content_type: ContentType::Unset, body: String::new() }
    }

    /// A response whose body is sent as it is, with no content type.
    pub fn raw(status: Status, body: String) -> (r: Response)
        ensures
            r@ == (ResponseView { status, content_type: ContentType::Unset, body: body@ }),
    {
        Response { status, content_type: ContentType::Unset, body }
    }

    /// A response that carries a JSON document.
    pub fn json(status: Status, document: String) -> (r: Response)
        ensures
            r@ == (ResponseView { status, content_type: ContentType::Json, body: document@ }),
    {
        Response { status, content_type: ContentType::Json, body: document }
    }

    /// A response that carries plain text, declared as such.
    pub fn plain_text(status: Status, text: String) -> (r: Response)
        ensures
            r@ == (ResponseView { status, content_type: ContentType::PlainText, body: text@ }),
    {
        Response { status, content_type: ContentType::PlainText, body: text }
    }
}

} // verus!
