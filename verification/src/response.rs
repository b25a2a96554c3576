//! The answer that a service hands back: a status, two optional headers and
//! a body.

use vstd::prelude::*;
use vstd::utf8::encode_utf8;

verus! {

/// The outcome of a request, in the vocabulary of HTTP.
#[derive(Clone, Copy, Debug, PartialEq, Eq, Structural)]
pub enum Status {
    Success,
    BadRequest,
    InternalServerError,
    ServiceUnavailable,
}

impl Status {
    /// The numeric code of a status.
    pub open spec fn code_spec(self) -> u16 {
        match self {
            Status::Success => 200,
            Status::BadRequest => 400,
            Status::InternalServerError => 500,
            Status::ServiceUnavailable => 503,
        }
    }

    /// The numeric code that goes on the wire.
    pub fn code(self) -> (code: u16)
        ensures
            code == self.code_spec(),
    {
        match self {
            Status::Success => 200,
            Status::BadRequest => 400,
            Status::InternalServerError => 500,
            Status::ServiceUnavailable => 503,
        }
    }
}

/// The kind of body that a response carries.
#[derive(Clone, Copy, Debug, PartialEq, Eq, Structural)]
pub enum ContentType {
    Json,
    PlainText,
}

/// A response of a service. A header that is `None` is not sent.
#[derive(Debug)]
pub struct Response {
    pub status: Status,
    pub content_type: Option<ContentType>,
    pub content_length: Option<u64>,
    pub body: String,
}

/// The mathematical value of a response.
pub struct ResponseView {
    pub status: Status,
    pub content_type: Option<ContentType>,
    pub content_length: Option<u64>,
    pub body: Seq<char>,
}

impl View for Response {
    type V = ResponseView;

    open spec fn view(&self) -> ResponseView {
        ResponseView {
            status: self.status,
            content_type: self.content_type,
            content_length: self.content_length,
            body: self.body@,
        }
    }
}

/// The number of bytes that a text takes on the wire.
pub open spec fn wire_length(text: Seq<char>) -> nat {
    encode_utf8(text).len()
}

impl ResponseView {
    /// A response with a status alone: no header and an empty body.
    pub open spec fn bare(status: Status) -> ResponseView {
        ResponseView {
            status,
            content_type: None,
            content_length: None,
            body: Seq::<char>::empty(),
        }
    }

    /// A JSON response that does not announce its length.
    pub open spec fn json(status: Status, body: Seq<char>) -> ResponseView {
        ResponseView { status, content_type: Some(ContentType::Json), content_length: None, body }
    }

    /// A response that announces the length of its body in bytes.
    pub open spec fn measured(
        status: Status,
        content_type: ContentType,
        body: Seq<char>,
    ) -> ResponseView {
        ResponseView {
            status,
            content_type: Some(content_type),
            content_length: Some(wire_length(body) as u64),
            body,
        }
    }
}

impl Response {
    /// A response with the given status, no header and an empty body.
    pub fn new(status: Status) -> (response: Response)
        ensures
            response@ == ResponseView::bare(status),
    {
        Response { status, content_type: None, content_length: None, body: String::new() }
    }

    /// The same response with a content type.
    pub fn with_content_type(self, content_type: ContentType) -> (response: Response)
        ensures
            response@ == (ResponseView { content_type: Some(content_type), ..self@ }),
    {
        Response {
            status: self.status,
            content_type: Some(content_type),
            content_length: self.content_length,
            body: self.body,
        }
    }

    /// The same response with another body. The announced length stays as it
    /// was.
    pub fn with_body(self, body: String) -> (response: Response)
        ensures
            response@ == (ResponseView { body: body@, ..self@ }),
    {
        Response {
            status: self.status,
            content_type: self.content_type,
            content_length: self.content_length,
            body,
        }
    }

    /// A JSON response that does not announce its length.
    pub fn json(status: Status, body: String) -> (response: Response)
        ensures
            response@ == ResponseView::json(status, body@),
    {
        Response { status, content_type: Some(ContentType::Json), content_length: None, body }
    }

    /// A response that announces the length of its body in bytes.
    pub fn measured(status: Status, content_type: ContentType, body: String) -> (response:
        Response)
        ensures
            response@ == ResponseView::measured(status, content_type, body@),
    {
        let length: usize = body.as_str().as_bytes().len();
        Response {
            status,
            content_type: Some(content_type),
            content_length: Some(length as u64),
            body,
        }
    }
}

} // verus!
