//! Responses, and the response to a file request once the file was read.

use vstd::prelude::*;
use vstd::string::*;
use crate::media::{media_type, text_of};
use crate::outcome::FileOutcome;
use crate::request::FileRequest;

verus! {

/// The status of an answer.
#[derive(Clone, Copy, Debug, PartialEq, Eq, Structural)]
pub enum Status {
    /// 200
    Success,
    /// 404
    NotFound,
    /// 500
    InternalServerError,
}

impl Status {
    /// The status code as a number.
    pub open spec fn spec_code(self) -> u16 {
        match self {
            Status::Success => 200,
            Status::NotFound => 404,
            Status::InternalServerError => 500,
        }
    }

    /// The status code as a number.
    pub fn code(self) -> (code: u16)
        ensures
            code == self.spec_code(),
    {
        match self {
            Status::Success => 200,
            Status::NotFound => 404,
            Status::InternalServerError => 500,
        }
    }
}

/// An answer: status, the value of the `Content-Type` header if there is one,
/// and the body.
#[derive(Clone, Debug)]
pub struct Response {
    pub status: Status,
    pub content_type: Option<String>,
    pub body: Vec<u8>,
}

/// What a `Response` is in contracts.
pub struct ResponseView {
    pub status: Status,
    pub content_type: Option<Seq<char>>,
    pub body: Seq<u8>,
}

impl View for Response {
    type V = ResponseView;

    open spec fn view(&self) -> ResponseView {
        ResponseView {
            status: self.status,
            content_type: text_of(self.content_type),
            body: self.body@,
        }
    }
}

/// The greeting: 200, plain text, and the greeting's bytes.
pub open spec fn greeting_view() -> ResponseView {
    ResponseView {
        status: Status::Success,
        content_type: Some("text/plain; charset=utf-8"@),
        body: "Hello, world!".spec_bytes(),
    }
}

/// An answer without a body.
pub open spec fn bare_view(status: Status) -> ResponseView {
    ResponseView { status, content_type: None, body: Seq::empty() }
}

/// The answer to a file request, given what became of reading the file.
pub open spec fn served_view(media_type: Option<Seq<char>>, outcome: FileOutcome) -> ResponseView {
    match outcome {
        FileOutcome::Contents(bytes) => ResponseView {
            status: Status::Success,
            content_type: media_type,
            body: bytes@,
        },
        FileOutcome::Missing => bare_view(Status::NotFound),
        FileOutcome::Unreadable => bare_view(Status::InternalServerError),
    }
}

impl Response {
    /// The greeting.
    pub fn greeting() -> (r: Response)
        ensures
            r@ == greeting_view(),
    {
        Response {
            status: Status::Success,
            content_type: Some("text/plain; charset=utf-8".to_owned()),
            body: crate::index().as_bytes_vec(),
        }
    }

    /// An answer with this status and no body.
    pub fn bare(status: Status) -> (r: Response)
        ensures
            r@ == bare_view(status),
    {
        Response { status, content_type: None, body: Vec::new() }
    }

    /// The answer to a file request whose file is served with `media_type`,
    /// given what became of reading it: the file's bytes as they are, 404
    /// where there is no such file, 500 where it could not be read.
    pub fn file(media_type: Option<String>, outcome: FileOutcome) -> (r: Response)
        ensures
            r@ == served_view(text_of(media_type), outcome),
    {
        match outcome {
            FileOutcome::Contents(bytes) => Response {
                status: Status::Success,
                content_type: media_type,
                body: bytes,
            },
            FileOutcome::Missing => Response::bare(Status::NotFound),
            FileOutcome::Unreadable => Response::bare(Status::InternalServerError),
        }
    }
}

/// Answers a file request, given what became of reading the file. The media
/// type goes by the extension of the file's name.
pub fn serve(request: &FileRequest, outcome: FileOutcome) -> (r: Response)
    ensures
        r@ == served_view(request@.media_type(), outcome),
        outcome matches FileOutcome::Contents(bytes) ==> r.status == Status::Success && r.body@
            == bytes@,
        outcome is Missing ==> r.status == Status::NotFound,
        outcome is Unreadable ==> r.status == Status::InternalServerError,
{
    let media = match request.file_name() {
        Some(name) => media_type(name.as_str()),
        None => None,
    };
    Response::file(media, outcome)
}

} // verus!
