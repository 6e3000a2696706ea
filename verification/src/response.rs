//! The answer to one HTTP request, as plain values.

use vstd::prelude::*;
use vstd::string::StrSliceExecFns;
use vstd::string::StringExecFns;
use vstd::utf8::encode_utf8;
use crate::error::RequestError;

verus! {

/// Content type of a property list.
pub const PLIST_CONTENT_TYPE: &'static str = "application/x-plist";

/// Content type of a JSON document.
pub const JSON_CONTENT_TYPE: &'static str = "application/json";

/// Content type of the text that says why a request failed.
pub const TEXT_CONTENT_TYPE: &'static str = "text/plain; charset=utf-8";

/// Status code of an answer that carries the requested document.
pub const STATUS_OK: u16 = 200;

/// Status code of an answer to a request that lacks a usable parameter.
pub const STATUS_BAD_REQUEST: u16 = 400;

/// Status code of an answer when the document could not be encoded.
pub const STATUS_INTERNAL_ERROR: u16 = 500;

/// What an HTTP answer consists of: a status code, the value of the
/// `Content-Type` header, and the bytes of the body.
#[derive(Debug, Clone, PartialEq, Eq)]
pub struct Response {
    pub status: u16,
    pub content_type: String,
    pub body: Vec<u8>,
}

/// The mathematical value of a [`Response`].
pub struct ResponseModel {
    pub status: int,
    pub content_type: Seq<char>,
    pub body: Seq<u8>,
}

impl View for Response {
    type V = ResponseModel;

    open spec fn view(&self) -> ResponseModel {
        ResponseModel {
            status: self.status as int,
            content_type: self.content_type@,
            body: self.body@,
        }
    }
}

impl RequestError {
    /// The status code that answers a request which failed in this way:
    /// 500 where the document could not be encoded, 400 for everything
    /// that is wrong about the request.
    pub open spec fn status(self) -> int {
        match self {
            RequestError::SerializationFailure => STATUS_INTERNAL_ERROR as int,
            _ => STATUS_BAD_REQUEST as int,
        }
    }

    /// The sentence that says what went wrong. It names the parameter
    /// where one is at fault.
    pub open spec fn text(self) -> Seq<char> {
        match self {
            RequestError::MalformedQuery => "malformed query string"@,
            RequestError::MissingParameter(param) => "missing query parameter: "@ + param.key(),
            RequestError::RepeatedParameter(param) => "repeated query parameter: "@ + param.key(),
            RequestError::SerializationFailure => "failed to encode the document"@,
        }
    }

    /// The status code that answers a request which failed in this way.
    pub fn status_code(self) -> (code: u16)
        ensures
            code as int == self.status(),
    {
        match self {
            RequestError::SerializationFailure => STATUS_INTERNAL_ERROR,
            _ => STATUS_BAD_REQUEST,
        }
    }

    /// The sentence that says what went wrong.
    pub fn message(self) -> (message: String)
        ensures
            message@ == self.text(),
    {
        match self {
            RequestError::MalformedQuery => "malformed query string".to_owned(),
            RequestError::MissingParameter(param) => {
                let mut message = "missing query parameter: ".to_owned();
                message.append(param.name());
                message
            },
            RequestError::RepeatedParameter(param) => {
                let mut message = "repeated query parameter: ".to_owned();
                message.append(param.name());
                message
            },
            RequestError::SerializationFailure => "failed to encode the document".to_owned(),
        }
    }
}

/// The answer to a request that failed: the error's status code, and
/// its sentence as plain text.
pub open spec fn failure(error: RequestError) -> ResponseModel {
    ResponseModel {
        status: error.status(),
        content_type: TEXT_CONTENT_TYPE@,
        body: encode_utf8(error.text()),
    }
}

/// The answer that carries a document of the given content type, or the
/// answer to the failure that stood in the document's way.
pub open spec fn document(content_type: Seq<char>, outcome: Result<Seq<u8>, RequestError>)
    -> ResponseModel {
    match outcome {
        Ok(body) => ResponseModel { status: STATUS_OK as int, content_type, body },
        Err(error) => failure(error),
    }
}

/// The bytes of an encoding outcome.
pub open spec fn outcome_model(outcome: Result<Vec<u8>, RequestError>) -> Result<
    Seq<u8>,
    RequestError,
> {
    match outcome {
        Ok(body) => Ok(body@),
        Err(error) => Err(error),
    }
}

impl Response {
    /// The answer to a request that failed.
    pub fn failure(error: RequestError) -> (response: Response)
        ensures
            response@ == failure(error),
    {
        let message = error.message();
        let body = message.as_str().as_bytes_vec();
        Response::new(error.status_code(), TEXT_CONTENT_TYPE, body)
    }

    /// The answer that carries an encoded document, or the answer to the
    /// failure that stood in its way.
    pub fn document(content_type: &str, outcome: Result<Vec<u8>, RequestError>) -> (response:
        Response)
        ensures
            response@ == document(content_type@, outcome_model(outcome)),
    {
        match outcome {
            Ok(body) => Response::new(STATUS_OK, content_type, body),
            Err(error) => Response::failure(error),
        }
    }

    /// An answer with the given status, content type and body.
    pub fn new(status: u16, content_type: &str, body: Vec<u8>) -> (response: Response)
        ensures
            response@ == (ResponseModel {
                status: status as int,
                content_type: content_type@,
                body: body@,
            }),
    {
        Response { status, content_type: content_type.to_owned(), body }
    }
}

} // verus!
