use crate::error::{result_view, ApiError, Failure};
use crate::json::{Json, JsonValue};
use vstd::prelude::*;

verus! {

/// The name of the header that carries the API key on every request.
pub const API_KEY_HEADER: &'static str = "X-API-Key";

/// The HTTP method of a request.
#[derive(Debug, Clone, Copy, PartialEq, Eq, Structural)]
pub enum Method {
    Get,
    Post,
    Put,
    Delete,
}

/// A request to the controller: what to send, and where.
///
/// The API key travels in the header `X-API-Key`; the body, where there is
/// one, is sent as JSON.
#[derive(Debug, PartialEq, Eq)]
pub struct Request {
    pub method: Method,
    pub url: String,
    pub api_key: String,
    pub body: Option<Json>,
}

/// The mathematical value of a `Request`.
pub struct RequestValue {
    pub method: Method,
    pub url: Seq<char>,
    pub api_key: Seq<char>,
    pub body: Option<JsonValue>,
}

impl View for Request {
    type V = RequestValue;

    open spec fn view(&self) -> RequestValue {
        RequestValue {
            method: self.method,
            url: self.url@,
            api_key: self.api_key@,
            body: match self.body {
                Some(document) => Some(document@),
                None => None,
            },
        }
    }
}

impl RequestValue {
    /// The headers of the request: the API key under `X-API-Key`, and no
    /// other.
    pub open spec fn headers(self) -> Seq<(Seq<char>, Seq<char>)> {
        seq![("X-API-Key"@, self.api_key)]
    }
}

/// The names and values of a list of headers.
pub open spec fn headers_view(headers: Seq<(String, String)>) -> Seq<(Seq<char>, Seq<char>)> {
    Seq::new(headers.len(), |i: int| (headers[i].0@, headers[i].1@))
}

impl Request {
    /// The headers to send with the request.
    pub fn headers(&self) -> (headers: Vec<(String, String)>)
        ensures
            headers_view(headers@) == self@.headers(),
    {
        let mut headers: Vec<(String, String)> = Vec::new();
        headers.push((String::from_str(API_KEY_HEADER), self.api_key.clone()));
        headers
    }
}

/// What came back for a request.
#[derive(Debug, PartialEq, Eq)]
pub enum Reply {
    /// Nothing came back: sending failed, for the reason given.
    Failed { cause: String },
    /// The controller answered. `text` is the body as sent; `document` is the
    /// body as JSON, where it is JSON.
    Answered { status: u16, text: String, document: Option<Json> },
}

/// The mathematical value of a `Reply`.
pub enum ReplyValue {
    Failed { cause: Seq<char> },
    Answered { status: u16, text: Seq<char>, document: Option<JsonValue> },
}

impl View for Reply {
    type V = ReplyValue;

    open spec fn view(&self) -> ReplyValue {
        match self {
            Reply::Failed { cause } => ReplyValue::Failed { cause: cause@ },
            Reply::Answered { status, text, document } => ReplyValue::Answered {
                status: *status,
                text: text@,
                document: match document {
                    Some(body) => Some(body@),
                    None => None,
                },
            },
        }
    }
}

/// Whether an HTTP status lies in the success class, 200 to 299.
pub open spec fn status_ok(status: u16) -> bool {
    200 <= status < 300
}

/// Decides whether a status lies in the success class.
pub fn is_success(status: u16) -> (ok: bool)
    ensures
        ok == status_ok(status),
{
    200 <= status && status < 300
}

impl ReplyValue {
    /// Whether the controller accepted the request. A request that was not
    /// answered fails with `context` and the cause; an answer outside the
    /// success class fails with `label`, the status and the body text.
    pub open spec fn accepted(self, context: Seq<char>, label: Seq<char>) -> Result<(), Failure> {
        match self {
            ReplyValue::Failed { cause } => Err(Failure::Transport { context, cause }),
            ReplyValue::Answered { status, text, document } => if status_ok(status) {
                Ok(())
            } else {
                Err(Failure::Status { label, status, body: text })
            },
        }
    }

    /// The JSON body of an accepted request. An accepted request whose body
    /// is not JSON fails as malformed.
    pub open spec fn body(self, context: Seq<char>, label: Seq<char>) -> Result<
        JsonValue,
        Failure,
    > {
        match self.accepted(context, label) {
            Err(failure) => Err(failure),
            Ok(_) => match self {
                ReplyValue::Answered { document: Some(document), .. } => Ok(document),
                _ => Err(Failure::Malformed),
            },
        }
    }
}

/// An answer outside the success class is never taken for a success: it
/// fails with its status and its body, whatever the body holds.
pub proof fn lemma_refusal_fails(reply: ReplyValue, context: Seq<char>, label: Seq<char>)
    requires
        reply is Answered,
        !status_ok(reply->status),
    ensures
        reply.accepted(context, label) == Err::<(), Failure>(
            Failure::Status { label, status: reply->status, body: reply->text },
        ),
        reply.body(context, label) == Err::<JsonValue, Failure>(
            Failure::Status { label, status: reply->status, body: reply->text },
        ),
{
}

impl Reply {
    /// Checks that the controller accepted the request.
    pub fn accepted(&self, context: &str, label: &str) -> (outcome: Result<(), ApiError>)
        ensures
            result_view(outcome) == self@.accepted(context@, label@),
    {
        match self {
            Reply::Failed { cause } => Err(
                ApiError::Transport { context: String::from_str(context), cause: cause.clone() },
            ),
            Reply::Answered { status, text, document } => {
                if is_success(*status) {
                    Ok(())
                } else {
                    Err(
                        ApiError::Status {
                            label: String::from_str(label),
                            status: *status,
                            body: text.clone(),
                        },
                    )
                }
            },
        }
    }

    /// The JSON body of an accepted request.
    pub fn body(&self, context: &str, label: &str) -> (outcome: Result<&Json, ApiError>)
        ensures
            result_view(outcome) == self@.body(context@, label@),
    {
        match self.accepted(context, label) {
            Err(error) => Err(error),
            Ok(_) => match self {
                Reply::Answered { document: Some(document), .. } => Ok(document),
                _ => Err(ApiError::Malformed),
            },
        }
    }
}

} // verus!
