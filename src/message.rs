//! The message model: the three protocol envelopes and their identifier.
//! JSON values that the transport carries without reading (parameters,
//! results, error data) are held as their compact JSON text.
use vstd::prelude::*;

verus! {

/// A request identifier: a string or an integer, kept exactly as received.
#[derive(Debug)]
pub enum RequestId {
    Str(String),
    Num(i64),
}

/// The error member of a failed response.
#[derive(Debug)]
pub struct ErrorObject {
    pub code: i64,
    pub message: String,
    pub data: Option<String>,
}

/// A call that expects a response carrying the same `id`.
#[derive(Debug)]
pub struct Request {
    pub id: RequestId,
    pub method: String,
    pub params: Option<String>,
}

/// The answer to a request: `result` on success, `error` on failure.
#[derive(Debug)]
pub struct Response {
    pub id: RequestId,
    pub result: Option<String>,
    pub error: Option<ErrorObject>,
}

/// A call that expects no response.
#[derive(Debug)]
pub struct Notification {
    pub method: String,
    pub params: Option<String>,
}

/// One protocol message.
#[derive(Debug)]
pub enum Message {
    Request(Request),
    Response(Response),
    Notification(Notification),
}

pub enum IdModel {
    Str(Seq<char>),
    Num(int),
}

pub struct ErrorModel {
    pub code: int,
    pub message: Seq<char>,
    pub data: Option<Seq<char>>,
}

pub enum MessageModel {
    Request { id: IdModel, method: Seq<char>, params: Option<Seq<char>> },
    Response { id: IdModel, result: Option<Seq<char>>, error: Option<ErrorModel> },
    Notification { method: Seq<char>, params: Option<Seq<char>> },
}

pub open spec fn opt_text(o: Option<String>) -> Option<Seq<char>> {
    match o {
        Some(s) => Some(s@),
        None => None,
    }
}

impl View for RequestId {
    type V = IdModel;

    open spec fn view(&self) -> IdModel {
        match self {
            RequestId::Str(s) => IdModel::Str(s@),
            RequestId::Num(n) => IdModel::Num(*n as int),
        }
    }
}

impl View for ErrorObject {
    type V = ErrorModel;

    open spec fn view(&self) -> ErrorModel {
        ErrorModel { code: self.code as int, message: self.message@, data: opt_text(self.data) }
    }
}

pub open spec fn opt_error(o: Option<ErrorObject>) -> Option<ErrorModel> {
    match o {
        Some(e) => Some(e@),
        None => None,
    }
}

impl View for Message {
    type V = MessageModel;

    open spec fn view(&self) -> MessageModel {
        match self {
            Message::Request(r) => MessageModel::Request {
                id: r.id@,
                method: r.method@,
                params: opt_text(r.params),
            },
            Message::Response(r) => MessageModel::Response {
                id: r.id@,
                result: opt_text(r.result),
                error: opt_error(r.error),
            },
            Message::Notification(n) => MessageModel::Notification {
                method: n.method@,
                params: opt_text(n.params),
            },
        }
    }
}

impl MessageModel {
    /// A response never carries both a result and an error.
    pub open spec fn well_formed(self) -> bool {
        match self {
            MessageModel::Response { result, error, .. } => !(result is Some && error is Some),
            _ => true,
        }
    }

    /// The message is the `initialize` request that completes the handshake.
    pub open spec fn is_initialize(self) -> bool {
        match self {
            MessageModel::Request { method, .. } => method == "initialize"@,
            _ => false,
        }
    }
}

fn copy_text(o: &Option<String>) -> (r: Option<String>)
    ensures
        opt_text(r) == opt_text(*o),
{
    match o {
        Some(s) => Some(s.clone()),
        None => None,
    }
}

impl RequestId {
    /// An independent copy of the identifier.
    pub fn copy(&self) -> (r: RequestId)
        ensures
            r@ == self@,
    {
        match self {
            RequestId::Str(s) => RequestId::Str(s.clone()),
            RequestId::Num(n) => RequestId::Num(*n),
        }
    }
}

impl ErrorObject {
    /// An independent copy of the error object.
    pub fn copy(&self) -> (r: ErrorObject)
        ensures
            r@ == self@,
    {
        ErrorObject { code: self.code, message: self.message.clone(), data: copy_text(&self.data) }
    }
}

impl Request {
    /// A request with the given identifier, method and parameters.
    pub fn new(method: String, params: Option<String>, id: RequestId) -> (r: Request)
        ensures
            r.id == id,
            r.method == method,
            r.params == params,
    {
        Request { id, method, params }
    }
}

impl Notification {
    /// A notification with the given method and parameters.
    pub fn new(method: String, params: Option<String>) -> (r: Notification)
        ensures
            r.method == method,
            r.params == params,
    {
        Notification { method, params }
    }
}

impl Response {
    /// A successful response to the request with identifier `id`.
    pub fn success(id: RequestId, result: Option<String>) -> (r: Response)
        ensures
            r.id == id,
            r.result == result,
            r.error is None,
    {
        Response { id, result, error: None }
    }

    /// A failed response to the request with identifier `id`.
    pub fn failure(id: RequestId, error: ErrorObject) -> (r: Response)
        ensures
            r.id == id,
            r.result is None,
            r.error == Some(error),
    {
        Response { id, result: None, error: Some(error) }
    }
}

impl Message {
    /// An independent copy of the message, as each subscriber receives it.
    pub fn copy(&self) -> (r: Message)
        ensures
            r@ == self@,
    {
        match self {
            Message::Request(q) => Message::Request(
                Request { id: q.id.copy(), method: q.method.clone(), params: copy_text(&q.params) },
            ),
            Message::Response(p) => {
                let error = match &p.error {
                    Some(e) => Some(e.copy()),
                    None => None,
                };
                Message::Response(
                    Response { id: p.id.copy(), result: copy_text(&p.result), error },
                )
            },
            Message::Notification(n) => Message::Notification(
                Notification { method: n.method.clone(), params: copy_text(&n.params) },
            ),
        }
    }
}

} // verus!
