//! What a handler answers: a status and a body.
//!
//! The caller turns a [`Reply`] into bytes on the wire; the shapes below
//! fix what those bytes say.

use vstd::prelude::*;

verus! {

/// The statuses that the handlers use.
#[derive(Clone, Copy, Debug, PartialEq, Eq, Structural)]
pub enum Status {
    Okay,
    Created,
    BadRequest,
    Unauthorized,
    NotFound,
    InternalServerError,
}

impl Status {
    /// The numeric HTTP status code.
    pub open spec fn spec_code(self) -> u16 {
        match self {
            Status::Okay => 200,
            Status::Created => 201,
            Status::BadRequest => 400,
            Status::Unauthorized => 401,
            Status::NotFound => 404,
            Status::InternalServerError => 500,
        }
    }

    #[verifier::when_used_as_spec(spec_code)]
    pub fn code(self) -> (c: u16)
        ensures
            c == self.spec_code(),
    {
        match self {
            Status::Okay => 200,
            Status::Created => 201,
            Status::BadRequest => 400,
            Status::Unauthorized => 401,
            Status::NotFound => 404,
            Status::InternalServerError => 500,
        }
    }
}

/// The body of a reply.
#[derive(Debug, PartialEq, Eq)]
pub enum Body<T> {
    /// The payload alone, as JSON.
    Json(T),
    /// The object `{"status": "success", "data": <payload>}`.
    Data(T),
    /// The object `{"status": "success", "message": <text>}`.
    Message(String),
    /// The object `{"status": "success"}`.
    Success,
    /// A plain message, as failures carry it.
    Text(String),
}

/// The mathematical value of a [`Body`].
pub enum BodyView<V> {
    Json(V),
    Data(V),
    Message(Seq<char>),
    Success,
    Text(Seq<char>),
}

impl<T: DeepView> DeepView for Body<T> {
    type V = BodyView<T::V>;

    open spec fn deep_view(&self) -> BodyView<T::V> {
        match *self {
            Body::Json(p) => BodyView::Json(p.deep_view()),
            Body::Data(p) => BodyView::Data(p.deep_view()),
            Body::Message(m) => BodyView::Message(m@),
            Body::Success => BodyView::Success,
            Body::Text(m) => BodyView::Text(m@),
        }
    }
}

/// A status together with a body.
#[derive(Debug, PartialEq, Eq)]
pub struct Reply<T> {
    pub status: Status,
    pub body: Body<T>,
}

/// The mathematical value of a [`Reply`].
pub struct ReplyView<V> {
    pub status: Status,
    pub body: BodyView<V>,
}

impl<T: DeepView> DeepView for Reply<T> {
    type V = ReplyView<T::V>;

    open spec fn deep_view(&self) -> ReplyView<T::V> {
        ReplyView { status: self.status, body: self.body.deep_view() }
    }
}

/// The value of a failure: `status` with the plain message `text`.
pub open spec fn failure_view<V>(status: Status, text: Seq<char>) -> ReplyView<V> {
    ReplyView { status, body: BodyView::Text(text) }
}

/// The value of a success whose payload is wrapped as `data`.
pub open spec fn data_view<V>(status: Status, payload: V) -> ReplyView<V> {
    ReplyView { status, body: BodyView::Data(payload) }
}

/// The value of a success whose payload is the whole body.
pub open spec fn json_view<V>(status: Status, payload: V) -> ReplyView<V> {
    ReplyView { status, body: BodyView::Json(payload) }
}

/// The value of a success that carries a message.
pub open spec fn message_view<V>(status: Status, text: Seq<char>) -> ReplyView<V> {
    ReplyView { status, body: BodyView::Message(text) }
}

/// The value of a success that carries nothing else.
pub open spec fn success_view<V>(status: Status) -> ReplyView<V> {
    ReplyView { status, body: BodyView::Success }
}

/// The value of the reply to a request that failed for a reason of the
/// service's own, such as a statement that the store could not carry
/// out: an internal error whose text gives no detail of the failure.
pub open spec fn internal_error<V>() -> ReplyView<V> {
    failure_view(Status::InternalServerError, "Something went wrong"@)
}

impl<T: DeepView> Reply<T> {
    /// A failure with a plain message.
    pub fn failure(status: Status, text: &str) -> (r: Reply<T>)
        ensures
            r.deep_view() == failure_view::<T::V>(status, text@),
    {
        Reply { status, body: Body::Text(String::from_str(text)) }
    }

    /// The internal error, with its fixed text.
    pub fn internal_error() -> (r: Reply<T>)
        ensures
            r.deep_view() == internal_error::<T::V>(),
    {
        Reply { status: Status::InternalServerError, body: Body::Text(String::from_str("Something went wrong")) }
    }

    /// A success that carries the message `text`.
    pub fn message(status: Status, text: &str) -> (r: Reply<T>)
        ensures
            r.deep_view() == message_view::<T::V>(status, text@),
    {
        Reply { status, body: Body::Message(String::from_str(text)) }
    }

    /// A success that carries nothing else.
    pub fn success(status: Status) -> (r: Reply<T>)
        ensures
            r.deep_view() == success_view::<T::V>(status),
    {
        Reply { status, body: Body::Success }
    }

    /// A success that wraps `payload` as `data`.
    pub fn data(status: Status, payload: T) -> (r: Reply<T>)
        ensures
            r.deep_view() == data_view(status, payload.deep_view()),
            r.body == Body::Data(payload),
    {
        Reply { status, body: Body::Data(payload) }
    }

    /// A success whose body is `payload` itself.
    pub fn json(status: Status, payload: T) -> (r: Reply<T>)
        ensures
            r.deep_view() == json_view(status, payload.deep_view()),
            r.body == Body::Json(payload),
    {
        Reply { status, body: Body::Json(payload) }
    }
}

} // verus!
