use vstd::prelude::*;

verus! {

/// Status code of a successful response.
pub const STATUS_OK: u16 = 200;

/// Status code of a response for a resource that does not exist.
pub const STATUS_NOT_FOUND: u16 = 404;

/// Status code of a response for a failed collaborator call.
pub const STATUS_INTERNAL: u16 = 500;

/// The two classes of failure a handler can report.
#[derive(Clone, Copy, Debug, PartialEq, Eq, Structural)]
pub enum ErrorKind {
    NotFound,
    Internal,
}

/// A failure, with the message the caller is shown.
#[derive(Debug)]
pub enum ApiError {
    NotFound(String),
    Internal(String),
}

/// Abstract value of an envelope: the payload, or the failure kind and message.
pub enum ReplyView<T> {
    Success(T),
    Failure(ErrorKind, Seq<char>),
}

/// Status code that goes with a reply.
pub open spec fn status_of<T>(r: ReplyView<T>) -> u16 {
    match r {
        ReplyView::Success(_) => STATUS_OK,
        ReplyView::Failure(ErrorKind::NotFound, _) => STATUS_NOT_FOUND,
        ReplyView::Failure(ErrorKind::Internal, _) => STATUS_INTERNAL,
    }
}

/// Message of a reply; empty for a success.
pub open spec fn message_of<T>(r: ReplyView<T>) -> Seq<char> {
    match r {
        ReplyView::Success(_) => Seq::empty(),
        ReplyView::Failure(_, m) => m,
    }
}

/// Payload of a reply, if it carries one.
pub open spec fn payload_of<T>(r: ReplyView<T>) -> Option<T> {
    match r {
        ReplyView::Success(t) => Some(t),
        ReplyView::Failure(_, _) => None,
    }
}

impl ErrorKind {
    pub open spec fn status_spec(self) -> u16 {
        match self {
            ErrorKind::NotFound => STATUS_NOT_FOUND,
            ErrorKind::Internal => STATUS_INTERNAL,
        }
    }

    /// Status code of this kind of failure.
    pub fn status(self) -> (r: u16)
        ensures
            r == self.status_spec(),
    {
        match self {
            ErrorKind::NotFound => STATUS_NOT_FOUND,
            ErrorKind::Internal => STATUS_INTERNAL,
        }
    }
}

impl ApiError {
    pub open spec fn kind_spec(&self) -> ErrorKind {
        match self {
            ApiError::NotFound(_) => ErrorKind::NotFound,
            ApiError::Internal(_) => ErrorKind::Internal,
        }
    }

    pub open spec fn message_spec(&self) -> Seq<char> {
        match self {
            ApiError::NotFound(m) => m@,
            ApiError::Internal(m) => m@,
        }
    }

    /// Kind of this failure.
    pub fn kind(&self) -> (r: ErrorKind)
        ensures
            r == self.kind_spec(),
    {
        match self {
            ApiError::NotFound(_) => ErrorKind::NotFound,
            ApiError::Internal(_) => ErrorKind::Internal,
        }
    }

    /// Status code of this failure: 404 for `NotFound`, 500 for `Internal`.
    pub fn status(&self) -> (r: u16)
        ensures
            r == self.kind_spec().status_spec(),
    {
        self.kind().status()
    }

    /// Message shown to the caller.
    pub fn message(&self) -> (r: &String)
        ensures
            r@ == self.message_spec(),
    {
        match self {
            ApiError::NotFound(m) => m,
            ApiError::Internal(m) => m,
        }
    }
}

/// The one result a handler produces per request.
#[derive(Debug)]
pub enum Envelope<T> {
    Success(T),
    Failure(ApiError),
}

impl<T> View for Envelope<T> {
    type V = ReplyView<T>;

    open spec fn view(&self) -> ReplyView<T> {
        match self {
            Envelope::Success(t) => ReplyView::Success(*t),
            Envelope::Failure(e) => ReplyView::Failure(e.kind_spec(), e.message_spec()),
        }
    }
}

impl<T> Envelope<T> {
    /// A failure of the given kind with the given message.
    pub fn failure(kind: ErrorKind, message: String) -> (r: Self)
        ensures
            r@ == ReplyView::<T>::Failure(kind, message@),
    {
        match kind {
            ErrorKind::NotFound => Envelope::Failure(ApiError::NotFound(message)),
            ErrorKind::Internal => Envelope::Failure(ApiError::Internal(message)),
        }
    }

    /// Status code of the response: 200 for a success, else that of the failure.
    pub fn status(&self) -> (r: u16)
        ensures
            r == status_of(self@),
    {
        match self {
            Envelope::Success(_) => STATUS_OK,
            Envelope::Failure(e) => e.status(),
        }
    }

    /// Whether the envelope carries a payload.
    pub fn is_success(&self) -> (r: bool)
        ensures
            r == (self@ is Success),
    {
        match self {
            Envelope::Success(_) => true,
            Envelope::Failure(_) => false,
        }
    }
}

} // verus!
