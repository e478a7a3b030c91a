use vstd::prelude::*;

use crate::message::{Identifier, Timestamp, UuidIdentifier};

verus! {

/// A chat message as the server reports it, over the socket or in a fetched
/// page.
#[derive(Debug)]
pub struct MessageResponse {
    pub uuid: UuidIdentifier,
    pub room_id: Identifier,
    pub user_id: Identifier,
    pub content: String,
    pub created_at: Timestamp,
    pub read: bool,
}

/// Outbound: a new message for a room.
#[derive(Debug)]
pub struct MessageRequest {
    pub uuid: UuidIdentifier,
    pub room_id: Identifier,
    pub content: String,
}

/// Outbound: the messages of a room that the user has read.
#[derive(Debug)]
pub struct MarkMessagesReadRequest {
    pub room_id: Identifier,
    pub message_uuids: Vec<UuidIdentifier>,
}

/// Inbound: the messages of a room that their recipient has read.
#[derive(Debug)]
pub struct MessagesReadResponse {
    pub room_id: Identifier,
    pub message_uuids: Vec<UuidIdentifier>,
}

/// An error frame of the server.
#[derive(Clone, Copy, Debug, PartialEq, Eq, Structural)]
pub enum ErrorResponse {
    InternalServerError,
    WrongRequestFormat,
    UserNotFound,
    AccessDenied,
    InvalidToken,
    NotMemberOfRoom,
    MessageNotFound(UuidIdentifier),
}

/// A frame that the client sends.
#[derive(Debug)]
pub enum Request {
    Message(MessageRequest),
    MarkMessagesRead(MarkMessagesReadRequest),
}

/// A frame that the client receives, once decoded.
#[derive(Debug)]
pub enum Response {
    Message(MessageResponse),
    MessageSent(UuidIdentifier),
    MessageReceived(UuidIdentifier),
    MessagesRead(MessagesReadResponse),
    Error(ErrorResponse),
}

/// Why the handshake of a new connection failed.
pub type ConnectionError = String;

/// How sending a frame failed.
#[derive(Clone, Copy, Debug, PartialEq, Eq, Structural)]
pub enum RequestSendError {
    /// The transport was already closed.
    Disconnected,
    /// The frame could not be encoded.
    Serialization,
    /// Any other transport failure.
    Fatal,
}

/// How receiving a frame failed.
#[derive(Clone, Copy, Debug, PartialEq, Eq, Structural)]
pub enum ResponseReceiveError {
    /// The transport was closed.
    Disconnected,
    /// A frame arrived that does not decode.
    Deserialization,
    /// Any other transport failure, the end of the stream included.
    Fatal,
}

/// An error as the application sees it: one notification each.
#[derive(Clone, Copy, Debug, PartialEq, Eq, Structural)]
pub enum Error {
    Send,
    Connection,
    Disconnected,
    Deserialization,
    Serialization,
    Unknown,
    InternalServerError,
    WrongRequestFormat,
    UserNotFound,
    AccessDenied,
    InvalidToken,
    NotMemberOfRoom,
    MessageNotFound(UuidIdentifier),
}

/// What the controller reports to the application.
#[derive(Debug)]
pub enum Event {
    Connected,
    Disconnected,
    MessageReceived(MessageResponse),
    MessageSent(UuidIdentifier),
    MessageDelivered(UuidIdentifier),
    MessagesRead(MessagesReadResponse),
}

/// One item of the controller's output stream.
pub type StreamItem = Result<Event, Error>;

/// A command that the application puts on the controller's queue.
#[derive(Debug)]
pub enum SendEvent {
    Connect { url: String, token: String },
    Disconnect,
    Message(MessageRequest),
    MessagesRead(MarkMessagesReadRequest),
}

impl RequestSendError {
    pub open spec fn category(self) -> Error {
        match self {
            RequestSendError::Disconnected => Error::Disconnected,
            RequestSendError::Serialization => Error::Serialization,
            RequestSendError::Fatal => Error::Unknown,
        }
    }
}

impl ResponseReceiveError {
    pub open spec fn category(self) -> Error {
        match self {
            ResponseReceiveError::Disconnected => Error::Disconnected,
            ResponseReceiveError::Deserialization => Error::Deserialization,
            ResponseReceiveError::Fatal => Error::Unknown,
        }
    }
}

impl ErrorResponse {
    pub open spec fn category(self) -> Error {
        match self {
            ErrorResponse::InternalServerError => Error::InternalServerError,
            ErrorResponse::WrongRequestFormat => Error::WrongRequestFormat,
            ErrorResponse::UserNotFound => Error::UserNotFound,
            ErrorResponse::AccessDenied => Error::AccessDenied,
            ErrorResponse::InvalidToken => Error::InvalidToken,
            ErrorResponse::NotMemberOfRoom => Error::NotMemberOfRoom,
            ErrorResponse::MessageNotFound(u) => Error::MessageNotFound(u),
        }
    }
}

impl From<RequestSendError> for Error {
    fn from(value: RequestSendError) -> (r: Error) {
        match value {
            RequestSendError::Disconnected => Error::Disconnected,
            RequestSendError::Serialization => Error::Serialization,
            RequestSendError::Fatal => Error::Unknown,
        }
    }
}

impl vstd::std_specs::convert::FromSpecImpl<RequestSendError> for Error {
    open spec fn obeys_from_spec() -> bool {
        true
    }

    open spec fn from_spec(v: RequestSendError) -> Error {
        v.category()
    }
}

impl From<ResponseReceiveError> for Error {
    fn from(value: ResponseReceiveError) -> (r: Error) {
        match value {
            ResponseReceiveError::Disconnected => Error::Disconnected,
            ResponseReceiveError::Deserialization => Error::Deserialization,
            ResponseReceiveError::Fatal => Error::Unknown,
        }
    }
}

impl vstd::std_specs::convert::FromSpecImpl<ResponseReceiveError> for Error {
    open spec fn obeys_from_spec() -> bool {
        true
    }

    open spec fn from_spec(v: ResponseReceiveError) -> Error {
        v.category()
    }
}

impl From<ErrorResponse> for Error {
    fn from(value: ErrorResponse) -> (r: Error) {
        match value {
            ErrorResponse::InternalServerError => Error::InternalServerError,
            ErrorResponse::WrongRequestFormat => Error::WrongRequestFormat,
            ErrorResponse::UserNotFound => Error::UserNotFound,
            ErrorResponse::AccessDenied => Error::AccessDenied,
            ErrorResponse::InvalidToken => Error::InvalidToken,
            ErrorResponse::NotMemberOfRoom => Error::NotMemberOfRoom,
            ErrorResponse::MessageNotFound(u) => Error::MessageNotFound(u),
        }
    }
}

impl vstd::std_specs::convert::FromSpecImpl<ErrorResponse> for Error {
    open spec fn obeys_from_spec() -> bool {
        true
    }

    open spec fn from_spec(v: ErrorResponse) -> Error {
        v.category()
    }
}

/// The event that an inbound frame becomes: a message or an acknowledgement
/// passes through, an error frame becomes the matching error.
pub open spec fn response_item(r: Response) -> StreamItem {
    match r {
        Response::Message(m) => Ok(Event::MessageReceived(m)),
        Response::MessageSent(u) => Ok(Event::MessageSent(u)),
        Response::MessageReceived(u) => Ok(Event::MessageDelivered(u)),
        Response::MessagesRead(m) => Ok(Event::MessagesRead(m)),
        Response::Error(e) => Err(e.category()),
    }
}

/// Turns a decoded inbound frame into the event for the application.
pub fn response_to_item(response: Response) -> (r: StreamItem)
    ensures
        r == response_item(response),
{
    match response {
        Response::Message(m) => Ok(Event::MessageReceived(m)),
        Response::MessageSent(u) => Ok(Event::MessageSent(u)),
        Response::MessageReceived(u) => Ok(Event::MessageDelivered(u)),
        Response::MessagesRead(m) => Ok(Event::MessagesRead(m)),
        Response::Error(e) => Err(Error::from(e)),
    }
}

} // verus!
