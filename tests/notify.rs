use nultr_client::chat::Notice;
use nultr_client::notify::{decimal_text, error_message, notice_message, request_error_message, Notifications, RequestError};
use nultr_client::protocol::Error;

#[test]
fn error_texts() {
    assert_eq!(error_message(Error::Connection), "Connection error");
    assert_eq!(error_message(Error::Send), "Send error");
    assert_eq!(error_message(Error::Disconnected), "Disconnected");
    assert_eq!(error_message(Error::Deserialization), "Deserialization error");
    assert_eq!(error_message(Error::Serialization), "Serialization error");
    assert_eq!(error_message(Error::Unknown), "Unknown error");
    assert_eq!(error_message(Error::NotMemberOfRoom), "User is not a member of room");
    assert_eq!(error_message(Error::MessageNotFound(3)), "Unknown error");
    assert_eq!(notice_message(Notice::NoRoomForMessage), "User is not chosen");
}

#[test]
fn notifications_are_dismissible() {
    let mut n = Notifications::new();
    n.add("a".to_string());
    n.add_error(Error::UserNotFound);
    n.add("c".to_string());
    n.dismiss(0);
    assert_eq!(n.messages, vec!["User not found".to_string(), "c".to_string()]);
}

#[test]
fn request_error_texts() {
    assert_eq!(request_error_message(RequestError::Http(404)), "Http error: 404");
    assert_eq!(request_error_message(RequestError::Http(0)), "Http error: 0");
    assert_eq!(request_error_message(RequestError::Http(65535)), "Http error: 65535");
    assert_eq!(request_error_message(RequestError::Timeout), "Request timeout");
    assert_eq!(request_error_message(RequestError::Builder), "Request builder error");
    assert_eq!(request_error_message(RequestError::Decode), "Deserialization error");
    assert_eq!(request_error_message(RequestError::Connect), "Connection error");
    assert_eq!(notice_message(Notice::NoRoomForHistory), "Cannot load messages: no user selected");
}

#[test]
fn decimal_rendering() {
    assert_eq!(decimal_text(0), "0");
    assert_eq!(decimal_text(7), "7");
    assert_eq!(decimal_text(10), "10");
    assert_eq!(decimal_text(503), "503");
    assert_eq!(decimal_text(u16::MAX), "65535");
}
