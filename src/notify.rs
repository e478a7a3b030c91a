use vstd::prelude::*;

use crate::chat::Notice;
use crate::protocol::Error;
use vstd::string::StringExecFns;

verus! {

/// How a request to the HTTP collaborator failed.
#[derive(Clone, Copy, Debug, PartialEq, Eq, Structural)]
pub enum RequestError {
    Deserialize,
    Builder,
    /// The server answered with this status code.
    Http(u16),
    Timeout,
    Connect,
    Redirect,
    Unknown,
    Decode,
}

pub open spec fn digit_char(d: nat) -> char {
    if d == 0 {
        '0'
    } else if d == 1 {
        '1'
    } else if d == 2 {
        '2'
    } else if d == 3 {
        '3'
    } else if d == 4 {
        '4'
    } else if d == 5 {
        '5'
    } else if d == 6 {
        '6'
    } else if d == 7 {
        '7'
    } else if d == 8 {
        '8'
    } else {
        '9'
    }
}

/// The decimal digits of `n`, most significant first, without leading zeros.
pub open spec fn decimal(n: nat) -> Seq<char>
    decreases n,
{
    if n < 10 {
        seq![digit_char(n)]
    } else {
        decimal(n / 10).push(digit_char(n % 10))
    }
}

fn digit_text(d: u16) -> (r: &'static str)
    requires
        d < 10,
    ensures
        r@ == seq![digit_char(d as nat)],
{
    if d == 0 {
        proof {
            reveal_strlit("0");
        }
        "0"
    } else if d == 1 {
        proof {
            reveal_strlit("1");
        }
        "1"
    } else if d == 2 {
        proof {
            reveal_strlit("2");
        }
        "2"
    } else if d == 3 {
        proof {
            reveal_strlit("3");
        }
        "3"
    } else if d == 4 {
        proof {
            reveal_strlit("4");
        }
        "4"
    } else if d == 5 {
        proof {
            reveal_strlit("5");
        }
        "5"
    } else if d == 6 {
        proof {
            reveal_strlit("6");
        }
        "6"
    } else if d == 7 {
        proof {
            reveal_strlit("7");
        }
        "7"
    } else if d == 8 {
        proof {
            reveal_strlit("8");
        }
        "8"
    } else {
        proof {
            reveal_strlit("9");
        }
        "9"
    }
}

/// `n` written in decimal.
pub fn decimal_text(n: u16) -> (r: String)
    ensures
        r@ == decimal(n as nat),
    decreases n,
{
    if n < 10 {
        digit_text(n).to_owned()
    } else {
        let head = decimal_text(n / 10);
        let last = digit_text(n % 10);
        let r = head.concat(last);
        assert(r@ =~= decimal(n as nat));
        r
    }
}

/// The text shown for a failed request to the HTTP collaborator.
pub open spec fn request_error_text(e: RequestError) -> Seq<char> {
    match e {
        RequestError::Deserialize => "Deserialization error"@,
        RequestError::Builder => "Request builder error"@,
        RequestError::Http(code) => "Http error: "@ + decimal(code as nat),
        RequestError::Timeout => "Request timeout"@,
        RequestError::Connect => "Connection error"@,
        RequestError::Redirect => "Redirect error"@,
        RequestError::Unknown => "Unknown error"@,
        RequestError::Decode => "Deserialization error"@,
    }
}

pub fn request_error_message(e: RequestError) -> (r: String)
    ensures
        r@ == request_error_text(e),
{
    let text = match e {
        RequestError::Deserialize => "Deserialization error",
        RequestError::Builder => "Request builder error",
        RequestError::Http(code) => {
            let digits = decimal_text(code);
            return "Http error: ".to_owned().concat(digits.as_str());
        },
        RequestError::Timeout => "Request timeout",
        RequestError::Connect => "Connection error",
        RequestError::Redirect => "Redirect error",
        RequestError::Unknown => "Unknown error",
        RequestError::Decode => "Deserialization error",
    };
    text.to_owned()
}

/// The text shown for an error of the controller.
pub open spec fn error_text(e: Error) -> Seq<char> {
    match e {
        Error::Send => "Send error"@,
        Error::Connection => "Connection error"@,
        Error::Disconnected => "Disconnected"@,
        Error::Deserialization => "Deserialization error"@,
        Error::Serialization => "Serialization error"@,
        Error::Unknown => "Unknown error"@,
        Error::InternalServerError => "Server error"@,
        Error::WrongRequestFormat => "Wrong request format"@,
        Error::UserNotFound => "User not found"@,
        Error::AccessDenied => "Access denied"@,
        Error::InvalidToken => "Invalid token"@,
        Error::NotMemberOfRoom => "User is not a member of room"@,
        Error::MessageNotFound(_) => "Unknown error"@,
    }
}

/// The text shown for a notice of the chat state.
pub open spec fn notice_text(n: Notice) -> Seq<char> {
    match n {
        Notice::NoRoomForMessage => "User is not chosen"@,
        Notice::NoRoomForHistory => "Cannot load messages: no user selected"@,
    }
}

pub fn error_message(e: Error) -> (r: String)
    ensures
        r@ == error_text(e),
{
    let text = match e {
        Error::Send => "Send error",
        Error::Connection => "Connection error",
        Error::Disconnected => "Disconnected",
        Error::Deserialization => "Deserialization error",
        Error::Serialization => "Serialization error",
        Error::Unknown => "Unknown error",
        Error::InternalServerError => "Server error",
        Error::WrongRequestFormat => "Wrong request format",
        Error::UserNotFound => "User not found",
        Error::AccessDenied => "Access denied",
        Error::InvalidToken => "Invalid token",
        Error::NotMemberOfRoom => "User is not a member of room",
        Error::MessageNotFound(_) => "Unknown error",
    };
    text.to_owned()
}

pub fn notice_message(n: Notice) -> (r: String)
    ensures
        r@ == notice_text(n),
{
    let text = match n {
        Notice::NoRoomForMessage => "User is not chosen",
        Notice::NoRoomForHistory => "Cannot load messages: no user selected",
    };
    text.to_owned()
}

/// The notifications on screen, oldest first; each can be dismissed.
#[derive(Debug)]
pub struct Notifications {
    pub messages: Vec<String>,
}

impl Notifications {
    pub fn new() -> (r: Notifications)
        ensures
            r.messages@.len() == 0,
    {
        Notifications { messages: Vec::new() }
    }

    pub fn add(&mut self, message: String)
        ensures
            final(self).messages@ == old(self).messages@.push(message),
    {
        self.messages.push(message);
    }

    /// Shows the text of an error of the controller.
    pub fn add_error(&mut self, e: Error)
        ensures
            final(self).messages@.len() == old(self).messages@.len() + 1,
            final(self).messages@.drop_last() == old(self).messages@,
            final(self).messages@.last()@ == error_text(e),
    {
        let text = error_message(e);
        self.messages.push(text);
        assert(self.messages@.drop_last() =~= old(self).messages@);
    }

    /// Removes the notification at `index`.
    pub fn dismiss(&mut self, index: usize)
        requires
            index < old(self).messages@.len(),
        ensures
            final(self).messages@ == old(self).messages@.remove(index as int),
    {
        self.messages.remove(index);
    }
}

} // verus!
