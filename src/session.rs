use vstd::prelude::*;

use crate::protocol::{ConnectionError, Request, RequestSendError, Response, ResponseReceiveError};

verus! {

#[derive(Clone, Copy, Debug, PartialEq, Eq, Structural)]
pub enum ClientState {
    Connected,
    Disconnected,
}

/// Work on the duplex connection that the session's owner carries out.
#[derive(Debug)]
pub enum Transport {
    /// Perform the handshake of a new connection; any prior one is dropped.
    Open { url: String, token: String },
    /// Encode one frame and write it.
    Transmit(Request),
    /// Close the live connection, best effort: a failure is only logged.
    Close,
}

/// The decisions of one duplex connection's lifecycle. The connection
/// itself lives with whoever carries out the returned `Transport` work;
/// while `Connected` exactly one live connection exists.
#[derive(Debug)]
pub struct Client {
    pub state: ClientState,
}

impl Client {
    pub fn new() -> (r: Client)
        ensures
            r.state == ClientState::Disconnected,
    {
        Client { state: ClientState::Disconnected }
    }

    pub fn is_connected(&self) -> (r: bool)
        ensures
            r == (self.state == ClientState::Connected),
    {
        match self.state {
            ClientState::Connected => true,
            ClientState::Disconnected => false,
        }
    }

    /// Starts a new connection. The prior one, if any, is replaced, so the
    /// session counts as disconnected until the handshake succeeds.
    pub fn connect(&mut self, url: String, token: String) -> (r: Transport)
        ensures
            final(self).state == ClientState::Disconnected,
            r == (Transport::Open { url, token }),
    {
        self.state = ClientState::Disconnected;
        Transport::Open { url, token }
    }

    /// Records the handshake's outcome.
    pub fn connect_finished(&mut self, result: &Result<(), ConnectionError>)
        ensures
            final(self).state == (if result.is_ok() {
                ClientState::Connected
            } else {
                ClientState::Disconnected
            }),
    {
        self.state = match result {
            Ok(()) => ClientState::Connected,
            Err(_) => ClientState::Disconnected,
        };
    }

    /// Sends a frame: only a connected session transmits; a disconnected one
    /// reports `Disconnected` and transmits nothing.
    pub fn send(&mut self, request: Request) -> (r: Result<Transport, RequestSendError>)
        ensures
            old(self).state == ClientState::Connected ==> r == Ok::<Transport, RequestSendError>(
                Transport::Transmit(request),
            ) && final(self).state == ClientState::Connected,
            old(self).state == ClientState::Disconnected ==> r == Err::<Transport, RequestSendError>(
                RequestSendError::Disconnected,
            ) && final(self).state == ClientState::Disconnected,
    {
        if self.is_connected() {
            Ok(Transport::Transmit(request))
        } else {
            self.state = ClientState::Disconnected;
            Err(RequestSendError::Disconnected)
        }
    }

    /// Records a transmission's outcome: any failure tears the connection down.
    pub fn send_finished(&mut self, result: &Result<(), RequestSendError>) -> (r: Option<Transport>)
        ensures
            result.is_ok() ==> r.is_none() && final(self).state == old(self).state,
            result.is_err() ==> final(self).state == ClientState::Disconnected && r == (if old(self).state == ClientState::Connected {
                Some(Transport::Close)
            } else {
                None
            }),
    {
        match result {
            Ok(()) => None,
            Err(_) => self.disconnect(),
        }
    }

    /// Records what reading the next frame gave. A disconnected session has
    /// nothing to read and reports `Disconnected`. A frame that does not
    /// decode keeps the connection unless `disconnect_on_malformed` is set;
    /// any other failure tears it down.
    pub fn receive(
        &mut self,
        result: Result<Response, ResponseReceiveError>,
        disconnect_on_malformed: bool,
    ) -> (r: (Result<Response, ResponseReceiveError>, Option<Transport>))
        ensures
            old(self).state == ClientState::Disconnected ==> r == (
                Err::<Response, ResponseReceiveError>(ResponseReceiveError::Disconnected),
                None::<Transport>,
            ) && final(self).state == ClientState::Disconnected,
            old(self).state == ClientState::Connected ==> r.0 == result && match result {
                Ok(_) => r.1.is_none() && final(self).state == ClientState::Connected,
                Err(ResponseReceiveError::Deserialization) => if disconnect_on_malformed {
                    r.1 == Some(Transport::Close) && final(self).state == ClientState::Disconnected
                } else {
                    r.1.is_none() && final(self).state == ClientState::Connected
                },
                Err(_) => r.1 == Some(Transport::Close) && final(self).state
                    == ClientState::Disconnected,
            },
    {
        if !self.is_connected() {
            return (Err(ResponseReceiveError::Disconnected), None);
        }
        match result {
            Ok(response) => (Ok(response), None),
            Err(ResponseReceiveError::Deserialization) => {
                if disconnect_on_malformed {
                    let close = self.disconnect();
                    (Err(ResponseReceiveError::Deserialization), close)
                } else {
                    (Err(ResponseReceiveError::Deserialization), None)
                }
            },
            Err(error) => {
                let close = self.disconnect();
                (Err(error), close)
            },
        }
    }

    /// Ends the session. A live connection is closed; with none there is no
    /// transport work at all. Afterwards the session is disconnected.
    pub fn disconnect(&mut self) -> (r: Option<Transport>)
        ensures
            final(self).state == ClientState::Disconnected,
            r == (if old(self).state == ClientState::Connected {
                Some(Transport::Close)
            } else {
                None
            }),
    {
        let was_connected = self.is_connected();
        self.state = ClientState::Disconnected;
        if was_connected {
            Some(Transport::Close)
        } else {
            None
        }
    }
}

} // verus!
