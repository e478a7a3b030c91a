use vstd::prelude::*;

use crate::protocol::{
    response_item, response_to_item, ConnectionError, Error, Event, Request, RequestSendError,
    Response, ResponseReceiveError, SendEvent, StreamItem,
};
use crate::session::{Client, ClientState, Transport};

verus! {

/// The choices that the controller leaves to its owner.
#[derive(Clone, Copy, Debug, PartialEq, Eq, Structural)]
pub struct Policy {
    /// Whether an inbound frame that does not decode tears the connection
    /// down, rather than only being reported.
    pub disconnect_on_malformed_frame: bool,
    /// Whether the loop ends once no producer of commands is left, rather
    /// than reporting it and waiting on.
    pub stop_when_queue_closed: bool,
}

impl Default for Policy {
    fn default() -> (r: Policy)
        ensures
            !r.disconnect_on_malformed_frame,
            !r.stop_when_queue_closed,
    {
        Policy { disconnect_on_malformed_frame: false, stop_when_queue_closed: false }
    }
}

/// What handling one command, one transport outcome or one inbound frame
/// gives: transport work to carry out, and at most one item for the
/// application.
#[derive(Debug)]
pub struct Step {
    pub transport: Option<Transport>,
    pub output: Option<StreamItem>,
}

/// The controller loop's decisions. Its owner waits on the command queue,
/// and also on the connection while `waits_for_frames` holds, hands each
/// command or frame to the handler, carries out the returned transport work
/// and reports the outcome back.
#[derive(Debug)]
pub struct EventHandler {
    pub client: Client,
    pub policy: Policy,
}

impl EventHandler {
    pub fn new(policy: Policy) -> (r: EventHandler)
        ensures
            r.client.state == ClientState::Disconnected,
            r.policy == policy,
    {
        EventHandler { client: Client::new(), policy }
    }

    /// Whether the next wait races inbound frames against the command queue;
    /// while disconnected only a command can make progress.
    pub fn waits_for_frames(&self) -> (r: bool)
        ensures
            r == (self.client.state == ClientState::Connected),
    {
        self.client.is_connected()
    }

    /// Handles one command from the queue.
    pub fn handle_send(&mut self, event: SendEvent) -> (r: Step)
        ensures
            final(self).policy == old(self).policy,
            match event {
                SendEvent::Connect { url, token } => r.transport == Some(
                    Transport::Open { url, token },
                ) && r.output.is_none() && final(self).client.state == ClientState::Disconnected,
                SendEvent::Disconnect => r.output == Some(Ok::<Event, Error>(Event::Disconnected))
                    && final(self).client.state == ClientState::Disconnected && r.transport == (
                if old(self).client.state == ClientState::Connected {
                    Some(Transport::Close)
                } else {
                    None
                }),
                SendEvent::Message(m) => sent(
                    old(self).client.state,
                    final(self).client.state,
                    r,
                    Request::Message(m),
                ),
                SendEvent::MessagesRead(m) => sent(
                    old(self).client.state,
                    final(self).client.state,
                    r,
                    Request::MarkMessagesRead(m),
                ),
            },
    {
        match event {
            SendEvent::Connect { url, token } => {
                let open = self.client.connect(url, token);
                Step { transport: Some(open), output: None }
            },
            SendEvent::Disconnect => {
                let close = self.client.disconnect();
                Step { transport: close, output: Some(Ok(Event::Disconnected)) }
            },
            SendEvent::Message(m) => self.send_request(Request::Message(m)),
            SendEvent::MessagesRead(m) => self.send_request(Request::MarkMessagesRead(m)),
        }
    }

    fn send_request(&mut self, request: Request) -> (r: Step)
        ensures
            final(self).policy == old(self).policy,
            sent(old(self).client.state, final(self).client.state, r, request),
    {
        match self.client.send(request) {
            Ok(transmit) => Step { transport: Some(transmit), output: None },
            Err(error) => Step { transport: None, output: Some(Err(Error::from(error))) },
        }
    }

    /// Handles the outcome of a handshake.
    pub fn handle_connect_result(&mut self, result: Result<(), ConnectionError>) -> (r: StreamItem)
        ensures
            final(self).policy == old(self).policy,
            result.is_ok() ==> r == Ok::<Event, Error>(Event::Connected) && final(self).client.state
                == ClientState::Connected,
            result.is_err() ==> r == Err::<Event, Error>(Error::Connection) && final(self).client.state == ClientState::Disconnected,
    {
        self.client.connect_finished(&result);
        match result {
            Ok(()) => Ok(Event::Connected),
            Err(_) => Err(Error::Connection),
        }
    }

    /// Handles the outcome of a transmission: success is a pure
    /// acknowledgement and reports nothing; a failure disconnects and is
    /// reported.
    pub fn handle_send_result(&mut self, result: Result<(), RequestSendError>) -> (r: Step)
        ensures
            final(self).policy == old(self).policy,
            match result {
                Ok(()) => r.transport.is_none() && r.output.is_none() && final(self).client.state
                    == old(self).client.state,
                Err(e) => r.output == Some(Err::<Event, Error>(e.category())) && final(self).client.state == ClientState::Disconnected && r.transport == (if old(self).client.state == ClientState::Connected {
                    Some(Transport::Close)
                } else {
                    None
                }),
            },
    {
        let close = self.client.send_finished(&result);
        match result {
            Ok(()) => Step { transport: None, output: None },
            Err(error) => Step { transport: close, output: Some(Err(Error::from(error))) },
        }
    }

    /// Handles what reading the next frame gave: exactly one item for the
    /// application.
    pub fn handle_receive(&mut self, result: Result<Response, ResponseReceiveError>) -> (r: Step)
        ensures
            final(self).policy == old(self).policy,
            old(self).client.state == ClientState::Disconnected ==> r.transport.is_none()
                && r.output == Some(Err::<Event, Error>(Error::Disconnected)) && final(self).client.state == ClientState::Disconnected,
            old(self).client.state == ClientState::Connected ==> match result {
                Ok(response) => r.transport.is_none() && r.output == Some(response_item(response))
                    && final(self).client.state == ClientState::Connected,
                Err(ResponseReceiveError::Deserialization) => r.output == Some(
                    Err::<Event, Error>(Error::Deserialization),
                ) && if old(self).policy.disconnect_on_malformed_frame {
                    r.transport == Some(Transport::Close) && final(self).client.state
                        == ClientState::Disconnected
                } else {
                    r.transport.is_none() && final(self).client.state == ClientState::Connected
                },
                Err(e) => r.output == Some(Err::<Event, Error>(e.category())) && r.transport
                    == Some(Transport::Close) && final(self).client.state
                    == ClientState::Disconnected,
            },
    {
        let disconnect_on_malformed = self.policy.disconnect_on_malformed_frame;
        let (received, transport) = self.client.receive(result, disconnect_on_malformed);
        match received {
            Ok(response) => Step { transport, output: Some(response_to_item(response)) },
            Err(error) => Step { transport, output: Some(Err(Error::from(error))) },
        }
    }

    /// Handles a command queue with no producer left: reported as an unknown
    /// error; the second value says whether the loop goes on waiting.
    pub fn handle_queue_closed(&self) -> (r: (StreamItem, bool))
        ensures
            r.0 == Err::<Event, Error>(Error::Unknown),
            r.1 == !self.policy.stop_when_queue_closed,
    {
        (Err(Error::Unknown), !self.policy.stop_when_queue_closed)
    }
}

/// What handing `request` to the session gives: a connected session
/// transmits it and reports nothing yet; a disconnected one transmits
/// nothing and reports `Disconnected`.
pub open spec fn sent(before: ClientState, after: ClientState, r: Step, request: Request) -> bool {
    if before == ClientState::Connected {
        r.transport == Some(Transport::Transmit(request)) && r.output.is_none() && after
            == ClientState::Connected
    } else {
        r.transport.is_none() && r.output == Some(Err::<Event, Error>(Error::Disconnected)) && after
            == ClientState::Disconnected
    }
}

} // verus!
