use vstd::prelude::*;

verus! {

/// A message's identifier: the 128-bit value of its UUID.
pub type UuidIdentifier = u128;

/// A user's or a room's identifier on the server.
pub type Identifier = i32;

/// A point in time, in microseconds since the Unix epoch (UTC).
pub type Timestamp = i64;

/// Acknowledgement lifecycle of an outgoing message.
///
/// `Received` is the server's delivery acknowledgement.
#[derive(Clone, Copy, Debug, PartialEq, Eq, Structural)]
pub enum OutgoingMessageState {
    Created,
    Sent,
    Received,
    Read,
}

impl OutgoingMessageState {
    /// Position of the state in the order `Created < Sent < Received < Read`.
    pub open spec fn rank(self) -> nat {
        match self {
            OutgoingMessageState::Created => 1,
            OutgoingMessageState::Sent => 2,
            OutgoingMessageState::Received => 3,
            OutgoingMessageState::Read => 4,
        }
    }

    /// The state after an acknowledgement `ack` arrives: it moves only upwards.
    pub open spec fn upgraded(self, ack: OutgoingMessageState) -> OutgoingMessageState {
        if ack.rank() > self.rank() {
            ack
        } else {
            self
        }
    }

    pub fn rank_of(&self) -> (r: u8)
        ensures
            r as nat == self.rank(),
    {
        match self {
            OutgoingMessageState::Created => 1,
            OutgoingMessageState::Sent => 2,
            OutgoingMessageState::Received => 3,
            OutgoingMessageState::Read => 4,
        }
    }

    /// Applies one acknowledgement to the state.
    pub fn upgrade(self, ack: OutgoingMessageState) -> (r: OutgoingMessageState)
        ensures
            r == self.upgraded(ack),
    {
        if ack.rank_of() > self.rank_of() {
            ack
        } else {
            self
        }
    }
}

#[derive(Debug)]
pub struct IncomingChatMessage {
    pub user_id: Identifier,
    pub uuid: UuidIdentifier,
    pub content: String,
    pub created_at: Timestamp,
}

#[derive(Debug)]
pub struct OutgoingChatMessage {
    pub user_id: Identifier,
    pub uuid: UuidIdentifier,
    pub content: String,
    pub created_at: Timestamp,
    pub state: OutgoingMessageState,
}

/// One entry of a conversation's history.
#[derive(Debug)]
pub enum ChatMessage {
    Outgoing(OutgoingChatMessage),
    Incoming(IncomingChatMessage),
}

impl ChatMessage {
    pub open spec fn uuid_of(self) -> UuidIdentifier {
        match self {
            ChatMessage::Outgoing(m) => m.uuid,
            ChatMessage::Incoming(m) => m.uuid,
        }
    }

    pub open spec fn time_of(self) -> Timestamp {
        match self {
            ChatMessage::Outgoing(m) => m.created_at,
            ChatMessage::Incoming(m) => m.created_at,
        }
    }

    /// The entry after the acknowledgement `ack` arrives for it; incoming
    /// messages carry no delivery state and stay as they are.
    pub open spec fn acked(self, ack: OutgoingMessageState) -> ChatMessage {
        match self {
            ChatMessage::Outgoing(m) => ChatMessage::Outgoing(
                OutgoingChatMessage {
                    user_id: m.user_id,
                    uuid: m.uuid,
                    content: m.content,
                    created_at: m.created_at,
                    state: m.state.upgraded(ack),
                },
            ),
            ChatMessage::Incoming(_) => self,
        }
    }

    /// How far the entry's delivery has got: an outgoing entry's rank, 0 for
    /// an incoming one.
    pub open spec fn delivery_rank(self) -> nat {
        match self {
            ChatMessage::Outgoing(m) => m.state.rank(),
            ChatMessage::Incoming(_) => 0,
        }
    }

    pub fn uuid(&self) -> (r: UuidIdentifier)
        ensures
            r == self.uuid_of(),
    {
        match self {
            ChatMessage::Outgoing(m) => m.uuid,
            ChatMessage::Incoming(m) => m.uuid,
        }
    }

    pub fn created_at(&self) -> (r: Timestamp)
        ensures
            r == self.time_of(),
    {
        match self {
            ChatMessage::Outgoing(m) => m.created_at,
            ChatMessage::Incoming(m) => m.created_at,
        }
    }

    /// The delivery state of an outgoing entry.
    pub fn delivery_state(&self) -> (r: Option<OutgoingMessageState>)
        ensures
            r == (match self {
                ChatMessage::Outgoing(m) => Some(m.state),
                ChatMessage::Incoming(_) => None::<OutgoingMessageState>,
            }),
    {
        match self {
            ChatMessage::Outgoing(m) => Some(m.state),
            ChatMessage::Incoming(_) => None,
        }
    }

    /// Applies an acknowledgement to the entry.
    pub fn ack(self, ack: OutgoingMessageState) -> (r: ChatMessage)
        ensures
            r == self.acked(ack),
    {
        match self {
            ChatMessage::Outgoing(m) => {
                let state = m.state.upgrade(ack);
                ChatMessage::Outgoing(
                    OutgoingChatMessage {
                        user_id: m.user_id,
                        uuid: m.uuid,
                        content: m.content,
                        created_at: m.created_at,
                        state,
                    },
                )
            },
            ChatMessage::Incoming(m) => ChatMessage::Incoming(m),
        }
    }

    pub fn delivery_rank_of(&self) -> (r: u8)
        ensures
            r as nat == self.delivery_rank(),
    {
        match self {
            ChatMessage::Outgoing(m) => m.state.rank_of(),
            ChatMessage::Incoming(_) => 0,
        }
    }
}

} // verus!
