use vstd::prelude::*;

use crate::history::{
    acked_all, change_outgoing_messages_state, history_wf, insert_message, inserted,
    merge_messages, merge_outcome, merged,
};
use crate::message::{
    ChatMessage, Identifier, IncomingChatMessage, OutgoingChatMessage, OutgoingMessageState,
    Timestamp, UuidIdentifier,
};
use crate::text::{trim, trim_text};
use crate::protocol::{
    Event, MarkMessagesReadRequest, MessageRequest, MessageResponse, SendEvent,
};

verus! {

/// How many messages one fetched page holds.
pub const MESSAGES_PAGE_SIZE: u64 = 20;

#[derive(Clone, Copy, Debug, PartialEq, Eq, Structural)]
pub enum ConnectionState {
    Connected,
    Disconnected,
}

/// A user as the server lists them.
#[derive(Debug)]
pub struct UserResponse {
    pub id: Identifier,
    pub username: String,
}

/// A room as the server lists it.
#[derive(Debug)]
pub struct RoomResponse {
    pub id: Identifier,
    pub name: String,
}

/// A conversation the current user belongs to.
#[derive(Debug)]
pub struct Room {
    pub id: Identifier,
    pub name: String,
}

/// A user that the current user can start a conversation with.
#[derive(Debug)]
pub struct User {
    pub id: Identifier,
    pub username: String,
}

#[derive(Clone, Copy, Debug, PartialEq, Eq, Structural)]
pub struct Pagination {
    pub page: u64,
    pub page_size: u64,
}

/// The request for one page of a room's history.
#[derive(Clone, Copy, Debug, PartialEq, Eq, Structural)]
pub struct GetMessagesRequest {
    pub room_id: Identifier,
    pub pagination: Pagination,
}

/// The conversation that is open: its history and the next page to fetch.
#[derive(Debug)]
pub struct ChatAreaRoomSelectedState {
    pub room_id: Identifier,
    pub messages: Vec<ChatMessage>,
    pub messages_page: u64,
}

#[derive(Debug)]
pub enum ChatAreaState {
    RoomSelected(ChatAreaRoomSelectedState),
    RoomNotSelected,
}

/// Why an action of the user could not be carried out.
#[derive(Clone, Copy, Debug, PartialEq, Eq, Structural)]
pub enum Notice {
    /// A message was submitted with no conversation open.
    NoRoomForMessage,
    /// History was asked for with no conversation open.
    NoRoomForHistory,
}

/// What the owner of the chat state carries out after an update.
#[derive(Debug)]
pub enum Effect {
    Nothing,
    /// Put a command on the controller's queue.
    Send(SendEvent),
    /// Fetch a page of history.
    LoadMessages(GetMessagesRequest),
    /// Fetch the lists of users and of rooms.
    LoadUsersAndRooms,
    /// Show a notification.
    Notify(Notice),
}

/// The client's chat state: what is typed, the open conversation, the known
/// users and what the controller last said of the connection.
#[derive(Debug)]
pub struct State {
    pub input_value: String,
    pub chat_area_state: ChatAreaState,
    pub rooms: Vec<Room>,
    pub users: Vec<User>,
    pub connection_state: ConnectionState,
}

/// The open room, if any.
pub open spec fn selected_room(s: ChatAreaState) -> Option<Identifier> {
    match s {
        ChatAreaState::RoomSelected(a) => Some(a.room_id),
        ChatAreaState::RoomNotSelected => None,
    }
}

/// The open room's history; empty with none open.
pub open spec fn history(s: ChatAreaState) -> Seq<ChatMessage> {
    match s {
        ChatAreaState::RoomSelected(a) => a.messages@,
        ChatAreaState::RoomNotSelected => Seq::empty(),
    }
}

/// The next page of the open room's history to fetch.
pub open spec fn next_page(s: ChatAreaState) -> u64 {
    match s {
        ChatAreaState::RoomSelected(a) => a.messages_page,
        ChatAreaState::RoomNotSelected => 0,
    }
}

/// A fetched message as an entry of the history of the user `user_id`: their
/// own messages are outgoing, read or at least delivered.
pub open spec fn message_of(r: MessageResponse, user_id: Identifier) -> ChatMessage {
    if r.user_id == user_id {
        ChatMessage::Outgoing(
            OutgoingChatMessage {
                user_id: r.user_id,
                uuid: r.uuid,
                content: r.content,
                created_at: r.created_at,
                state: if r.read {
                    OutgoingMessageState::Read
                } else {
                    OutgoingMessageState::Received
                },
            },
        )
    } else {
        ChatMessage::Incoming(
            IncomingChatMessage {
                user_id: r.user_id,
                uuid: r.uuid,
                content: r.content,
                created_at: r.created_at,
            },
        )
    }
}

pub open spec fn messages_of(page: Seq<MessageResponse>, user_id: Identifier) -> Seq<ChatMessage> {
    page.map_values(|r: MessageResponse| message_of(r, user_id))
}

/// A message pushed by the server, as an entry of the history.
pub open spec fn incoming_of(r: MessageResponse) -> ChatMessage {
    ChatMessage::Incoming(
        IncomingChatMessage {
            user_id: r.user_id,
            uuid: r.uuid,
            content: r.content,
            created_at: r.created_at,
        },
    )
}

/// The uuids of the messages of a page that are not read yet, in page order.
pub open spec fn unread_uuids(page: Seq<MessageResponse>) -> Seq<UuidIdentifier>
    decreases page.len(),
{
    if page.len() == 0 {
        Seq::empty()
    } else if page.last().read {
        unread_uuids(page.drop_last())
    } else {
        unread_uuids(page.drop_last()).push(page.last().uuid)
    }
}

pub open spec fn user_of(r: UserResponse) -> User {
    User { id: r.id, username: r.username }
}

/// The users of a listing but the user `user_id`, in listing order.
pub open spec fn other_users(users: Seq<UserResponse>, user_id: Identifier) -> Seq<User>
    decreases users.len(),
{
    if users.len() == 0 {
        Seq::empty()
    } else if users.last().id == user_id {
        other_users(users.drop_last(), user_id)
    } else {
        other_users(users.drop_last(), user_id).push(user_of(users.last()))
    }
}

pub open spec fn room_of(r: RoomResponse) -> Room {
    Room { id: r.id, name: r.name }
}

pub open spec fn messages_request(room_id: Identifier, page: u64) -> GetMessagesRequest {
    GetMessagesRequest { room_id, pagination: Pagination { page, page_size: MESSAGES_PAGE_SIZE } }
}

fn message_from_response(r: &MessageResponse, user_id: Identifier) -> (m: ChatMessage)
    ensures
        m == message_of(*r, user_id),
{
    if r.user_id == user_id {
        let state = if r.read {
            OutgoingMessageState::Read
        } else {
            OutgoingMessageState::Received
        };
        ChatMessage::Outgoing(
            OutgoingChatMessage {
                user_id: r.user_id,
                uuid: r.uuid,
                content: r.content.clone(),
                created_at: r.created_at,
                state,
            },
        )
    } else {
        ChatMessage::Incoming(
            IncomingChatMessage {
                user_id: r.user_id,
                uuid: r.uuid,
                content: r.content.clone(),
                created_at: r.created_at,
            },
        )
    }
}

/// The entries that a fetched page becomes for the user `user_id`.
pub fn messages_from_page(page: &Vec<MessageResponse>, user_id: Identifier) -> (r: Vec<
    ChatMessage,
>)
    ensures
        r@ == messages_of(page@, user_id),
{
    let mut r: Vec<ChatMessage> = Vec::new();
    let mut i: usize = 0;
    while i < page.len()
        invariant
            i <= page.len(),
            r@ == messages_of(page@.subrange(0, i as int), user_id),
        decreases page.len() - i,
    {
        let m = message_from_response(&page[i], user_id);
        r.push(m);
        i = i + 1;
        assert(r@ =~= messages_of(page@.subrange(0, i as int), user_id));
    }
    assert(page@.subrange(0, i as int) =~= page@);
    r
}

/// The uuids of a page's messages that are not read yet.
pub fn unread_message_uuids(page: &Vec<MessageResponse>) -> (r: Vec<UuidIdentifier>)
    ensures
        r@ == unread_uuids(page@),
{
    let mut r: Vec<UuidIdentifier> = Vec::new();
    let mut i: usize = 0;
    while i < page.len()
        invariant
            i <= page.len(),
            r@ == unread_uuids(page@.subrange(0, i as int)),
        decreases page.len() - i,
    {
        assert(page@.subrange(0, i + 1 as int).drop_last() =~= page@.subrange(0, i as int));
        if !page[i].read {
            r.push(page[i].uuid);
        }
        i = i + 1;
    }
    assert(page@.subrange(0, i as int) =~= page@);
    r
}

/// The users of a listing that the user `user_id` can write to: all but
/// themselves.
pub fn users_from_response(users: &Vec<UserResponse>, user_id: Identifier) -> (r: Vec<User>)
    ensures
        r@ == other_users(users@, user_id),
{
    let mut r: Vec<User> = Vec::new();
    let mut i: usize = 0;
    while i < users.len()
        invariant
            i <= users.len(),
            r@ == other_users(users@.subrange(0, i as int), user_id),
        decreases users.len() - i,
    {
        assert(users@.subrange(0, i + 1 as int).drop_last() =~= users@.subrange(0, i as int));
        if users[i].id != user_id {
            r.push(User { id: users[i].id, username: users[i].username.clone() });
        }
        i = i + 1;
    }
    assert(users@.subrange(0, i as int) =~= users@);
    r
}

impl State {
    /// The open conversation's history is ordered by timestamp with one
    /// entry per uuid.
    pub open spec fn wf(&self) -> bool {
        history_wf(history(self.chat_area_state))
    }

    pub fn new() -> (r: State)
        ensures
            r.wf(),
            r.input_value@.len() == 0,
            selected_room(r.chat_area_state).is_none(),
            r.rooms@.len() == 0,
            r.users@.len() == 0,
            r.connection_state == ConnectionState::Disconnected,
    {
        State {
            input_value: String::new(),
            chat_area_state: ChatAreaState::RoomNotSelected,
            rooms: Vec::new(),
            users: Vec::new(),
            connection_state: ConnectionState::Disconnected,
        }
    }

    pub fn input_changed(&mut self, value: String)
        ensures
            final(self).input_value == value,
            final(self).chat_area_state == old(self).chat_area_state,
            final(self).rooms == old(self).rooms,
            final(self).users == old(self).users,
            final(self).connection_state == old(self).connection_state,
    {
        self.input_value = value;
    }

    /// The user submits what they typed, as the user `user_id`, under a
    /// fresh `uuid` at time `now`. With no room open this is refused with a
    /// notice, whatever was typed. With a room open blank input does nothing;
    /// otherwise the trimmed message joins the history at once in `Created`
    /// state, the input is cleared and the message goes to the controller.
    pub fn send_message(&mut self, user_id: Identifier, uuid: UuidIdentifier, now: Timestamp) -> (r:
        Effect)
        requires
            old(self).wf(),
        ensures
            final(self).wf(),
            final(self).rooms == old(self).rooms,
            final(self).users == old(self).users,
            final(self).connection_state == old(self).connection_state,
            selected_room(final(self).chat_area_state) == selected_room(old(self).chat_area_state),
            next_page(final(self).chat_area_state) == next_page(old(self).chat_area_state),
            selected_room(old(self).chat_area_state) is None ==> r == Effect::Notify(
                Notice::NoRoomForMessage,
            ) && *final(self) == *old(self),
            selected_room(old(self).chat_area_state) is Some && trim(old(self).input_value@).len()
                == 0 ==> r == Effect::Nothing && *final(self) == *old(self),
            selected_room(old(self).chat_area_state) is Some && trim(old(self).input_value@).len()
                > 0 ==> final(self).input_value@.len() == 0 && match r {
                Effect::Send(SendEvent::Message(req)) => req.uuid == uuid && Some(req.room_id)
                    == selected_room(old(self).chat_area_state) && req.content@ == trim(
                    old(self).input_value@,
                ) && history(final(self).chat_area_state) == inserted(
                    history(old(self).chat_area_state),
                    ChatMessage::Outgoing(
                        OutgoingChatMessage {
                            user_id,
                            uuid,
                            content: req.content,
                            created_at: now,
                            state: OutgoingMessageState::Created,
                        },
                    ),
                ),
                _ => false,
            },
    {
        match &mut self.chat_area_state {
            ChatAreaState::RoomSelected(area) => {
                let content = trim_text(self.input_value.as_str());
                if content.is_empty() {
                    return Effect::Nothing;
                }
                let content = content.to_owned();
                let message = ChatMessage::Outgoing(
                    OutgoingChatMessage {
                        user_id,
                        uuid,
                        content: content.clone(),
                        created_at: now,
                        state: OutgoingMessageState::Created,
                    },
                );
                insert_message(&mut area.messages, message);
                let request = MessageRequest { uuid, room_id: area.room_id, content };
                self.input_value = String::new();
                Effect::Send(SendEvent::Message(request))
            },
            ChatAreaState::RoomNotSelected => Effect::Notify(Notice::NoRoomForMessage),
        }
    }

    /// Opens the room `room_id`: a room other than the open one starts with
    /// an empty history, and its first page is to be fetched.
    pub fn select_room(&mut self, room_id: Identifier) -> (r: Effect)
        ensures
            final(self).wf() || !old(self).wf() && *final(self) == *old(self),
            final(self).input_value == old(self).input_value,
            final(self).rooms == old(self).rooms,
            final(self).users == old(self).users,
            final(self).connection_state == old(self).connection_state,
            selected_room(final(self).chat_area_state) == Some(room_id),
            selected_room(old(self).chat_area_state) == Some(room_id) ==> r == Effect::Nothing
                && *final(self) == *old(self),
            selected_room(old(self).chat_area_state) != Some(room_id) ==> history(
                final(self).chat_area_state,
            ).len() == 0 && next_page(final(self).chat_area_state) == 0 && r
                == Effect::LoadMessages(messages_request(room_id, 0)),
    {
        if let ChatAreaState::RoomSelected(area) = &self.chat_area_state {
            if area.room_id == room_id {
                return Effect::Nothing;
            }
        }
        self.chat_area_state = ChatAreaState::RoomSelected(
            ChatAreaRoomSelectedState { room_id, messages: Vec::new(), messages_page: 0 },
        );
        Effect::LoadMessages(
            GetMessagesRequest {
                room_id,
                pagination: Pagination { page: 0, page_size: MESSAGES_PAGE_SIZE },
            },
        )
    }

    /// Closes the open room.
    pub fn deselect_room(&mut self)
        ensures
            final(self).wf(),
            final(self).input_value == old(self).input_value,
            final(self).rooms == old(self).rooms,
            final(self).users == old(self).users,
            final(self).connection_state == old(self).connection_state,
            selected_room(final(self).chat_area_state).is_none(),
    {
        self.chat_area_state = ChatAreaState::RoomNotSelected;
    }

    /// The request for the open room's next page of history.
    pub fn load_messages(&self) -> (r: Effect)
        ensures
            match selected_room(self.chat_area_state) {
                Some(room_id) => r == Effect::LoadMessages(
                    messages_request(room_id, next_page(self.chat_area_state)),
                ),
                None => r == Effect::Notify(Notice::NoRoomForHistory),
            },
    {
        match &self.chat_area_state {
            ChatAreaState::RoomSelected(area) => Effect::LoadMessages(
                GetMessagesRequest {
                    room_id: area.room_id,
                    pagination: Pagination {
                        page: area.messages_page,
                        page_size: MESSAGES_PAGE_SIZE,
                    },
                },
            ),
            ChatAreaState::RoomNotSelected => Effect::Notify(Notice::NoRoomForHistory),
        }
    }

    /// A fetched page of the open room's history arrives, for the user
    /// `user_id`: it is merged into the history, the next page is the one
    /// after, and the page's unread messages are marked read. With no room
    /// open the page is dropped.
    pub fn add_messages(&mut self, user_id: Identifier, page: Vec<MessageResponse>) -> (r: Effect)
        requires
            old(self).wf(),
        ensures
            final(self).wf(),
            final(self).input_value == old(self).input_value,
            final(self).rooms == old(self).rooms,
            final(self).users == old(self).users,
            final(self).connection_state == old(self).connection_state,
            selected_room(final(self).chat_area_state) == selected_room(old(self).chat_area_state),
            selected_room(old(self).chat_area_state) is None ==> r == Effect::Nothing && *final(self)
                == *old(self),
            selected_room(old(self).chat_area_state) is Some ==> history(final(self).chat_area_state)
                == merged(history(old(self).chat_area_state), messages_of(page@, user_id))
                && merge_outcome(
                history(old(self).chat_area_state),
                messages_of(page@, user_id),
                history(final(self).chat_area_state),
            )
                && next_page(final(self).chat_area_state) == (if next_page(
                old(self).chat_area_state,
            ) < u64::MAX {
                next_page(old(self).chat_area_state) + 1
            } else {
                next_page(old(self).chat_area_state) as int
            }) && match r {
                Effect::Send(SendEvent::MessagesRead(req)) => Some(req.room_id) == selected_room(
                    old(self).chat_area_state,
                ) && req.message_uuids@ == unread_uuids(page@),
                _ => false,
            },
    {
        match &mut self.chat_area_state {
            ChatAreaState::RoomSelected(area) => {
                let unread = unread_message_uuids(&page);
                let entries = messages_from_page(&page, user_id);
                merge_messages(&mut area.messages, entries);
                area.messages_page = area.messages_page.saturating_add(1);
                Effect::Send(
                    SendEvent::MessagesRead(
                        MarkMessagesReadRequest { room_id: area.room_id, message_uuids: unread },
                    ),
                )
            },
            ChatAreaState::RoomNotSelected => Effect::Nothing,
        }
    }

    /// A listing of users arrives for the user `user_id`.
    pub fn add_users(&mut self, user_id: Identifier, users: &Vec<UserResponse>)
        ensures
            final(self).users@ == other_users(users@, user_id),
            final(self).rooms == old(self).rooms,
            final(self).input_value == old(self).input_value,
            final(self).chat_area_state == old(self).chat_area_state,
            final(self).connection_state == old(self).connection_state,
    {
        self.users = users_from_response(users, user_id);
    }

    /// A listing of the user's rooms arrives and replaces the known one.
    pub fn add_rooms(&mut self, rooms: &Vec<RoomResponse>)
        ensures
            final(self).rooms@ == rooms@.map_values(|r: RoomResponse| room_of(r)),
            final(self).input_value == old(self).input_value,
            final(self).chat_area_state == old(self).chat_area_state,
            final(self).users == old(self).users,
            final(self).connection_state == old(self).connection_state,
    {
        let mut known: Vec<Room> = Vec::new();
        let mut i: usize = 0;
        while i < rooms.len()
            invariant
                i <= rooms.len(),
                known@ == rooms@.subrange(0, i as int).map_values(|r: RoomResponse| room_of(r)),
            decreases rooms.len() - i,
        {
            known.push(Room { id: rooms[i].id, name: rooms[i].name.clone() });
            i = i + 1;
            assert(known@ =~= rooms@.subrange(0, i as int).map_values(
                |r: RoomResponse| room_of(r),
            ));
        }
        assert(rooms@.subrange(0, i as int) =~= rooms@);
        self.rooms = known;
    }

    /// A room that the user just created joins the known ones.
    pub fn add_created_room(&mut self, room: RoomResponse)
        ensures
            final(self).rooms@ == old(self).rooms@.push(room_of(room)),
            final(self).input_value == old(self).input_value,
            final(self).chat_area_state == old(self).chat_area_state,
            final(self).users == old(self).users,
            final(self).connection_state == old(self).connection_state,
    {
        self.rooms.push(Room { id: room.id, name: room.name });
    }

    /// An event of the controller arrives. A message for the open room joins
    /// its history and is marked read at once; acknowledgements move the
    /// delivery state of the matching outgoing messages up, never down.
    pub fn ws_update(&mut self, event: Event) -> (r: Effect)
        requires
            old(self).wf(),
        ensures
            final(self).wf(),
            final(self).input_value == old(self).input_value,
            final(self).rooms == old(self).rooms,
            final(self).users == old(self).users,
            selected_room(final(self).chat_area_state) == selected_room(old(self).chat_area_state),
            next_page(final(self).chat_area_state) == next_page(old(self).chat_area_state),
            match event {
                Event::Connected => r == Effect::LoadUsersAndRooms && final(self).connection_state
                    == ConnectionState::Connected && final(self).chat_area_state == old(
                    self,
                ).chat_area_state,
                Event::Disconnected => r == Effect::Nothing && final(self).connection_state
                    == ConnectionState::Disconnected && final(self).chat_area_state == old(
                    self,
                ).chat_area_state,
                Event::MessageReceived(m) => final(self).connection_state == old(
                    self,
                ).connection_state && if selected_room(old(self).chat_area_state) == Some(
                    m.room_id,
                ) {
                    history(final(self).chat_area_state) == inserted(
                        history(old(self).chat_area_state),
                        incoming_of(m),
                    ) && match r {
                        Effect::Send(SendEvent::MessagesRead(req)) => req.room_id == m.room_id
                            && req.message_uuids@ == seq![m.uuid],
                        _ => false,
                    }
                } else {
                    r == Effect::Nothing && *final(self) == *old(self)
                },
                Event::MessageSent(u) => r == Effect::Nothing && final(self).connection_state
                    == old(self).connection_state && history(final(self).chat_area_state)
                    == acked_all(
                    history(old(self).chat_area_state),
                    seq![u],
                    OutgoingMessageState::Sent,
                ),
                Event::MessageDelivered(u) => r == Effect::Nothing && final(self).connection_state
                    == old(self).connection_state && history(final(self).chat_area_state)
                    == acked_all(
                    history(old(self).chat_area_state),
                    seq![u],
                    OutgoingMessageState::Received,
                ),
                Event::MessagesRead(resp) => r == Effect::Nothing && final(self).connection_state
                    == old(self).connection_state && history(final(self).chat_area_state) == if selected_room(old(self).chat_area_state) == Some(resp.room_id) {
                    acked_all(
                        history(old(self).chat_area_state),
                        resp.message_uuids@,
                        OutgoingMessageState::Read,
                    )
                } else {
                    history(old(self).chat_area_state)
                },
            },
    {
        match event {
            Event::Connected => {
                self.connection_state = ConnectionState::Connected;
                Effect::LoadUsersAndRooms
            },
            Event::Disconnected => {
                self.connection_state = ConnectionState::Disconnected;
                Effect::Nothing
            },
            Event::MessageReceived(m) => self.receive_message(m),
            Event::MessageSent(u) => {
                let uuids = vec![u];
                assert(uuids@ =~= seq![u]);
                self.change_outgoing_messages_state(&uuids, OutgoingMessageState::Sent);
                Effect::Nothing
            },
            Event::MessageDelivered(u) => {
                let uuids = vec![u];
                assert(uuids@ =~= seq![u]);
                self.change_outgoing_messages_state(&uuids, OutgoingMessageState::Received);
                Effect::Nothing
            },
            Event::MessagesRead(resp) => {
                let same_room = match &self.chat_area_state {
                    ChatAreaState::RoomSelected(area) => area.room_id == resp.room_id,
                    ChatAreaState::RoomNotSelected => false,
                };
                if same_room {
                    self.change_outgoing_messages_state(
                        &resp.message_uuids,
                        OutgoingMessageState::Read,
                    );
                }
                Effect::Nothing
            },
        }
    }

    fn receive_message(&mut self, m: MessageResponse) -> (r: Effect)
        requires
            old(self).wf(),
        ensures
            final(self).wf(),
            final(self).input_value == old(self).input_value,
            final(self).rooms == old(self).rooms,
            final(self).users == old(self).users,
            final(self).connection_state == old(self).connection_state,
            selected_room(final(self).chat_area_state) == selected_room(old(self).chat_area_state),
            next_page(final(self).chat_area_state) == next_page(old(self).chat_area_state),
            if selected_room(old(self).chat_area_state) == Some(m.room_id) {
                history(final(self).chat_area_state) == inserted(
                    history(old(self).chat_area_state),
                    incoming_of(m),
                ) && match r {
                    Effect::Send(SendEvent::MessagesRead(req)) => req.room_id == m.room_id
                        && req.message_uuids@ == seq![m.uuid],
                    _ => false,
                }
            } else {
                r == Effect::Nothing && *final(self) == *old(self)
            },
    {
        match &mut self.chat_area_state {
            ChatAreaState::RoomSelected(area) => {
                if area.room_id != m.room_id {
                    return Effect::Nothing;
                }
                let uuid = m.uuid;
                let room_id = m.room_id;
                let entry = ChatMessage::Incoming(
                    IncomingChatMessage {
                        user_id: m.user_id,
                        uuid,
                        content: m.content,
                        created_at: m.created_at,
                    },
                );
                insert_message(&mut area.messages, entry);
                Effect::Send(
                    SendEvent::MessagesRead(
                        MarkMessagesReadRequest { room_id, message_uuids: vec![uuid] },
                    ),
                )
            },
            ChatAreaState::RoomNotSelected => Effect::Nothing,
        }
    }

    /// Applies the acknowledgement `message_state` to the open room's
    /// outgoing messages among `message_uuids`.
    pub fn change_outgoing_messages_state(
        &mut self,
        message_uuids: &Vec<UuidIdentifier>,
        message_state: OutgoingMessageState,
    )
        requires
            old(self).wf(),
        ensures
            final(self).wf(),
            final(self).input_value == old(self).input_value,
            final(self).rooms == old(self).rooms,
            final(self).users == old(self).users,
            final(self).connection_state == old(self).connection_state,
            selected_room(final(self).chat_area_state) == selected_room(old(self).chat_area_state),
            next_page(final(self).chat_area_state) == next_page(old(self).chat_area_state),
            history(final(self).chat_area_state) == acked_all(
                history(old(self).chat_area_state),
                message_uuids@,
                message_state,
            ),
    {
        match &mut self.chat_area_state {
            ChatAreaState::RoomSelected(area) => {
                change_outgoing_messages_state(&mut area.messages, message_uuids, message_state);
            },
            ChatAreaState::RoomNotSelected => {
                assert(acked_all(Seq::empty(), message_uuids@, message_state) =~= Seq::empty());
            },
        }
    }
}

/// The commands that re-establish the connection: close the current one,
/// then open one to `url` with the bearer `token`.
pub fn reconnect_commands(url: String, token: String) -> (r: (SendEvent, SendEvent))
    ensures
        r.0 == SendEvent::Disconnect,
        r.1 == (SendEvent::Connect { url, token }),
{
    (SendEvent::Disconnect, SendEvent::Connect { url, token })
}

} // verus!
