use nultr_client::chat::{
    messages_from_page, reconnect_commands, unread_message_uuids, users_from_response,
    ChatAreaState, ConnectionState, Effect, Notice, RoomResponse, State, UserResponse,
    MESSAGES_PAGE_SIZE,
};
use nultr_client::controller::{EventHandler, Policy};
use nultr_client::message::{ChatMessage, OutgoingMessageState};
use nultr_client::protocol::{
    Event, MessageResponse, MessagesReadResponse, Request, Response, SendEvent,
};
use nultr_client::session::Transport;

const ME: i32 = 1;
const PEER: i32 = 2;
const ROOM: i32 = 10;

fn history(state: &State) -> &Vec<ChatMessage> {
    match &state.chat_area_state {
        ChatAreaState::RoomSelected(area) => &area.messages,
        ChatAreaState::RoomNotSelected => panic!("no room open"),
    }
}

fn state_of(state: &State, uuid: u128) -> Option<OutgoingMessageState> {
    history(state).iter().find(|m| m.uuid() == uuid).and_then(|m| m.delivery_state())
}

fn record(uuid: u128, user_id: i32, created_at: i64, read: bool) -> MessageResponse {
    MessageResponse { uuid, room_id: ROOM, user_id, content: format!("m{uuid}"), created_at, read }
}

fn open_room() -> State {
    let mut state = State::new();
    let effect = state.select_room(ROOM);
    match effect {
        Effect::LoadMessages(request) => {
            assert_eq!(request.room_id, ROOM);
            assert_eq!(request.pagination.page, 0);
            assert_eq!(request.pagination.page_size, MESSAGES_PAGE_SIZE);
        }
        _ => panic!("expected a history request"),
    }
    state
}

#[test]
fn end_to_end_send_and_acknowledge() {
    let mut handler = EventHandler::new(Policy::default());
    let mut chat = open_room();

    let step = handler.handle_send(SendEvent::Connect { url: "ws://server/ws".to_string(), token: "T".to_string() });
    match step.transport {
        Some(Transport::Open { token, .. }) => assert_eq!(token, "T"),
        _ => panic!("expected a handshake"),
    }
    let item = handler.handle_connect_result(Ok(()));
    let effect = chat.ws_update(item.unwrap());
    assert!(matches!(effect, Effect::LoadUsersAndRooms));
    assert_eq!(chat.connection_state, ConnectionState::Connected);

    let u: u128 = 0xABCD;
    chat.input_changed("hi".to_string());
    let command = match chat.send_message(ME, u, 5_000) {
        Effect::Send(command) => command,
        _ => panic!("expected a command"),
    };
    assert_eq!(state_of(&chat, u), Some(OutgoingMessageState::Created));
    assert_eq!(chat.input_value, "");

    let step = handler.handle_send(command);
    match step.transport {
        Some(Transport::Transmit(Request::Message(m))) => {
            assert_eq!(m.uuid, u);
            assert_eq!(m.room_id, ROOM);
            assert_eq!(m.content, "hi");
        }
        _ => panic!("expected a transmitted frame"),
    }
    assert!(handler.handle_send_result(Ok(())).output.is_none());

    let step = handler.handle_receive(Ok(Response::MessageSent(u)));
    let event = step.output.unwrap().unwrap();
    assert!(matches!(chat.ws_update(event), Effect::Nothing));
    assert_eq!(state_of(&chat, u), Some(OutgoingMessageState::Sent));
}

#[test]
fn blank_input_sends_nothing() {
    let mut chat = open_room();
    chat.input_changed("   \n\t ".to_string());
    assert!(matches!(chat.send_message(ME, 1, 10), Effect::Nothing));
    assert!(history(&chat).is_empty());
    assert_eq!(chat.input_value, "   \n\t ");
}

#[test]
fn input_is_trimmed_before_sending() {
    let mut chat = open_room();
    chat.input_changed("  hello there \n".to_string());
    match chat.send_message(ME, 1, 10) {
        Effect::Send(SendEvent::Message(m)) => assert_eq!(m.content, "hello there"),
        _ => panic!("expected a message"),
    }
    match &history(&chat)[0] {
        ChatMessage::Outgoing(m) => assert_eq!(m.content, "hello there"),
        _ => panic!("expected an outgoing entry"),
    }
}

#[test]
fn sending_without_room_is_refused() {
    let mut chat = State::new();
    chat.input_changed("hi".to_string());
    assert!(matches!(chat.send_message(ME, 1, 10), Effect::Notify(Notice::NoRoomForMessage)));
    assert_eq!(chat.input_value, "hi");
    assert!(matches!(chat.load_messages(), Effect::Notify(Notice::NoRoomForHistory)));
}

#[test]
fn blank_input_without_room_is_refused_too() {
    let mut chat = State::new();
    chat.input_changed("   ".to_string());
    assert!(matches!(chat.send_message(ME, 1, 10), Effect::Notify(Notice::NoRoomForMessage)));
    assert_eq!(chat.input_value, "   ");
    chat.input_changed(String::new());
    assert!(matches!(chat.send_message(ME, 1, 10), Effect::Notify(Notice::NoRoomForMessage)));
}

#[test]
fn fetched_page_is_merged_and_unread_marked() {
    let mut chat = open_room();
    let page = vec![
        record(3, PEER, 300, false),
        record(1, ME, 100, true),
        record(2, ME, 200, false),
    ];
    match chat.add_messages(ME, page) {
        Effect::Send(SendEvent::MessagesRead(r)) => {
            assert_eq!(r.room_id, ROOM);
            assert_eq!(r.message_uuids, vec![3, 2]);
        }
        _ => panic!("expected read receipts"),
    }
    let order: Vec<u128> = history(&chat).iter().map(|m| m.uuid()).collect();
    assert_eq!(order, vec![1, 2, 3]);
    assert_eq!(state_of(&chat, 1), Some(OutgoingMessageState::Read));
    assert_eq!(state_of(&chat, 2), Some(OutgoingMessageState::Received));
    assert_eq!(state_of(&chat, 3), None);
    match chat.load_messages() {
        Effect::LoadMessages(request) => assert_eq!(request.pagination.page, 1),
        _ => panic!("expected the next page"),
    }
}

#[test]
fn page_without_room_is_dropped() {
    let mut chat = State::new();
    assert!(matches!(chat.add_messages(ME, vec![record(1, PEER, 1, false)]), Effect::Nothing));
}

#[test]
fn message_for_open_room_is_added_and_marked_read() {
    let mut chat = open_room();
    match chat.ws_update(Event::MessageReceived(record(5, PEER, 50, false))) {
        Effect::Send(SendEvent::MessagesRead(r)) => {
            assert_eq!(r.room_id, ROOM);
            assert_eq!(r.message_uuids, vec![5]);
        }
        _ => panic!("expected a read receipt"),
    }
    assert_eq!(history(&chat).len(), 1);

    let mut other = record(6, PEER, 60, false);
    other.room_id = ROOM + 1;
    assert!(matches!(chat.ws_update(Event::MessageReceived(other)), Effect::Nothing));
    assert_eq!(history(&chat).len(), 1);
}

#[test]
fn read_receipts_of_another_room_are_ignored() {
    let mut chat = open_room();
    chat.input_changed("x".to_string());
    let _ = chat.send_message(ME, 7, 70);
    let _ = chat.ws_update(Event::MessagesRead(MessagesReadResponse { room_id: ROOM + 1, message_uuids: vec![7] }));
    assert_eq!(state_of(&chat, 7), Some(OutgoingMessageState::Created));
    let _ = chat.ws_update(Event::MessageDelivered(7));
    assert_eq!(state_of(&chat, 7), Some(OutgoingMessageState::Received));
    let _ = chat.ws_update(Event::MessagesRead(MessagesReadResponse { room_id: ROOM, message_uuids: vec![7] }));
    assert_eq!(state_of(&chat, 7), Some(OutgoingMessageState::Read));
    let _ = chat.ws_update(Event::MessageSent(7));
    assert_eq!(state_of(&chat, 7), Some(OutgoingMessageState::Read));
}

#[test]
fn selecting_the_open_room_again_does_nothing() {
    let mut chat = open_room();
    let _ = chat.add_messages(ME, vec![record(1, PEER, 1, true)]);
    assert!(matches!(chat.select_room(ROOM), Effect::Nothing));
    assert_eq!(history(&chat).len(), 1);
    assert!(matches!(chat.select_room(ROOM + 1), Effect::LoadMessages(_)));
    assert!(history(&chat).is_empty());
    chat.deselect_room();
    assert!(matches!(chat.chat_area_state, ChatAreaState::RoomNotSelected));
}

#[test]
fn disconnect_event_updates_connection_state() {
    let mut chat = State::new();
    let _ = chat.ws_update(Event::Connected);
    assert_eq!(chat.connection_state, ConnectionState::Connected);
    assert!(matches!(chat.ws_update(Event::Disconnected), Effect::Nothing));
    assert_eq!(chat.connection_state, ConnectionState::Disconnected);
}

#[test]
fn user_listing_leaves_out_current_user() {
    let listing = vec![
        UserResponse { id: ME, username: "me".to_string() },
        UserResponse { id: PEER, username: "peer".to_string() },
        UserResponse { id: 3, username: "third".to_string() },
    ];
    let users = users_from_response(&listing, ME);
    let names: Vec<&str> = users.iter().map(|u| u.username.as_str()).collect();
    assert_eq!(names, vec!["peer", "third"]);
    let mut chat = State::new();
    chat.add_users(ME, &listing);
    assert_eq!(chat.users.len(), 2);
}

#[test]
fn page_conversion_and_unread_selection() {
    let page = vec![record(1, ME, 1, false), record(2, PEER, 2, true)];
    let entries = messages_from_page(&page, ME);
    assert_eq!(entries[0].delivery_state(), Some(OutgoingMessageState::Received));
    assert_eq!(entries[1].delivery_state(), None);
    assert_eq!(unread_message_uuids(&page), vec![1]);
}

#[test]
fn reconnect_closes_then_opens() {
    let (first, second) = reconnect_commands("ws://s".to_string(), "T".to_string());
    assert!(matches!(first, SendEvent::Disconnect));
    match second {
        SendEvent::Connect { url, token } => {
            assert_eq!(url, "ws://s");
            assert_eq!(token, "T");
        }
        _ => panic!("expected a connect"),
    }
}

#[test]
fn room_listing_and_created_rooms() {
    let mut chat = State::new();
    chat.add_rooms(&vec![
        RoomResponse { id: 1, name: "one".to_string() },
        RoomResponse { id: 2, name: "two".to_string() },
    ]);
    chat.add_created_room(RoomResponse { id: 3, name: "three".to_string() });
    let ids: Vec<i32> = chat.rooms.iter().map(|r| r.id).collect();
    assert_eq!(ids, vec![1, 2, 3]);
    chat.add_rooms(&vec![RoomResponse { id: 9, name: "nine".to_string() }]);
    assert_eq!(chat.rooms.len(), 1);
    assert_eq!(chat.rooms[0].name, "nine");
}
