use nultr_client::history::{change_outgoing_messages_state, find_uuid, insert_message, merge_messages};
use nultr_client::message::{ChatMessage, IncomingChatMessage, OutgoingChatMessage, OutgoingMessageState};
use nultr_client::message::OutgoingMessageState::{Read, Received, Sent};

fn outgoing(uuid: u128, created_at: i64, state: OutgoingMessageState) -> ChatMessage {
    ChatMessage::Outgoing(OutgoingChatMessage {
        user_id: 1,
        uuid,
        content: format!("out {uuid}"),
        created_at,
        state,
    })
}

fn incoming(uuid: u128, created_at: i64) -> ChatMessage {
    ChatMessage::Incoming(IncomingChatMessage {
        user_id: 2,
        uuid,
        content: format!("in {uuid}"),
        created_at,
    })
}

fn uuids(messages: &[ChatMessage]) -> Vec<u128> {
    messages.iter().map(|m| m.uuid()).collect()
}

fn state_of(messages: &[ChatMessage], uuid: u128) -> Option<OutgoingMessageState> {
    messages.iter().find(|m| m.uuid() == uuid).and_then(|m| m.delivery_state())
}

#[test]
fn read_then_stale_sent_stays_read() {
    let mut history = vec![outgoing(7, 100, OutgoingMessageState::Created)];
    change_outgoing_messages_state(&mut history, &vec![7], OutgoingMessageState::Read);
    change_outgoing_messages_state(&mut history, &vec![7], OutgoingMessageState::Sent);
    assert_eq!(state_of(&history, 7), Some(OutgoingMessageState::Read));
}

#[test]
fn acks_in_every_order_end_at_highest() {
    let orders = [
        [Sent, Received, Read],
        [Sent, Read, Received],
        [Received, Sent, Read],
        [Received, Read, Sent],
        [Read, Sent, Received],
        [Read, Received, Sent],
    ];
    for order in orders {
        let mut history = vec![outgoing(1, 10, OutgoingMessageState::Created)];
        for ack in order {
            change_outgoing_messages_state(&mut history, &vec![1], ack);
        }
        assert_eq!(state_of(&history, 1), Some(Read));
    }
    let mut history = vec![outgoing(1, 10, OutgoingMessageState::Created)];
    for ack in [Received, Sent, Sent, Received] {
        change_outgoing_messages_state(&mut history, &vec![1], ack);
    }
    assert_eq!(state_of(&history, 1), Some(Received));
}

#[test]
fn ack_touches_only_listed_outgoing_messages() {
    let mut history = vec![
        outgoing(1, 10, OutgoingMessageState::Created),
        incoming(2, 20),
        outgoing(3, 30, OutgoingMessageState::Created),
    ];
    change_outgoing_messages_state(&mut history, &vec![1, 2], OutgoingMessageState::Sent);
    assert_eq!(state_of(&history, 1), Some(OutgoingMessageState::Sent));
    assert_eq!(state_of(&history, 2), None);
    assert_eq!(state_of(&history, 3), Some(OutgoingMessageState::Created));
}

#[test]
fn merging_two_overlapping_pages_keeps_one_entry_per_uuid() {
    let mut history: Vec<ChatMessage> = Vec::new();
    merge_messages(&mut history, vec![incoming(1, 100), incoming(2, 200)]);
    merge_messages(&mut history, vec![incoming(2, 200), incoming(3, 300)]);
    assert_eq!(uuids(&history), vec![1, 2, 3]);
    let times: Vec<i64> = history.iter().map(|m| m.created_at()).collect();
    assert_eq!(times, vec![100, 200, 300]);
}

#[test]
fn merging_the_same_page_twice_changes_nothing() {
    let mut history: Vec<ChatMessage> = Vec::new();
    merge_messages(&mut history, vec![incoming(1, 100), outgoing(2, 200, OutgoingMessageState::Received)]);
    merge_messages(&mut history, vec![incoming(1, 100), outgoing(2, 200, OutgoingMessageState::Received)]);
    assert_eq!(uuids(&history), vec![1, 2]);
    assert_eq!(state_of(&history, 2), Some(OutgoingMessageState::Received));
}

#[test]
fn merge_sorts_an_unordered_page() {
    let mut history = vec![incoming(5, 500)];
    merge_messages(&mut history, vec![incoming(9, 900), incoming(1, 100), incoming(4, 400)]);
    assert_eq!(uuids(&history), vec![1, 4, 5, 9]);
}

#[test]
fn merge_keeps_one_whole_copy_of_a_message() {
    let mut history = vec![ChatMessage::Outgoing(OutgoingChatMessage {
        user_id: 1,
        uuid: 7,
        content: "local".to_string(),
        created_at: 1,
        state: OutgoingMessageState::Created,
    })];
    merge_messages(&mut history, vec![ChatMessage::Outgoing(OutgoingChatMessage {
        user_id: 1,
        uuid: 7,
        content: "server".to_string(),
        created_at: 2,
        state: OutgoingMessageState::Read,
    })]);
    assert_eq!(history.len(), 1);
    match &history[0] {
        ChatMessage::Outgoing(m) => {
            assert_eq!(m.content, "server");
            assert_eq!(m.created_at, 2);
            assert_eq!(m.state, OutgoingMessageState::Read);
        }
        _ => panic!("expected an outgoing entry"),
    }
}

#[test]
fn merge_keeps_the_held_copy_on_a_tie() {
    let mut history = vec![outgoing(3, 100, OutgoingMessageState::Received)];
    merge_messages(&mut history, vec![ChatMessage::Outgoing(OutgoingChatMessage {
        user_id: 1,
        uuid: 3,
        content: "other".to_string(),
        created_at: 50,
        state: OutgoingMessageState::Received,
    })]);
    assert_eq!(history.len(), 1);
    assert_eq!(history[0].created_at(), 100);
}

#[test]
fn replacing_copy_is_placed_by_its_own_timestamp() {
    let mut history = vec![
        outgoing(1, 10, OutgoingMessageState::Created),
        incoming(2, 20),
        incoming(3, 30),
    ];
    merge_messages(&mut history, vec![outgoing(1, 25, OutgoingMessageState::Received)]);
    assert_eq!(uuids(&history), vec![2, 1, 3]);
    assert_eq!(state_of(&history, 1), Some(OutgoingMessageState::Received));
}

#[test]
fn merge_upgrades_but_never_downgrades_a_present_entry() {
    let mut history = vec![outgoing(1, 100, OutgoingMessageState::Sent)];
    merge_messages(&mut history, vec![outgoing(1, 100, OutgoingMessageState::Read)]);
    assert_eq!(state_of(&history, 1), Some(OutgoingMessageState::Read));
    merge_messages(&mut history, vec![outgoing(1, 100, OutgoingMessageState::Received)]);
    assert_eq!(state_of(&history, 1), Some(OutgoingMessageState::Read));
    assert_eq!(history.len(), 1);
}

#[test]
fn merge_of_an_empty_page_keeps_the_history() {
    let mut history = vec![incoming(1, 100), incoming(2, 200)];
    merge_messages(&mut history, Vec::new());
    assert_eq!(uuids(&history), vec![1, 2]);
}

#[test]
fn insert_places_equal_timestamps_after_present_ones() {
    let mut history = vec![incoming(1, 100), incoming(2, 200)];
    insert_message(&mut history, incoming(3, 100));
    assert_eq!(uuids(&history), vec![1, 3, 2]);
    insert_message(&mut history, incoming(4, 50));
    assert_eq!(uuids(&history), vec![4, 1, 3, 2]);
    insert_message(&mut history, incoming(5, 999));
    assert_eq!(uuids(&history), vec![4, 1, 3, 2, 5]);
}

#[test]
fn find_uuid_reports_position() {
    let history = vec![incoming(1, 100), incoming(2, 200)];
    assert_eq!(find_uuid(&history, 2), Some(1));
    assert_eq!(find_uuid(&history, 3), None);
}

#[test]
fn state_ranks_are_ordered() {
    assert_eq!(OutgoingMessageState::Created.rank_of(), 1);
    assert_eq!(OutgoingMessageState::Sent.rank_of(), 2);
    assert_eq!(OutgoingMessageState::Received.rank_of(), 3);
    assert_eq!(OutgoingMessageState::Read.rank_of(), 4);
    assert_eq!(OutgoingMessageState::Read.upgrade(OutgoingMessageState::Sent), OutgoingMessageState::Read);
    assert_eq!(OutgoingMessageState::Sent.upgrade(OutgoingMessageState::Received), OutgoingMessageState::Received);
}
