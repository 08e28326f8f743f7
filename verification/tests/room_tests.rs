use aloha::frame::encode_frame;
use aloha::room::ChatRoom;

fn members(room: &ChatRoom, sender: u64) -> Vec<(u64, String)> {
    let mut v: Vec<(u64, String)> = room
        .broadcast(sender, "x", "y")
        .recipients
        .into_iter()
        .map(|m| (m.conn, m.username))
        .collect();
    v.sort();
    v
}

const NOBODY: u64 = u64::MAX;

#[test]
fn new_room_is_empty() {
    let room = ChatRoom::new();
    assert!(members(&room, NOBODY).is_empty());
}

#[test]
fn broadcast_reaches_everyone_but_the_sender() {
    let mut room = ChatRoom::new();
    room.add_to_room("alice".to_string(), 1);
    room.add_to_room("bob".to_string(), 2);
    room.add_to_room("carol".to_string(), 3);
    let plan = room.broadcast(2, "bob", "hello");
    assert_eq!(plan.frame, encode_frame("bob: hello"));
    let mut got: Vec<(u64, String)> =
        plan.recipients.into_iter().map(|m| (m.conn, m.username)).collect();
    got.sort();
    assert_eq!(got, vec![(1, "alice".to_string()), (3, "carol".to_string())]);
}

#[test]
fn sender_outside_room_reaches_everyone() {
    let mut room = ChatRoom::new();
    room.add_to_room("alice".to_string(), 1);
    room.add_to_room("bob".to_string(), 2);
    assert_eq!(members(&room, NOBODY).len(), 2);
}

#[test]
fn same_name_keeps_both_connections() {
    let mut room = ChatRoom::new();
    room.add_to_room("u".to_string(), 1);
    room.add_to_room("u".to_string(), 2);
    room.add_to_room("c".to_string(), 3);
    let plan = room.broadcast(3, "c", "m");
    assert_eq!(plan.frame, encode_frame("c: m"));
    let mut got: Vec<(u64, String)> =
        plan.recipients.into_iter().map(|m| (m.conn, m.username)).collect();
    got.sort();
    assert_eq!(got, vec![(1, "u".to_string()), (2, "u".to_string())]);
    // a same-named member still hears the other
    assert_eq!(members(&room, 1), vec![(2, "u".to_string()), (3, "c".to_string())]);
}

#[test]
fn remove_takes_only_that_connection_out() {
    let mut room = ChatRoom::new();
    room.add_to_room("alice".to_string(), 1);
    room.add_to_room("alice".to_string(), 2);
    room.remove_from_room(1);
    assert_eq!(members(&room, NOBODY), vec![(2, "alice".to_string())]);
    room.remove_from_room(1);
    assert_eq!(members(&room, NOBODY), vec![(2, "alice".to_string())]);
}

#[test]
fn leave_undoes_join() {
    let mut room = ChatRoom::new();
    room.add_to_room("alice".to_string(), 1);
    let before = members(&room, NOBODY);
    room.add_to_room("bob".to_string(), 2);
    room.remove_from_room(2);
    assert_eq!(members(&room, NOBODY), before);
}

#[test]
fn unreachable_members_are_dropped() {
    let mut room = ChatRoom::new();
    room.add_to_room("a".to_string(), 1);
    room.add_to_room("b".to_string(), 2);
    room.add_to_room("c".to_string(), 3);
    room.drop_unreachable(&vec![(1, true), (2, false), (3, true), (9, false)]);
    assert_eq!(members(&room, NOBODY), vec![(1, "a".to_string()), (3, "c".to_string())]);
    room.drop_unreachable(&vec![]);
    assert_eq!(members(&room, NOBODY).len(), 2);
}
