use chat_server::clock::Timestamp;
use chat_server::lobby::{Delivery, Lobby};
use chat_server::messages::{ClientActorMessage, Connect, Disconnect, Join, Typing};
use chat_server::proto::{
    JoinedOutput, MessageOutput, Output, PostedOutput, Room, RoomsOutput, TypingInput,
    TypingOutput, UserJoinedOutput, UserLeftOutput, UserOutput, UserPostedOutput,
};

const R: u128 = 0x52;
const A: u128 = 0xa;
const B: u128 = 0xb;
const C: u128 = 0xc;

fn join(room: u128, id: u128, name: &str) -> Join {
    Join { lobby_id: room, self_id: id, username: name.to_string() }
}

fn user(id: u128, name: &str) -> UserOutput {
    UserOutput::new(id, name)
}

fn sorted(mut out: Vec<Delivery>) -> Vec<Delivery> {
    out.sort_by_key(|d| d.to);
    out
}

fn sorted_users(mut users: Vec<UserOutput>) -> Vec<UserOutput> {
    users.sort_by_key(|u| u.id);
    users
}

fn members(lobby: &Lobby<&'static str>, room: u128) -> Vec<u128> {
    let mut ids: Vec<u128> = lobby.room(&room).unwrap().clients.keys().copied().collect();
    ids.sort();
    ids
}

fn joined(out: &Delivery) -> JoinedOutput {
    match &out.event {
        Output::Joined(j) => j.clone(),
        other => panic!("not a joined reply: {:?}", other),
    }
}

#[test]
fn new_lobby_lists_no_rooms() {
    let lobby: Lobby<&'static str> = Lobby::new();
    assert_eq!(lobby.connect(Connect {}), Output::Rooms(RoomsOutput::new(vec![])));
}

#[test]
fn default_lobby_has_two_standing_rooms() {
    let lobby: Lobby<&'static str> = Lobby::default();
    let rooms = match lobby.connect(Connect {}) {
        Output::Rooms(r) => r.rooms,
        other => panic!("not a listing: {:?}", other),
    };
    let mut names: Vec<String> = rooms.iter().map(|r| r.name.clone()).collect();
    names.sort();
    assert_eq!(names, vec!["Default room".to_string(), "Joel's room".to_string()]);
    for room in &rooms {
        assert_eq!(room.connected_clients, 0);
        assert_eq!(room.max_clients, 10);
        assert_eq!(room.id & 0xF000_C000_0000_0000_0000, 0x4000_8000_0000_0000_0000);
    }
    assert_ne!(rooms[0].id, rooms[1].id);
}

#[test]
fn standing_rooms_under_given_ids() {
    let lobby: Lobby<&'static str> = Lobby::with_standing_rooms(1, 2);
    let mut rooms = match lobby.connect(Connect {}) {
        Output::Rooms(r) => r.rooms,
        other => panic!("not a listing: {:?}", other),
    };
    rooms.sort_by_key(|r| r.id);
    assert_eq!(
        rooms,
        vec![
            Room::new(1, "Default room".to_string(), 0, 10),
            Room::new(2, "Joel's room".to_string(), 0, 10),
        ]
    );
}

#[test]
fn standing_rooms_under_one_id_keep_the_second() {
    let lobby: Lobby<&'static str> = Lobby::with_standing_rooms(7, 7);
    assert_eq!(
        lobby.connect(Connect {}),
        Output::Rooms(RoomsOutput::new(vec![Room::new(7, "Joel's room".to_string(), 0, 10)]))
    );
}

#[test]
fn join_creates_a_room_named_after_the_user() {
    let mut lobby: Lobby<&'static str> = Lobby::new();
    lobby.join(join(R, A, "alice"), "a");
    assert_eq!(
        lobby.connect(Connect {}),
        Output::Rooms(RoomsOutput::new(vec![Room::new(R, "alice's room".to_string(), 1, 10)]))
    );
    assert_eq!(lobby.recipient(&A), Some(&"a"));
    assert_eq!(lobby.recipient(&B), None);
}

#[test]
fn join_of_existing_room_keeps_its_name() {
    let mut lobby: Lobby<&'static str> = Lobby::with_standing_rooms(1, 2);
    lobby.join(join(1, A, "alice"), "a");
    let room = lobby.room(&1).unwrap();
    assert_eq!(room.name, "Default room");
    assert_eq!(room.max_clients, 10);
    assert_eq!(members(&lobby, 1), vec![A]);
    assert_eq!(members(&lobby, 2), Vec::<u128>::new());
}

#[test]
fn join_is_not_limited_by_max_clients() {
    let mut lobby: Lobby<&'static str> = Lobby::new();
    for id in 0..12u128 {
        let out = lobby.join(join(R, id, "guest"), "h");
        assert_eq!(out.len() as u128, id + 1);
    }
    let room = lobby.room(&R).unwrap();
    assert_eq!(room.clients.len(), 12);
    assert_eq!(room.max_clients, 10);
}

#[test]
fn scenario_two_members_post_and_leave() {
    let mut lobby: Lobby<&'static str> = Lobby::new();

    let out = lobby.join(join(R, A, "alice"), "a");
    assert_eq!(
        out,
        vec![Delivery {
            to: A,
            event: Output::Joined(JoinedOutput::new(user(A, "alice"), vec![], vec![], vec![])),
        }]
    );

    let out = lobby.join(join(R, B, "bob"), "b");
    assert_eq!(
        out,
        vec![
            Delivery {
                to: A,
                event: Output::UserJoined(UserJoinedOutput::new(user(B, "bob"))),
            },
            Delivery {
                to: B,
                event: Output::Joined(JoinedOutput::new(
                    user(B, "bob"),
                    vec![user(A, "alice")],
                    vec![],
                    vec![],
                )),
            },
        ]
    );

    let at = Timestamp::new(1_700_000_000, 5);
    let out = lobby.post_at(
        ClientActorMessage { id: A, msg: "hi".to_string(), room_id: R },
        0x99,
        at,
    );
    let message = MessageOutput::new(0x99, user(A, "alice"), "hi", at);
    assert_eq!(
        out,
        vec![
            Delivery { to: B, event: Output::UserPosted(UserPostedOutput::new(message.clone())) },
            Delivery { to: A, event: Output::Posted(PostedOutput::new(message.clone())) },
        ]
    );
    assert_eq!(lobby.room(&R).unwrap().history, vec![message]);

    let out = lobby.disconnect(Disconnect { room_id: Some(R), self_id: B });
    assert_eq!(
        out,
        vec![Delivery { to: A, event: Output::UserLeft(UserLeftOutput::new(B, &"bob".to_string())) }]
    );
    assert_eq!(members(&lobby, R), vec![A]);
    assert_eq!(lobby.recipient(&B), None);
    assert_eq!(lobby.recipient(&A), Some(&"a"));
}

#[test]
fn scenario_disconnect_while_typing() {
    let mut lobby: Lobby<&'static str> = Lobby::new();
    lobby.join(join(R, A, "alice"), "a");
    lobby.join(join(R, B, "bob"), "b");

    let out = lobby.typing(Typing { id: A, room_id: R, status: TypingInput::Started });
    assert_eq!(
        out,
        vec![Delivery {
            to: B,
            event: Output::Typing(TypingOutput::new(TypingInput::Started, user(A, "alice"))),
        }]
    );
    assert!(lobby.room(&R).unwrap().typing_clients.contains(&A));

    let out = lobby.disconnect(Disconnect { room_id: Some(R), self_id: A });
    assert_eq!(
        out,
        vec![
            Delivery {
                to: B,
                event: Output::Typing(TypingOutput::new(TypingInput::Stopped, user(A, "alice"))),
            },
            Delivery {
                to: B,
                event: Output::UserLeft(UserLeftOutput::new(A, &"alice".to_string())),
            },
        ]
    );
    let room = lobby.room(&R).unwrap();
    assert!(room.typing_clients.is_empty());
    assert_eq!(members(&lobby, R), vec![B]);
}

#[test]
fn membership_follows_joins_and_disconnects() {
    let mut lobby: Lobby<&'static str> = Lobby::new();
    lobby.join(join(R, A, "alice"), "a");
    lobby.join(join(R, B, "bob"), "b");
    lobby.join(join(R, C, "carol"), "c");
    assert_eq!(members(&lobby, R), vec![A, B, C]);
    lobby.disconnect(Disconnect { room_id: Some(R), self_id: B });
    assert_eq!(members(&lobby, R), vec![A, C]);
    lobby.join(join(R, B, "bobby"), "b2");
    assert_eq!(members(&lobby, R), vec![A, B, C]);
    assert_eq!(lobby.room(&R).unwrap().get_username(&B), Some(&"bobby".to_string()));
    lobby.disconnect(Disconnect { room_id: Some(R), self_id: A });
    lobby.disconnect(Disconnect { room_id: Some(R), self_id: C });
    lobby.disconnect(Disconnect { room_id: Some(R), self_id: B });
    assert_eq!(members(&lobby, R), Vec::<u128>::new());
    assert!(lobby.room(&R).is_some());
}

#[test]
fn joiner_gets_no_echo_and_the_whole_history() {
    let mut lobby: Lobby<&'static str> = Lobby::new();
    lobby.join(join(R, A, "alice"), "a");
    let first = Timestamp::new(10, 0);
    let second = Timestamp::new(11, 500);
    lobby.post_at(ClientActorMessage { id: A, msg: "one".to_string(), room_id: R }, 1, first);
    lobby.post_at(ClientActorMessage { id: A, msg: "two".to_string(), room_id: R }, 2, second);
    lobby.typing(Typing { id: A, room_id: R, status: TypingInput::Started });

    let out = lobby.join(join(R, B, "bob"), "b");
    let to_bob: Vec<&Delivery> = out.iter().filter(|d| d.to == B).collect();
    assert_eq!(to_bob.len(), 1);
    assert_eq!(out.last().unwrap().to, B);
    let reply = joined(out.last().unwrap());
    assert_eq!(reply.user, user(B, "bob"));
    assert_eq!(reply.others, vec![user(A, "alice")]);
    assert_eq!(
        reply.messages,
        vec![
            MessageOutput::new(1, user(A, "alice"), "one", first),
            MessageOutput::new(2, user(A, "alice"), "two", second),
        ]
    );
    assert_eq!(reply.typing, vec![user(A, "alice")]);
    assert_eq!(reply.messages, lobby.room(&R).unwrap().history);
}

#[test]
fn join_notice_reaches_every_other_member_once() {
    let mut lobby: Lobby<&'static str> = Lobby::new();
    lobby.join(join(R, A, "alice"), "a");
    lobby.join(join(R, B, "bob"), "b");
    let mut out = lobby.join(join(R, C, "carol"), "c");
    let reply = joined(&out.pop().unwrap());
    assert_eq!(sorted_users(reply.others), vec![user(A, "alice"), user(B, "bob")]);
    let notice = Output::UserJoined(UserJoinedOutput::new(user(C, "carol")));
    assert_eq!(
        sorted(out),
        vec![
            Delivery { to: A, event: notice.clone() },
            Delivery { to: B, event: notice.clone() },
        ]
    );
}

#[test]
fn rejoin_replaces_the_name_and_lists_no_self() {
    let mut lobby: Lobby<&'static str> = Lobby::new();
    lobby.join(join(R, A, "alice"), "a");
    let out = lobby.join(join(R, A, "alicia"), "a2");
    assert_eq!(
        out,
        vec![Delivery {
            to: A,
            event: Output::Joined(JoinedOutput::new(user(A, "alicia"), vec![], vec![], vec![])),
        }]
    );
    assert_eq!(lobby.recipient(&A), Some(&"a2"));
    assert_eq!(lobby.room(&R).unwrap().get_username(&A), Some(&"alicia".to_string()));
}

#[test]
fn second_disconnect_is_a_noop() {
    let mut lobby: Lobby<&'static str> = Lobby::new();
    lobby.join(join(R, A, "alice"), "a");
    lobby.join(join(R, B, "bob"), "b");
    let first = lobby.disconnect(Disconnect { room_id: Some(R), self_id: B });
    assert_eq!(first.len(), 1);
    let second = lobby.disconnect(Disconnect { room_id: Some(R), self_id: B });
    assert_eq!(second, vec![]);
    let third = lobby.disconnect(Disconnect { room_id: None, self_id: B });
    assert_eq!(third, vec![]);
    assert_eq!(members(&lobby, R), vec![A]);
    assert_eq!(lobby.recipient(&A), Some(&"a"));
}

#[test]
fn disconnect_of_unknown_session_changes_nothing() {
    let mut lobby: Lobby<&'static str> = Lobby::new();
    lobby.join(join(R, A, "alice"), "a");
    assert_eq!(lobby.disconnect(Disconnect { room_id: Some(R), self_id: C }), vec![]);
    assert_eq!(lobby.disconnect(Disconnect { room_id: Some(0x77), self_id: C }), vec![]);
    assert_eq!(members(&lobby, R), vec![A]);
    assert!(lobby.room(&0x77).is_none());
}

#[test]
fn disconnect_for_unknown_room_only_unregisters() {
    let mut lobby: Lobby<&'static str> = Lobby::new();
    lobby.join(join(R, A, "alice"), "a");
    lobby.join(join(R, B, "bob"), "b");
    assert_eq!(lobby.disconnect(Disconnect { room_id: Some(0x77), self_id: A }), vec![]);
    assert_eq!(lobby.recipient(&A), None);
    assert_eq!(members(&lobby, R), vec![A, B]);
    assert!(lobby.room(&0x77).is_none());
    assert_eq!(lobby.disconnect(Disconnect { room_id: None, self_id: B }), vec![]);
    assert_eq!(lobby.recipient(&B), None);
    assert_eq!(members(&lobby, R), vec![A, B]);
}

#[test]
fn unreachable_members_get_nothing() {
    let mut lobby: Lobby<&'static str> = Lobby::new();
    lobby.join(join(R, A, "alice"), "a");
    lobby.join(join(R, B, "bob"), "b");
    lobby.disconnect(Disconnect { room_id: Some(0x77), self_id: A });
    let out = lobby.typing(Typing { id: B, room_id: R, status: TypingInput::Started });
    assert_eq!(out, vec![]);
    let at = Timestamp::new(1, 2);
    let out = lobby.post_at(ClientActorMessage { id: A, msg: "hm".to_string(), room_id: R }, 5, at);
    assert_eq!(
        out,
        vec![Delivery {
            to: B,
            event: Output::UserPosted(UserPostedOutput::new(MessageOutput::new(
                5,
                user(A, "alice"),
                "hm",
                at
            ))),
        }]
    );
    assert_eq!(lobby.room(&R).unwrap().history.len(), 1);
}

#[test]
fn typing_of_a_stranger_is_ignored() {
    let mut lobby: Lobby<&'static str> = Lobby::new();
    lobby.join(join(R, A, "alice"), "a");
    assert_eq!(lobby.typing(Typing { id: C, room_id: R, status: TypingInput::Started }), vec![]);
    assert_eq!(lobby.typing(Typing { id: A, room_id: 0x77, status: TypingInput::Started }), vec![]);
    assert!(lobby.room(&R).unwrap().typing_clients.is_empty());
    assert!(lobby.room(&0x77).is_none());
}

#[test]
fn typing_toggles_the_flag() {
    let mut lobby: Lobby<&'static str> = Lobby::new();
    lobby.join(join(R, A, "alice"), "a");
    lobby.join(join(R, B, "bob"), "b");
    lobby.typing(Typing { id: A, room_id: R, status: TypingInput::Started });
    lobby.typing(Typing { id: A, room_id: R, status: TypingInput::Started });
    assert_eq!(lobby.room(&R).unwrap().typing_clients.len(), 1);
    let out = lobby.typing(Typing { id: A, room_id: R, status: TypingInput::Stopped });
    assert_eq!(
        out,
        vec![Delivery {
            to: B,
            event: Output::Typing(TypingOutput::new(TypingInput::Stopped, user(A, "alice"))),
        }]
    );
    assert!(lobby.room(&R).unwrap().typing_clients.is_empty());
    let out = lobby.disconnect(Disconnect { room_id: Some(R), self_id: A });
    assert_eq!(
        out,
        vec![Delivery { to: B, event: Output::UserLeft(UserLeftOutput::new(A, &"alice".to_string())) }]
    );
}

#[test]
fn typing_stop_comes_before_leave_for_every_member() {
    let mut lobby: Lobby<&'static str> = Lobby::new();
    lobby.join(join(R, A, "alice"), "a");
    lobby.join(join(R, B, "bob"), "b");
    lobby.join(join(R, C, "carol"), "c");
    lobby.typing(Typing { id: A, room_id: R, status: TypingInput::Started });
    let out = lobby.disconnect(Disconnect { room_id: Some(R), self_id: A });
    assert_eq!(out.len(), 4);
    let stopped = Output::Typing(TypingOutput::new(TypingInput::Stopped, user(A, "alice")));
    let left = Output::UserLeft(UserLeftOutput::new(A, &"alice".to_string()));
    for peer in [B, C] {
        let stop_at = out.iter().position(|d| d.to == peer && d.event == stopped).unwrap();
        let left_at = out.iter().position(|d| d.to == peer && d.event == left).unwrap();
        assert!(stop_at < left_at);
    }
    assert!(out[..2].iter().all(|d| d.event == stopped));
    assert!(out[2..].iter().all(|d| d.event == left));
    assert!(out.iter().all(|d| d.to != A));
}

#[test]
fn post_of_a_stranger_is_dropped() {
    let mut lobby: Lobby<&'static str> = Lobby::new();
    lobby.join(join(R, A, "alice"), "a");
    let at = Timestamp::new(3, 4);
    assert_eq!(
        lobby.post_at(ClientActorMessage { id: C, msg: "x".to_string(), room_id: R }, 1, at),
        vec![]
    );
    assert_eq!(
        lobby.post_at(ClientActorMessage { id: A, msg: "x".to_string(), room_id: 0x77 }, 1, at),
        vec![]
    );
    assert!(lobby.room(&R).unwrap().history.is_empty());
    assert!(lobby.room(&0x77).is_none());
}

#[test]
fn post_snapshots_the_author_name() {
    let mut lobby: Lobby<&'static str> = Lobby::new();
    lobby.join(join(R, A, "alice"), "a");
    let at = Timestamp::new(3, 4);
    lobby.post_at(ClientActorMessage { id: A, msg: "x".to_string(), room_id: R }, 1, at);
    lobby.join(join(R, A, "alicia"), "a");
    lobby.post_at(ClientActorMessage { id: A, msg: "y".to_string(), room_id: R }, 2, at);
    assert_eq!(
        lobby.room(&R).unwrap().history,
        vec![
            MessageOutput::new(1, user(A, "alice"), "x", at),
            MessageOutput::new(2, user(A, "alicia"), "y", at),
        ]
    );
}

#[test]
fn post_reaches_every_other_member_and_the_author_last() {
    let mut lobby: Lobby<&'static str> = Lobby::new();
    lobby.join(join(R, A, "alice"), "a");
    lobby.join(join(R, B, "bob"), "b");
    lobby.join(join(R, C, "carol"), "c");
    let at = Timestamp::new(100, 999_999_999);
    let mut out =
        lobby.post_at(ClientActorMessage { id: B, msg: "hey".to_string(), room_id: R }, 42, at);
    let message = MessageOutput::new(42, user(B, "bob"), "hey", at);
    assert_eq!(
        out.pop(),
        Some(Delivery { to: B, event: Output::Posted(PostedOutput::new(message.clone())) })
    );
    let notice = Output::UserPosted(UserPostedOutput::new(message.clone()));
    assert_eq!(
        sorted(out),
        vec![
            Delivery { to: A, event: notice.clone() },
            Delivery { to: C, event: notice.clone() },
        ]
    );
    assert_eq!(lobby.room(&R).unwrap().history, vec![message]);
}

#[test]
fn post_stamps_a_fresh_id_and_the_current_time() {
    let mut lobby: Lobby<&'static str> = Lobby::new();
    lobby.join(join(R, A, "alice"), "a");
    let out = lobby.post(ClientActorMessage { id: A, msg: "hi".to_string(), room_id: R });
    let second = lobby.post(ClientActorMessage { id: A, msg: "again".to_string(), room_id: R });
    assert_eq!(out.len(), 1);
    let message = match &out[0].event {
        Output::Posted(p) => p.message.clone(),
        other => panic!("not an acknowledgment: {:?}", other),
    };
    let later = match &second[0].event {
        Output::Posted(p) => p.message.clone(),
        other => panic!("not an acknowledgment: {:?}", other),
    };
    assert_eq!(message.user, user(A, "alice"));
    assert_eq!(message.body, "hi");
    assert_eq!(message.id & 0xF000_C000_0000_0000_0000, 0x4000_8000_0000_0000_0000);
    assert_ne!(message.id, later.id);
    // Any reading of the clock taken now lies after the first of January 2020.
    assert!(message.created_at.secs > 1_577_836_800);
    assert!(message.created_at.nanos < 1_000_000_000);
    assert!(later.created_at.secs >= message.created_at.secs);
    assert_eq!(lobby.room(&R).unwrap().history, vec![message, later]);
}

#[test]
fn rooms_survive_emptying_and_are_listed() {
    let mut lobby: Lobby<&'static str> = Lobby::new();
    lobby.join(join(1, A, "alice"), "a");
    lobby.join(join(2, B, "bob"), "b");
    lobby.join(join(2, C, "carol"), "c");
    lobby.disconnect(Disconnect { room_id: Some(1), self_id: A });
    let mut rooms = match lobby.connect(Connect {}) {
        Output::Rooms(r) => r.rooms,
        other => panic!("not a listing: {:?}", other),
    };
    rooms.sort_by_key(|r| r.id);
    assert_eq!(
        rooms,
        vec![
            Room::new(1, "alice's room".to_string(), 0, 10),
            Room::new(2, "bob's room".to_string(), 2, 10),
        ]
    );
}

#[test]
fn rooms_do_not_see_each_other() {
    let mut lobby: Lobby<&'static str> = Lobby::new();
    lobby.join(join(1, A, "alice"), "a");
    lobby.join(join(2, B, "bob"), "b");
    let at = Timestamp::new(0, 0);
    let out = lobby.post_at(ClientActorMessage { id: A, msg: "x".to_string(), room_id: 1 }, 9, at);
    assert_eq!(out.len(), 1);
    assert_eq!(out[0].to, A);
    assert!(lobby.room(&2).unwrap().history.is_empty());
    let out = lobby.disconnect(Disconnect { room_id: Some(1), self_id: A });
    assert_eq!(out, vec![]);
    assert_eq!(members(&lobby, 2), vec![B]);
}
