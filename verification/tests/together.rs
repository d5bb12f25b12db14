use chat_server::lobby::{Delivery, Lobby};
use chat_server::messages::Connect;
use chat_server::proto::{
    Input, JoinInput, Output, PostInput, Room, RoomsOutput, TypingInput, UserLeftOutput,
};
use chat_server::ws::{Action, ChatWebsocket, Frame};

/// Carries out what a session asks of the lobby and returns what the lobby
/// wants delivered; listings are returned as deliveries to the session itself.
fn forward(lobby: &mut Lobby<u8>, session: &ChatWebsocket, actions: Vec<Action>) -> Vec<Delivery> {
    let mut out = Vec::new();
    for action in actions {
        match action {
            Action::Connect(msg) => {
                out.push(Delivery { to: session.id(), event: lobby.connect(msg) })
            }
            Action::Join(msg) => out.extend(lobby.join(msg, 0)),
            Action::Disconnect(msg) => out.extend(lobby.disconnect(msg)),
            Action::Typing(msg) => out.extend(lobby.typing(msg)),
            Action::Post(msg) => out.extend(lobby.post(msg)),
            other => panic!("not for the lobby: {:?}", other),
        }
    }
    out
}

fn request(input: Input) -> Frame {
    Frame::Request(input)
}

fn join_of(room: u128, name: &str) -> Input {
    Input::Join(JoinInput { username: name.to_string(), room })
}

fn rooms_with(lobby: &Lobby<u8>, id: u128) -> Vec<u128> {
    let listing = match lobby.connect(Connect {}) {
        Output::Rooms(r) => r.rooms,
        other => panic!("not a listing: {:?}", other),
    };
    let mut found: Vec<u128> = listing
        .iter()
        .map(|r| r.id)
        .filter(|r| lobby.room(r).unwrap().get_username(&id).is_some())
        .collect();
    found.sort();
    found
}

#[test]
fn a_session_is_in_one_room_at_a_time() {
    let mut lobby: Lobby<u8> = Lobby::new();
    let mut session = ChatWebsocket::with_id(1, 0);
    let actions = session.handle(request(join_of(10, "ann")), 0);
    forward(&mut lobby, &session, actions);
    assert_eq!(rooms_with(&lobby, 1), vec![10]);
    let actions = session.handle(request(join_of(20, "ann")), 0);
    forward(&mut lobby, &session, actions);
    assert_eq!(rooms_with(&lobby, 1), vec![20]);
    let actions = session.handle(request(join_of(20, "anna")), 0);
    forward(&mut lobby, &session, actions);
    assert_eq!(rooms_with(&lobby, 1), vec![20]);
    assert_eq!(lobby.room(&20).unwrap().get_username(&1), Some(&"anna".to_string()));
}

#[test]
fn leave_returns_to_the_listing() {
    let mut lobby: Lobby<u8> = Lobby::new();
    let mut ann = ChatWebsocket::with_id(1, 0);
    let mut ben = ChatWebsocket::with_id(2, 0);
    let actions = ann.handle(request(join_of(10, "ann")), 0);
    forward(&mut lobby, &ann, actions);
    let actions = ben.handle(request(join_of(10, "ben")), 0);
    forward(&mut lobby, &ben, actions);

    let actions = ann.handle(request(Input::Leave), 0);
    let out = forward(&mut lobby, &ann, actions);
    assert_eq!(
        out,
        vec![
            Delivery { to: 2, event: Output::UserLeft(UserLeftOutput::new(1, &"ann".to_string())) },
            Delivery {
                to: 1,
                event: Output::Rooms(RoomsOutput::new(vec![Room::new(
                    10,
                    "ann's room".to_string(),
                    1,
                    10
                )])),
            },
        ]
    );
    assert_eq!(ann.room(), None);
    assert_eq!(rooms_with(&lobby, 1), Vec::<u128>::new());
}

#[test]
fn timeout_then_stop_takes_effect_once() {
    let mut lobby: Lobby<u8> = Lobby::new();
    let mut ann = ChatWebsocket::with_id(1, 0);
    let mut ben = ChatWebsocket::with_id(2, 0);
    let actions = ann.handle(request(join_of(10, "ann")), 0);
    forward(&mut lobby, &ann, actions);
    let actions = ben.handle(request(join_of(10, "ben")), 0);
    forward(&mut lobby, &ben, actions);
    let actions = ben.handle(request(Input::Typing(TypingInput::Started)), 0);
    forward(&mut lobby, &ben, actions);

    let mut tick = ben.hb(10_001);
    assert_eq!(tick.pop(), Some(Action::Stop));
    let first = forward(&mut lobby, &ben, tick);
    assert_eq!(first.len(), 2);
    assert!(first.iter().all(|d| d.to == 1));
    assert!(matches!(first[0].event, Output::Typing(_)));
    assert!(matches!(first[1].event, Output::UserLeft(_)));

    let second = forward(&mut lobby, &ben, ben.stopping());
    assert_eq!(second, vec![]);
    assert_eq!(rooms_with(&lobby, 2), Vec::<u128>::new());
    assert_eq!(rooms_with(&lobby, 1), vec![10]);
}

#[test]
fn a_post_before_any_join_never_reaches_the_lobby() {
    let mut lobby: Lobby<u8> = Lobby::new();
    let mut session = ChatWebsocket::with_id(1, 0);
    let actions =
        session.handle(request(Input::Post(PostInput { message: "hi".to_string() })), 0);
    assert!(matches!(actions[0], Action::Reply(_)));
    assert_eq!(lobby.connect(Connect {}), Output::Rooms(RoomsOutput::new(vec![])));
    let out = forward(&mut lobby, &session, session.stopping());
    assert_eq!(out, vec![]);
}

#[test]
fn a_join_with_an_empty_name() {
    let mut lobby: Lobby<u8> = Lobby::new();
    let mut session = ChatWebsocket::with_id(1, 0);
    let actions = session.handle(request(join_of(10, "")), 0);
    forward(&mut lobby, &session, actions);
    assert_eq!(lobby.room(&10).unwrap().name, "'s room");
    assert_eq!(lobby.room(&10).unwrap().get_username(&1), Some(&String::new()));
}
