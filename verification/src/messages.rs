use crate::proto::TypingInput;
use vstd::prelude::*;

verus! {

/// A serialized event on its way to one client.
#[derive(Debug, Clone, PartialEq)]
pub struct WsMessage(pub String);

/// Asks the lobby for the room listing.
#[derive(Debug, Clone, Copy, PartialEq)]
pub struct Connect {}

/// Asks the lobby to put a session into a room, creating the room if need be.
#[derive(Debug, Clone, PartialEq)]
pub struct Join {
    pub lobby_id: u128,
    pub self_id: u128,
    pub username: String,
}

/// Tells the lobby that a session is gone. `room_id` is the room the session
/// believes it is in, if any.
#[derive(Debug, Clone, Copy, PartialEq)]
pub struct Disconnect {
    pub room_id: Option<u128>,
    pub self_id: u128,
}

/// Tells the lobby that a session started or stopped typing.
#[derive(Debug, Clone, Copy, PartialEq)]
pub struct Typing {
    pub id: u128,
    pub room_id: u128,
    pub status: TypingInput,
}

/// Asks the lobby to post a message to a room.
#[derive(Debug, Clone, PartialEq)]
pub struct ClientActorMessage {
    pub id: u128,
    pub msg: String,
    pub room_id: u128,
}

} // verus!
