use crate::clock::Timestamp;
use crate::proto::{MessageView, OutputView, RoomView, TypingInput, UserView};
use crate::rooms::{lists_users, ChatRoomView};
use vstd::prelude::*;

verus! {

/// Occupancy bound given to every room the lobby creates.
pub const DEFAULT_MAX_CLIENTS: usize = 10;

/// An event addressed to one session.
pub struct DeliveryView {
    pub to: u128,
    pub event: OutputView,
}

/// The sessions that a list of deliveries addresses, in order.
pub open spec fn recipients_of(ds: Seq<DeliveryView>) -> Seq<u128> {
    ds.map_values(|d: DeliveryView| d.to)
}

/// `ds` hands `event` to each session of `recipients` once, in any order,
/// and holds nothing else.
pub open spec fn is_broadcast(ds: Seq<DeliveryView>, recipients: Set<u128>, event: OutputView) -> bool {
    &&& recipients_of(ds).no_duplicates()
    &&& recipients_of(ds).to_set() == recipients
    &&& forall|i: int| 0 <= i < ds.len() ==> (#[trigger] ds[i]).event == event
}

/// The line that the room listing shows for `room`.
pub open spec fn room_summary(room: ChatRoomView) -> RoomView {
    RoomView {
        id: room.id,
        name: room.name,
        connected_clients: room.clients.dom().len(),
        max_clients: room.max_clients,
    }
}

/// The ids of a room listing, in order.
pub open spec fn listed_ids(lines: Seq<RoomView>) -> Seq<u128> {
    lines.map_values(|r: RoomView| r.id)
}

/// `lines` shows each room of `rooms` once, in any order, and nothing else.
pub open spec fn lists_rooms(lines: Seq<RoomView>, rooms: Map<u128, ChatRoomView>) -> bool {
    &&& listed_ids(lines).no_duplicates()
    &&& listed_ids(lines).to_set() == rooms.dom()
    &&& forall|i: int| 0 <= i < lines.len() ==> #[trigger] lines[i] == room_summary(rooms[lines[i].id])
}

/// The name of a room that a join creates.
pub open spec fn derived_room_name(username: Seq<char>) -> Seq<char> {
    username + "'s room"@
}

/// Model of the lobby: the handle of every registered session and every room
/// by id.
pub struct LobbyView<H> {
    pub sessions: Map<u128, H>,
    pub rooms: Map<u128, ChatRoomView>,
}

impl<H> LobbyView<H> {
    /// Both registries are finite, every room is well formed and stored under
    /// its own id.
    pub open spec fn wf(self) -> bool {
        &&& self.sessions.dom().finite()
        &&& self.rooms.dom().finite()
        &&& forall|id: u128| #[trigger]
            self.rooms.contains_key(id) ==> self.rooms[id].wf() && self.rooms[id].id == id
    }

    /// The members of `room` other than `except` that the lobby can reach.
    pub open spec fn audience(self, room: ChatRoomView, except: u128) -> Set<u128> {
        room.clients.dom().remove(except).intersect(self.sessions.dom())
    }

    /// The room a join enters: the one stored under `room_id`, or a new empty
    /// one named after the joining user.
    pub open spec fn room_or_new(self, room_id: u128, username: Seq<char>) -> ChatRoomView {
        if self.rooms.contains_key(room_id) {
            self.rooms[room_id]
        } else {
            ChatRoomView::empty(room_id, derived_room_name(username), DEFAULT_MAX_CLIENTS as nat)
        }
    }

    /// The lobby after `id` joined `room_id` as `username` with handle `addr`.
    pub open spec fn after_join(self, room_id: u128, id: u128, username: Seq<char>, addr: H) -> Self {
        LobbyView {
            sessions: self.sessions.insert(id, addr),
            rooms: self.rooms.insert(
                room_id,
                self.room_or_new(room_id, username).with_member(id, username),
            ),
        }
    }

    /// What a join sends: "user-joined" to the reachable members other than
    /// the joiner, then one "joined" to the joiner with the other members,
    /// the history so far and the sessions that are typing.
    pub open spec fn join_deliveries(
        self,
        room_id: u128,
        id: u128,
        username: Seq<char>,
        out: Seq<DeliveryView>,
    ) -> bool {
        let room = self.room_or_new(room_id, username);
        let user = UserView { id, name: username };
        &&& out.len() >= 1
        &&& is_broadcast(out.drop_last(), self.audience(room, id), OutputView::UserJoined { user })
        &&& out.last().to == id
        &&& match out.last().event {
            OutputView::Joined { user: u, others, messages, typing } => {
                &&& u == user
                &&& lists_users(others, room.clients.dom().remove(id), room.clients)
                &&& messages == room.history
                &&& lists_users(typing, room.typing, room.with_member(id, username).clients)
            },
            _ => false,
        }
    }

    /// Whether a disconnect of `id` for `room_id` takes a member out of a room:
    /// the session is registered and the room is known and holds it.
    pub open spec fn leaves_room(self, id: u128, room_id: Option<u128>) -> bool {
        &&& self.sessions.contains_key(id)
        &&& room_id is Some
        &&& self.is_member(id, room_id->0)
    }

    /// The lobby after a disconnect of `id` for `room_id`.
    pub open spec fn after_disconnect(self, id: u128, room_id: Option<u128>) -> Self {
        if !self.sessions.contains_key(id) {
            self
        } else if self.leaves_room(id, room_id) {
            LobbyView {
                sessions: self.sessions.remove(id),
                rooms: self.rooms.insert(room_id->0, self.rooms[room_id->0].without_member(id)),
            }
        } else {
            LobbyView { sessions: self.sessions.remove(id), rooms: self.rooms }
        }
    }

    /// How many deliveries of a disconnect announce that typing stopped.
    pub open spec fn typing_stops(self, id: u128, room_id: Option<u128>) -> nat {
        if self.leaves_room(id, room_id) && self.rooms[room_id->0].typing.contains(id) {
            self.audience(self.rooms[room_id->0], id).len()
        } else {
            0
        }
    }

    /// What a disconnect sends to the reachable members that remain: first
    /// "typing stopped" to each if the session was typing, then "user-left"
    /// to each. Nothing for a session that is not registered or not in the
    /// room.
    pub open spec fn disconnect_deliveries(
        self,
        id: u128,
        room_id: Option<u128>,
        out: Seq<DeliveryView>,
    ) -> bool {
        if self.leaves_room(id, room_id) {
            let room = self.rooms[room_id->0];
            let user = room.user(id);
            let peers = self.audience(room, id);
            let n = self.typing_stops(id, room_id) as int;
            &&& n <= out.len()
            &&& is_broadcast(
                out.subrange(0, n),
                if room.typing.contains(id) { peers } else { Set::empty() },
                OutputView::Typing { status: TypingInput::Stopped, user },
            )
            &&& is_broadcast(out.subrange(n, out.len() as int), peers, OutputView::UserLeft { user })
        } else {
            out.len() == 0
        }
    }

    /// Whether `room_id` is a known room that holds `id`.
    pub open spec fn is_member(self, id: u128, room_id: u128) -> bool {
        self.rooms.contains_key(room_id) && self.rooms[room_id].clients.contains_key(id)
    }

    /// The lobby after `id` reported `status` in `room_id`.
    pub open spec fn after_typing(self, id: u128, room_id: u128, status: TypingInput) -> Self {
        if self.is_member(id, room_id) {
            let room = self.rooms[room_id];
            LobbyView {
                sessions: self.sessions,
                rooms: self.rooms.insert(
                    room_id,
                    match status {
                        TypingInput::Started => room.with_typing(id),
                        TypingInput::Stopped => room.without_typing(id),
                    },
                ),
            }
        } else {
            self
        }
    }

    /// What a typing report sends: "user-typing" to the reachable members
    /// other than the sender; nothing if the sender is not in the room.
    pub open spec fn typing_deliveries(
        self,
        id: u128,
        room_id: u128,
        status: TypingInput,
        out: Seq<DeliveryView>,
    ) -> bool {
        if self.is_member(id, room_id) {
            let room = self.rooms[room_id];
            is_broadcast(
                out,
                self.audience(room, id),
                OutputView::Typing { status, user: room.user(id) },
            )
        } else {
            out.len() == 0
        }
    }

    /// The message that a post of `body` by `id` in `room_id` creates.
    pub open spec fn posted_message(
        self,
        id: u128,
        room_id: u128,
        body: Seq<char>,
        message_id: u128,
        at: Timestamp,
    ) -> MessageView {
        MessageView { id: message_id, user: self.rooms[room_id].user(id), body, created_at: at }
    }

    /// The lobby after `id` posted `message` in `room_id`.
    pub open spec fn after_post(self, id: u128, room_id: u128, message: MessageView) -> Self {
        if self.is_member(id, room_id) {
            LobbyView {
                sessions: self.sessions,
                rooms: self.rooms.insert(room_id, self.rooms[room_id].with_message(message)),
            }
        } else {
            self
        }
    }

    /// What a post sends: "user-posted" to the reachable members other than
    /// the author, then "posted" with the same message to the author if it
    /// can be reached; nothing if the author is not in the room.
    pub open spec fn post_deliveries(
        self,
        id: u128,
        room_id: u128,
        message: MessageView,
        out: Seq<DeliveryView>,
    ) -> bool {
        if self.is_member(id, room_id) {
            let peers = self.audience(self.rooms[room_id], id);
            let n = peers.len() as int;
            &&& n <= out.len()
            &&& is_broadcast(out.subrange(0, n), peers, OutputView::UserPosted { message })
            &&& out.subrange(n, out.len() as int) == if self.sessions.contains_key(id) {
                seq![DeliveryView { to: id, event: OutputView::Posted { message } }]
            } else {
                Seq::empty()
            }
        } else {
            out.len() == 0
        }
    }
}

} // verus!
