use crate::clock::{utc_now, Timestamp};
use crate::collect::{lemma_selects_all, lemma_selects_step, map_keys, selects};
use crate::ident::{is_random_id, random_id};
use crate::messages::{ClientActorMessage, Connect, Disconnect, Join, Typing};
use crate::model::{
    is_broadcast, lists_rooms, listed_ids, recipients_of, room_summary, DeliveryView, LobbyView,
    DEFAULT_MAX_CLIENTS,
};
use crate::proto::{
    clone_messages, rooms_view, JoinedOutput, MessageOutput, Output, OutputView, PostedOutput,
    Room, RoomsOutput, TypingInput, TypingOutput, UserJoinedOutput, UserLeftOutput, UserOutput,
    UserPostedOutput,
};
use crate::rooms::{ChatRoom, ChatRoomView};
use std::collections::HashMap;
use vstd::prelude::*;
use vstd::string::StringExecFns;

verus! {

broadcast use vstd::std_specs::hash::group_hash_axioms;

/// An event addressed to one session.
#[derive(Debug, Clone, PartialEq)]
pub struct Delivery {
    pub to: u128,
    pub event: Output,
}

impl View for Delivery {
    type V = DeliveryView;

    open spec fn view(&self) -> DeliveryView {
        DeliveryView { to: self.to, event: self.event@ }
    }
}

/// The models of a list of deliveries, in order.
pub open spec fn deliveries_view(s: Seq<Delivery>) -> Seq<DeliveryView> {
    s.map_values(|d: Delivery| d@)
}

/// The models of the rooms of a room table.
spec fn room_table_view(rooms: Map<u128, ChatRoom>) -> Map<u128, ChatRoomView> {
    rooms.map_values(|r: ChatRoom| r@)
}

/// The lobby keeps every chat room and the delivery handle of every session
/// that has joined one. `H` is the handle type; the lobby only stores it.
pub struct Lobby<H> {
    sessions: HashMap<u128, H>,
    rooms: HashMap<u128, ChatRoom>,
}

impl<H> View for Lobby<H> {
    type V = LobbyView<H>;

    closed spec fn view(&self) -> LobbyView<H> {
        LobbyView { sessions: self.sessions@, rooms: room_table_view(self.rooms@) }
    }
}

impl<H> Lobby<H> {
    /// See [`LobbyView::wf`].
    pub open spec fn wf(&self) -> bool {
        self@.wf()
    }

    /// A lobby without rooms or sessions.
    pub fn new() -> (lobby: Self)
        ensures
            lobby.wf(),
            lobby@.sessions == Map::<u128, H>::empty(),
            lobby@.rooms == Map::<u128, ChatRoomView>::empty(),
    {
        let lobby = Lobby { sessions: HashMap::new(), rooms: HashMap::new() };
        assert(lobby@.rooms =~= Map::<u128, ChatRoomView>::empty());
        lobby
    }

    /// The delivery handle of a registered session.
    pub fn recipient(&self, id: &u128) -> (handle: Option<&H>)
        ensures
            match handle {
                Some(h) => self@.sessions.contains_key(*id) && *h == self@.sessions[*id],
                None => !self@.sessions.contains_key(*id),
            },
    {
        self.sessions.get(id)
    }

    /// The room stored under `room_id`.
    pub fn room(&self, room_id: &u128) -> (room: Option<&ChatRoom>)
        ensures
            match room {
                Some(r) => self@.rooms.contains_key(*room_id) && r@ == self@.rooms[*room_id],
                None => !self@.rooms.contains_key(*room_id),
            },
    {
        self.rooms.get(room_id)
    }

    /// Queues `event` for `id_to` if that session is registered; an event for
    /// an unknown session is dropped.
    fn send_message(&self, event: Output, id_to: &u128, out: &mut Vec<Delivery>)
        ensures
            deliveries_view(final(out)@) == if self@.sessions.contains_key(*id_to) {
                deliveries_view(old(out)@).push(DeliveryView { to: *id_to, event: event@ })
            } else {
                deliveries_view(old(out)@)
            },
    {
        if self.sessions.contains_key(id_to) {
            out.push(Delivery { to: *id_to, event });
            assert(deliveries_view(out@) =~= deliveries_view(old(out)@).push(
                DeliveryView { to: *id_to, event: event@ },
            ));
        }
    }

    /// One delivery of `event` for each member of `room` that is registered
    /// and is not `skip`.
    fn fan_out(&self, room: &ChatRoom, skip: Option<u128>, event: &Output) -> (out: Vec<Delivery>)
        ensures
            is_broadcast(
                deliveries_view(out@),
                Set::new(
                    |id: u128|
                        room@.clients.contains_key(id) && self@.sessions.contains_key(id) && skip
                            != Some(id),
                ),
                event@,
            ),
            out@.len() == Set::new(
                |id: u128|
                    room@.clients.contains_key(id) && self@.sessions.contains_key(id) && skip
                        != Some(id),
            ).len(),
    {
        let all = map_keys(&room.clients);
        let ghost keep = |id: u128| self@.sessions.contains_key(id) && skip != Some(id);
        let ghost mut ids: Seq<u128> = Seq::empty();
        let mut out: Vec<Delivery> = Vec::new();
        let mut i: usize = 0;
        while i < all.len()
            invariant
                i <= all@.len(),
                all@.no_duplicates(),
                keep == |id: u128| self@.sessions.contains_key(id) && skip != Some(id),
                selects(ids, all@, i as int, keep),
                recipients_of(deliveries_view(out@)) == ids,
                forall|j: int| 0 <= j < out@.len() ==> (#[trigger] out@[j]).event@ == event@,
            decreases all@.len() - i,
        {
            proof {
                lemma_selects_step(ids, all@, i as int, keep);
            }
            let id = all[i];
            let wanted = match skip {
                Some(s) => s != id,
                None => true,
            };
            if wanted && self.sessions.contains_key(&id) {
                out.push(Delivery { to: id, event: event.clone() });
                proof {
                    ids = ids.push(id);
                    assert(recipients_of(deliveries_view(out@)) =~= ids);
                }
            }
            i += 1;
        }
        proof {
            lemma_selects_all(ids, all@, keep);
            assert(all@.to_set().filter(keep) =~= Set::new(
                |id: u128|
                    room@.clients.contains_key(id) && self@.sessions.contains_key(id) && skip
                        != Some(id),
            ));
        }
        out
    }

    /// One delivery of `event` for each registered member of `room`.
    fn send_to_everyone(&self, room: &ChatRoom, event: &Output) -> (out: Vec<Delivery>)
        ensures
            is_broadcast(
                deliveries_view(out@),
                room@.clients.dom().intersect(self@.sessions.dom()),
                event@,
            ),
            out@.len() == room@.clients.dom().intersect(self@.sessions.dom()).len(),
    {
        let out = self.fan_out(room, None, event);
        assert(Set::new(
            |id: u128|
                room@.clients.contains_key(id) && self@.sessions.contains_key(id) && None::<u128>
                    != Some(id),
        ) =~= room@.clients.dom().intersect(self@.sessions.dom()));
        out
    }

    /// One delivery of `event` for each registered member of `room` other
    /// than `self_id`.
    fn send_to_everyone_except_self(&self, room: &ChatRoom, self_id: &u128, event: &Output) -> (out:
        Vec<Delivery>)
        ensures
            is_broadcast(deliveries_view(out@), self@.audience(room@, *self_id), event@),
            out@.len() == self@.audience(room@, *self_id).len(),
    {
        let out = self.fan_out(room, Some(*self_id), event);
        assert(Set::new(
            |id: u128|
                room@.clients.contains_key(id) && self@.sessions.contains_key(id) && Some(*self_id)
                    != Some(id),
        ) =~= self@.audience(room@, *self_id));
        out
    }
    /// Takes the room stored under `room_id` out of the table.
    fn take_room(&mut self, room_id: &u128) -> (room: Option<ChatRoom>)
        ensures
            final(self)@.sessions == old(self)@.sessions,
            final(self).sessions == old(self).sessions,
            final(self)@.rooms == old(self)@.rooms.remove(*room_id),
            match room {
                Some(r) => old(self)@.rooms.contains_key(*room_id) && r@ == old(self)@.rooms[*room_id],
                None => !old(self)@.rooms.contains_key(*room_id),
            },
    {
        let room = self.rooms.remove(room_id);
        assert(self@.rooms =~= old(self)@.rooms.remove(*room_id));
        room
    }

    /// Stores `room` under `room_id`.
    fn put_room(&mut self, room_id: u128, room: ChatRoom)
        ensures
            final(self)@.sessions == old(self)@.sessions,
            final(self).sessions == old(self).sessions,
            final(self)@.rooms == old(self)@.rooms.insert(room_id, room@),
    {
        self.rooms.insert(room_id, room);
        assert(self@.rooms =~= old(self)@.rooms.insert(room_id, room@));
    }

    /// Answers a freshly connected client with the listing of every room:
    /// id, name, number of connected sessions and occupancy bound.
    pub fn connect(&self, msg: Connect) -> (listing: Output)
        requires
            self.wf(),
        ensures
            match listing@ {
                OutputView::Rooms { rooms } => lists_rooms(rooms, self@.rooms),
                _ => false,
            },
    {
        let ids = map_keys(&self.rooms);
        let mut lines: Vec<Room> = Vec::new();
        let mut i: usize = 0;
        while i < ids.len()
            invariant
                i <= ids@.len(),
                self.wf(),
                ids@.to_set() == self.rooms@.dom(),
                lines@.len() == i,
                forall|j: int|
                    0 <= j < i ==> (#[trigger] lines@[j])@ == room_summary(self@.rooms[ids@[j]])
                        && lines@[j].id == ids@[j],
            decreases ids@.len() - i,
        {
            let id = ids[i];
            assert(ids@.to_set().contains(ids@[i as int]));
            assert(self@.rooms.contains_key(id));
            match self.rooms.get(&id) {
                Some(room) => {
                    assert(room@.clients.dom() =~= room.clients@.dom());
                    lines.push(Room::new(room.id, room.name.clone(), room.clients.len(), room.max_clients));
                },
                None => {},
            }
            i += 1;
        }
        proof {
            assert(listed_ids(rooms_view(lines@)) =~= ids@);
            assert(self@.rooms.dom() =~= self.rooms@.dom());
        }
        Output::Rooms(RoomsOutput::new(lines))
    }

    /// Puts a session into a room and registers its handle. A room that does
    /// not exist yet is created, named after the joining user. The members
    /// already there are told that the user joined; the joiner alone gets the
    /// reply, with the other members, the history and who is typing.
    pub fn join(&mut self, msg: Join, addr: H) -> (out: Vec<Delivery>)
        requires
            old(self).wf(),
        ensures
            final(self).wf(),
            final(self)@ == old(self)@.after_join(msg.lobby_id, msg.self_id, msg.username@, addr),
            old(self)@.join_deliveries(
                msg.lobby_id,
                msg.self_id,
                msg.username@,
                deliveries_view(out@),
            ),
    {
        let mut room = match self.take_room(&msg.lobby_id) {
            Some(r) => r,
            None => {
                let mut name = msg.username.clone();
                name.append("'s room");
                ChatRoom::new(msg.lobby_id, name, DEFAULT_MAX_CLIENTS)
            },
        };
        assert(room@ == old(self)@.room_or_new(msg.lobby_id, msg.username@));
        let notice = Output::UserJoined(
            UserJoinedOutput::new(UserOutput::new(msg.self_id, msg.username.as_str())),
        );
        let mut out = self.send_to_everyone_except_self(&room, &msg.self_id, &notice);
        let ghost peers = deliveries_view(out@);
        let others = room.get_other_clients(&msg.self_id);
        let history = clone_messages(&room.history);
        room.add_client(&msg.self_id, msg.username.clone());
        let typing = room.get_typing_clients();
        let reply = Output::Joined(
            JoinedOutput::new(
                UserOutput::new(msg.self_id, msg.username.as_str()),
                others,
                history,
                typing,
            ),
        );
        self.sessions.insert(msg.self_id, addr);
        self.put_room(msg.lobby_id, room);
        self.send_message(reply, &msg.self_id, &mut out);
        proof {
            assert(deliveries_view(out@).drop_last() =~= peers);
            assert(self@.sessions =~= old(self)@.sessions.insert(msg.self_id, addr));
            assert(self@.rooms =~= old(self)@.after_join(
                msg.lobby_id,
                msg.self_id,
                msg.username@,
                addr,
            ).rooms);
        }
        out
    }

    /// Takes a session out of the registry and out of its room. Does nothing
    /// for a session that is not registered. The members that remain are told
    /// first that the session stopped typing, if it was typing, and then that
    /// the user left.
    pub fn disconnect(&mut self, msg: Disconnect) -> (out: Vec<Delivery>)
        requires
            old(self).wf(),
        ensures
            final(self).wf(),
            final(self)@ == old(self)@.after_disconnect(msg.self_id, msg.room_id),
            old(self)@.disconnect_deliveries(msg.self_id, msg.room_id, deliveries_view(out@)),
    {
        let mut out: Vec<Delivery> = Vec::new();
        if self.sessions.remove(&msg.self_id).is_none() {
            assert(self@.sessions =~= old(self)@.sessions);
            return out;
        }
        assert(self@.sessions =~= old(self)@.sessions.remove(msg.self_id));
        let room_id = match msg.room_id {
            Some(r) => r,
            None => {
                return out;
            },
        };
        let mut room = match self.take_room(&room_id) {
            Some(r) => r,
            None => {
                assert(self@.rooms =~= old(self)@.rooms);
                return out;
            },
        };
        let username = match room.get_username(&msg.self_id) {
            Some(n) => n.clone(),
            None => {
                self.put_room(room_id, room);
                assert(self@.rooms =~= old(self)@.rooms);
                return out;
            },
        };
        let ghost before = room@;
        let ghost peers = old(self)@.audience(before, msg.self_id);
        let was_typing = room.remove_typing_client(&msg.self_id);
        room.remove_client(&msg.self_id);
        assert(room@.typing =~= before.without_member(msg.self_id).typing);
        assert(room@ == before.without_member(msg.self_id));
        assert(room@.clients.dom().intersect(self@.sessions.dom()) =~= peers);
        if was_typing {
            let stopped = Output::Typing(
                TypingOutput::new(
                    TypingInput::Stopped,
                    UserOutput::new(msg.self_id, username.as_str()),
                ),
            );
            out = self.send_to_everyone(&room, &stopped);
        }
        let ghost first = deliveries_view(out@);
        let left = Output::UserLeft(UserLeftOutput::new(msg.self_id, &username));
        let mut second = self.send_to_everyone(&room, &left);
        let ghost last = deliveries_view(second@);
        out.append(&mut second);
        self.put_room(room_id, room);
        proof {
            let all = deliveries_view(out@);
            assert(all =~= first + last);
            assert(all.subrange(0, first.len() as int) =~= first);
            assert(all.subrange(first.len() as int, all.len() as int) =~= last);
            if !was_typing {
                assert(recipients_of(first) =~= Seq::<u128>::empty());
                assert(recipients_of(first).to_set() =~= Set::<u128>::empty());
            }
            assert(self@.rooms =~= old(self)@.after_disconnect(msg.self_id, msg.room_id).rooms);
        }
        out
    }

    /// Sets or clears a member's typing flag and tells the other members.
    /// Does nothing when the room is unknown or the session is not in it.
    pub fn typing(&mut self, msg: Typing) -> (out: Vec<Delivery>)
        requires
            old(self).wf(),
        ensures
            final(self).wf(),
            final(self)@ == old(self)@.after_typing(msg.id, msg.room_id, msg.status),
            old(self)@.typing_deliveries(msg.id, msg.room_id, msg.status, deliveries_view(out@)),
    {
        let mut room = match self.take_room(&msg.room_id) {
            Some(r) => r,
            None => {
                assert(self@.rooms =~= old(self)@.rooms);
                return Vec::new();
            },
        };
        let username = match room.get_username(&msg.id) {
            Some(n) => n.clone(),
            None => {
                self.put_room(msg.room_id, room);
                assert(self@.rooms =~= old(self)@.rooms);
                return Vec::new();
            },
        };
        match msg.status {
            TypingInput::Started => room.add_typing_client(&msg.id),
            TypingInput::Stopped => {
                room.remove_typing_client(&msg.id);
            },
        }
        let notice = Output::Typing(
            TypingOutput::new(msg.status, UserOutput::new(msg.id, username.as_str())),
        );
        let out = self.send_to_everyone_except_self(&room, &msg.id, &notice);
        self.put_room(msg.room_id, room);
        proof {
            assert(self@.rooms =~= old(self)@.after_typing(msg.id, msg.room_id, msg.status).rooms);
        }
        out
    }

    /// Posts a message under a given id and timestamp: appends it to the
    /// room's history, hands it to the other members and acknowledges it to
    /// the author. Does nothing when the room is unknown or the author is not
    /// in it.
    pub fn post_at(&mut self, msg: ClientActorMessage, message_id: u128, at: Timestamp) -> (out: Vec<
        Delivery,
    >)
        requires
            old(self).wf(),
        ensures
            final(self).wf(),
            final(self)@ == old(self)@.after_post(
                msg.id,
                msg.room_id,
                old(self)@.posted_message(msg.id, msg.room_id, msg.msg@, message_id, at),
            ),
            old(self)@.post_deliveries(
                msg.id,
                msg.room_id,
                old(self)@.posted_message(msg.id, msg.room_id, msg.msg@, message_id, at),
                deliveries_view(out@),
            ),
    {
        let mut room = match self.take_room(&msg.room_id) {
            Some(r) => r,
            None => {
                assert(self@.rooms =~= old(self)@.rooms);
                return Vec::new();
            },
        };
        let username = match room.get_username(&msg.id) {
            Some(n) => n.clone(),
            None => {
                self.put_room(msg.room_id, room);
                assert(self@.rooms =~= old(self)@.rooms);
                return Vec::new();
            },
        };
        let message = MessageOutput::new(
            message_id,
            UserOutput::new(msg.id, username.as_str()),
            msg.msg.as_str(),
            at,
        );
        let ghost before = room@;
        room.history.push(message.clone());
        assert(room@.history =~= before.history.push(message@));
        assert(room@ == before.with_message(message@));
        let notice = Output::UserPosted(UserPostedOutput::new(message.clone()));
        let mut out = self.send_to_everyone_except_self(&room, &msg.id, &notice);
        let ghost peers = deliveries_view(out@);
        self.send_message(Output::Posted(PostedOutput::new(message)), &msg.id, &mut out);
        self.put_room(msg.room_id, room);
        proof {
            let all = deliveries_view(out@);
            assert(all.subrange(0, peers.len() as int) =~= peers);
            if self@.sessions.contains_key(msg.id) {
                assert(all.subrange(peers.len() as int, all.len() as int) =~= seq![
                    DeliveryView {
                        to: msg.id,
                        event: OutputView::Posted { message: message@ },
                    },
                ]);
            } else {
                assert(all.subrange(peers.len() as int, all.len() as int) =~= Seq::<
                    DeliveryView,
                >::empty());
            }
            assert(self@.rooms =~= old(self)@.after_post(msg.id, msg.room_id, message@).rooms);
        }
        out
    }
    /// Posts a message: stamps it with a fresh random id and the current
    /// time, then does what [`Lobby::post_at`] does with them.
    pub fn post(&mut self, msg: ClientActorMessage) -> (out: Vec<Delivery>)
        requires
            old(self).wf(),
        ensures
            final(self).wf(),
            exists|message_id: u128, at: Timestamp|
                {
                    let message = #[trigger] old(self)@.posted_message(
                        msg.id,
                        msg.room_id,
                        msg.msg@,
                        message_id,
                        at,
                    );
                    &&& is_random_id(message_id)
                    &&& at.nanos < 1_000_000_000
                    &&& final(self)@ == old(self)@.after_post(msg.id, msg.room_id, message)
                    &&& old(self)@.post_deliveries(
                        msg.id,
                        msg.room_id,
                        message,
                        deliveries_view(out@),
                    )
                },
    {
        let at = utc_now();
        let message_id = random_id();
        self.post_at(msg, message_id, at)
    }

    /// A lobby that holds the two standing rooms under the given ids and no
    /// session. With equal ids only the second room is kept.
    pub fn with_standing_rooms(default_room_id: u128, joels_room_id: u128) -> (lobby: Self)
        ensures
            lobby.wf(),
            lobby@.sessions == Map::<u128, H>::empty(),
            lobby@.rooms == standing_rooms(default_room_id, joels_room_id),
    {
        let mut lobby = Lobby { sessions: HashMap::new(), rooms: HashMap::new() };
        lobby.rooms.insert(
            default_room_id,
            ChatRoom::new(default_room_id, "Default room".to_owned(), DEFAULT_MAX_CLIENTS),
        );
        lobby.rooms.insert(
            joels_room_id,
            ChatRoom::new(joels_room_id, "Joel's room".to_owned(), DEFAULT_MAX_CLIENTS),
        );
        assert(lobby@.rooms =~= standing_rooms(default_room_id, joels_room_id));
        lobby
    }
}

/// The room table of a lobby that was started with its two standing rooms.
pub open spec fn standing_rooms(default_room_id: u128, joels_room_id: u128) -> Map<u128, ChatRoomView> {
    Map::<u128, ChatRoomView>::empty().insert(
        default_room_id,
        ChatRoomView::empty(default_room_id, "Default room"@, DEFAULT_MAX_CLIENTS as nat),
    ).insert(
        joels_room_id,
        ChatRoomView::empty(joels_room_id, "Joel's room"@, DEFAULT_MAX_CLIENTS as nat),
    )
}

impl<H> Default for Lobby<H> {
    /// A lobby with the two standing rooms, each under a fresh random id.
    fn default() -> (lobby: Self)
        ensures
            lobby.wf(),
            lobby@.sessions == Map::<u128, H>::empty(),
            exists|a: u128, b: u128|
                is_random_id(a) && is_random_id(b) && lobby@.rooms == #[trigger] standing_rooms(a, b),
    {
        let default_room_id = random_id();
        let joels_room_id = random_id();
        Lobby::with_standing_rooms(default_room_id, joels_room_id)
    }
}

} // verus!
