use crate::model::{recipients_of, DeliveryView, LobbyView};
use crate::proto::{MessageView, OutputView, TypingInput};
use vstd::prelude::*;

verus! {

/// A request that concerns one room: a session joins it or disconnects from
/// it (by leaving, by closing its connection or by timing out).
pub enum RoomRequest<H> {
    Join { id: u128, username: Seq<char>, addr: H },
    Disconnect { id: u128 },
}

impl<H> RoomRequest<H> {
    /// Whether this is a join of `id`.
    pub open spec fn joins(self, id: u128) -> bool {
        match self {
            RoomRequest::Join { id: who, .. } => who == id,
            RoomRequest::Disconnect { .. } => false,
        }
    }

    /// Whether this is a disconnect of `id`.
    pub open spec fn disconnects(self, id: u128) -> bool {
        match self {
            RoomRequest::Join { .. } => false,
            RoomRequest::Disconnect { id: who } => who == id,
        }
    }
}

/// Whether `id` joined at some point of `requests` and did not disconnect
/// after its last join.
pub open spec fn joined_and_stayed<H>(requests: Seq<RoomRequest<H>>, id: u128) -> bool {
    exists|i: int|
        0 <= i < requests.len() && (#[trigger] requests[i]).joins(id) && forall|k: int|
            i < k < requests.len() ==> !(#[trigger] requests[k]).disconnects(id)
}

impl<H> LobbyView<H> {
    /// The lobby after it handled `requests` for the room `room_id` in order.
    pub open spec fn replay(self, room_id: u128, requests: Seq<RoomRequest<H>>) -> Self
        decreases requests.len(),
    {
        if requests.len() == 0 {
            self
        } else {
            let before = self.replay(room_id, requests.drop_last());
            match requests.last() {
                RoomRequest::Join { id, username, addr } => before.after_join(
                    room_id,
                    id,
                    username,
                    addr,
                ),
                RoomRequest::Disconnect { id } => before.after_disconnect(id, Some(room_id)),
            }
        }
    }

    /// Whether the room `room_id` is absent or has no member.
    pub open spec fn room_is_vacant(self, room_id: u128) -> bool {
        forall|id: u128| !self.is_member(id, room_id)
    }
}

/// Membership follows the requests: after any sequence of joins and
/// disconnects on a room that started without members, the room holds
/// exactly the sessions that joined and have not disconnected since, and
/// each of them is registered.
pub proof fn lemma_membership_follows_requests<H>(
    lobby: LobbyView<H>,
    room_id: u128,
    requests: Seq<RoomRequest<H>>,
)
    requires
        lobby.room_is_vacant(room_id),
    ensures
        forall|id: u128|
            lobby.replay(room_id, requests).is_member(id, room_id) <==> joined_and_stayed(
                requests,
                id,
            ),
        forall|id: u128|
            lobby.replay(room_id, requests).is_member(id, room_id) ==> lobby.replay(
                room_id,
                requests,
            ).sessions.contains_key(id),
    decreases requests.len(),
{
    let end = lobby.replay(room_id, requests);
    if requests.len() == 0 {
        assert forall|id: u128| end.is_member(id, room_id) <==> joined_and_stayed(requests, id) by {
            assert(!lobby.is_member(id, room_id));
        }
    } else {
        let earlier = requests.drop_last();
        let before = lobby.replay(room_id, earlier);
        let n = requests.len() - 1;
        lemma_membership_follows_requests(lobby, room_id, earlier);
        assert forall|id: u128| end.is_member(id, room_id) <==> joined_and_stayed(requests, id) by {
            assert(before.is_member(id, room_id) <==> joined_and_stayed(earlier, id));
            assert(before.is_member(id, room_id) ==> before.sessions.contains_key(id));
            if joined_and_stayed(earlier, id) && !requests.last().disconnects(id) {
                let i = choose|i: int|
                    0 <= i < earlier.len() && (#[trigger] earlier[i]).joins(id) && forall|k: int|
                        i < k < earlier.len() ==> !(#[trigger] earlier[k]).disconnects(id);
                assert(requests[i].joins(id));
                assert forall|k: int| i < k < requests.len() implies !(#[trigger] requests[k]).disconnects(
                    id,
                ) by {
                    if k < n {
                        assert(earlier[k] == requests[k]);
                    }
                }
            }
            if requests.last().joins(id) {
                assert(requests[n].joins(id));
            }
            if joined_and_stayed(requests, id) {
                let i = choose|i: int|
                    0 <= i < requests.len() && (#[trigger] requests[i]).joins(id) && forall|k: int|
                        i < k < requests.len() ==> !(#[trigger] requests[k]).disconnects(id);
                if i < n {
                    assert(earlier[i].joins(id));
                    assert forall|k: int| i < k < earlier.len() implies !(#[trigger] earlier[k]).disconnects(
                        id,
                    ) by {
                        assert(earlier[k] == requests[k]);
                    }
                    assert(joined_and_stayed(earlier, id));
                    assert(!requests[n].disconnects(id));
                }
            }
        }
        assert forall|id: u128| end.is_member(id, room_id) implies end.sessions.contains_key(id) by {
            assert(before.is_member(id, room_id) ==> before.sessions.contains_key(id));
        }
    }
}

/// The joiner gets one delivery from its join, the last one: the "joined"
/// reply with the room's history as it stood. No "user-joined" notice goes
/// to the joiner.
pub proof fn lemma_joiner_gets_only_the_reply<H>(
    lobby: LobbyView<H>,
    room_id: u128,
    id: u128,
    username: Seq<char>,
    out: Seq<DeliveryView>,
)
    requires
        lobby.join_deliveries(room_id, id, username, out),
    ensures
        out.len() >= 1,
        forall|i: int| 0 <= i < out.len() && (#[trigger] out[i]).to == id ==> i == out.len() - 1,
        forall|i: int| 0 <= i < out.len() - 1 ==> (#[trigger] out[i]).event is UserJoined,
        out.last().event is Joined,
        out.last().event->Joined_messages == lobby.room_or_new(room_id, username).history,
{
    let notices = out.drop_last();
    let room = lobby.room_or_new(room_id, username);
    assert forall|i: int| 0 <= i < out.len() && (#[trigger] out[i]).to == id implies i == out.len()
        - 1 by {
        if i < out.len() - 1 {
            assert(notices[i] == out[i]);
            assert(recipients_of(notices)[i] == id);
            assert(recipients_of(notices).to_set().contains(id));
            assert(lobby.audience(room, id).contains(id));
        }
    }
    assert forall|i: int| 0 <= i < out.len() - 1 implies (#[trigger] out[i]).event is UserJoined by {
        assert(notices[i] == out[i]);
    }
}

/// When a session disconnects while typing, every member that remains and
/// can be reached is told that typing stopped and that the user left, and
/// every "typing stopped" stands before every "user-left".
pub proof fn lemma_typing_stops_before_leave<H>(
    lobby: LobbyView<H>,
    id: u128,
    room_id: u128,
    out: Seq<DeliveryView>,
)
    requires
        lobby.leaves_room(id, Some(room_id)),
        lobby.rooms[room_id].typing.contains(id),
        lobby.disconnect_deliveries(id, Some(room_id), out),
    ensures
        forall|peer: u128| #[trigger]
            lobby.audience(lobby.rooms[room_id], id).contains(peer) ==> exists|i: int, j: int|
                0 <= i < j < out.len() && out[i] == stop_notice(lobby, id, room_id, peer) && out[j]
                    == leave_notice(lobby, id, room_id, peer),
        forall|i: int, j: int|
            0 <= i < out.len() && 0 <= j < out.len() && (#[trigger] out[i]).event is Typing && (
            #[trigger] out[j]).event is UserLeft ==> i < j,
{
    let room = lobby.rooms[room_id];
    let peers = lobby.audience(room, id);
    let n = lobby.typing_stops(id, Some(room_id)) as int;
    let stops = out.subrange(0, n);
    let leaves = out.subrange(n, out.len() as int);
    assert forall|peer: u128| #[trigger] peers.contains(peer) implies exists|i: int, j: int|
        0 <= i < j < out.len() && out[i] == stop_notice(lobby, id, room_id, peer) && out[j]
            == leave_notice(lobby, id, room_id, peer) by {
        assert(recipients_of(stops).to_set().contains(peer));
        assert(recipients_of(stops).contains(peer));
        let i = choose|i: int| 0 <= i < stops.len() && recipients_of(stops)[i] == peer;
        assert(recipients_of(leaves).to_set().contains(peer));
        assert(recipients_of(leaves).contains(peer));
        let j = choose|j: int| 0 <= j < leaves.len() && recipients_of(leaves)[j] == peer;
        assert(stops[i] == out[i]);
        assert(leaves[j] == out[n + j]);
        assert(0 <= i < n + j < out.len());
    }
    assert forall|i: int, j: int|
        0 <= i < out.len() && 0 <= j < out.len() && (#[trigger] out[i]).event is Typing && (
        #[trigger] out[j]).event is UserLeft implies i < j by {
        if i >= n {
            assert(leaves[i - n] == out[i]);
        }
        if j < n {
            assert(stops[j] == out[j]);
        }
    }
}

/// The "typing stopped" notice that `peer` gets when `id` disconnects.
pub open spec fn stop_notice<H>(lobby: LobbyView<H>, id: u128, room_id: u128, peer: u128) -> DeliveryView {
    DeliveryView {
        to: peer,
        event: OutputView::Typing {
            status: TypingInput::Stopped,
            user: lobby.rooms[room_id].user(id),
        },
    }
}

/// The "user-left" notice that `peer` gets when `id` disconnects.
pub open spec fn leave_notice<H>(lobby: LobbyView<H>, id: u128, room_id: u128, peer: u128) -> DeliveryView {
    DeliveryView { to: peer, event: OutputView::UserLeft { user: lobby.rooms[room_id].user(id) } }
}

/// A post by a member appends the message to the history once, reaches every
/// other member that can be reached as "user-posted", and reaches the author,
/// if registered, once and as "posted", with the same message.
pub proof fn lemma_post_fans_out_and_acknowledges<H>(
    lobby: LobbyView<H>,
    id: u128,
    room_id: u128,
    message: MessageView,
    out: Seq<DeliveryView>,
)
    requires
        lobby.is_member(id, room_id),
        lobby.post_deliveries(id, room_id, message, out),
    ensures
        lobby.after_post(id, room_id, message).rooms[room_id].history
            == lobby.rooms[room_id].history.push(message),
        forall|peer: u128| #[trigger]
            lobby.audience(lobby.rooms[room_id], id).contains(peer) ==> out.contains(
                DeliveryView { to: peer, event: OutputView::UserPosted { message } },
            ),
        lobby.sessions.contains_key(id) ==> out.len() >= 1 && out.last() == (DeliveryView {
            to: id,
            event: OutputView::Posted { message },
        }),
        forall|i: int|
            0 <= i < out.len() ==> ((#[trigger] out[i]).to == id <==> out[i].event
                == OutputView::Posted { message }),
        forall|i: int|
            0 <= i < out.len() ==> ((#[trigger] out[i]).to != id <==> out[i].event
                == OutputView::UserPosted { message }),
        forall|i: int, j: int|
            0 <= i < j < out.len() ==> (#[trigger] out[i]).to != (#[trigger] out[j]).to,
{
    let peers = lobby.audience(lobby.rooms[room_id], id);
    let n = peers.len() as int;
    let notices = out.subrange(0, n);
    let rest = out.subrange(n, out.len() as int);
    assert forall|peer: u128| #[trigger] peers.contains(peer) implies out.contains(
        DeliveryView { to: peer, event: OutputView::UserPosted { message } },
    ) by {
        assert(recipients_of(notices).to_set().contains(peer));
        assert(recipients_of(notices).contains(peer));
        let i = choose|i: int| 0 <= i < notices.len() && recipients_of(notices)[i] == peer;
        assert(notices[i] == out[i]);
    }
    assert forall|i: int| 0 <= i < out.len() implies ((#[trigger] out[i]).to == id <==> out[i].event
        == OutputView::Posted { message }) && (out[i].to != id <==> out[i].event
        == OutputView::UserPosted { message }) by {
        if i < n {
            assert(notices[i] == out[i]);
            assert(recipients_of(notices)[i] == out[i].to);
            assert(recipients_of(notices).to_set().contains(out[i].to));
        } else {
            let ack = DeliveryView { to: id, event: OutputView::Posted { message } };
            assert(rest.len() == out.len() - n);
            assert(lobby.sessions.contains_key(id));
            assert(rest =~= seq![ack]);
            assert(rest[i - n] == out[i]);
            assert(seq![ack][0] == ack);
        }
    }
    assert forall|i: int, j: int| 0 <= i < j < out.len() implies (#[trigger] out[i]).to != (
    #[trigger] out[j]).to by {
        if j < n {
            assert(recipients_of(notices)[i] == out[i].to);
            assert(recipients_of(notices)[j] == out[j].to);
        } else {
            assert(rest[j - n] == out[j]);
            assert(rest.len() == 1);
            assert(notices[i] == out[i]);
            assert(recipients_of(notices)[i] == out[i].to);
            assert(recipients_of(notices).to_set().contains(out[i].to));
        }
    }
    if lobby.sessions.contains_key(id) {
        let ack = DeliveryView { to: id, event: OutputView::Posted { message } };
        assert(rest =~= seq![ack]);
        assert(rest.len() == 1);
        assert(rest.len() == out.len() - n);
        assert(rest[0] == out[n]);
    }
}

/// A second disconnect of the same session changes nothing and sends
/// nothing, whatever room either of them names.
pub proof fn lemma_second_disconnect_is_noop<H>(
    lobby: LobbyView<H>,
    id: u128,
    first_room: Option<u128>,
    second_room: Option<u128>,
    out: Seq<DeliveryView>,
)
    requires
        lobby.after_disconnect(id, first_room).disconnect_deliveries(id, second_room, out),
    ensures
        lobby.after_disconnect(id, first_room).after_disconnect(id, second_room)
            == lobby.after_disconnect(id, first_room),
        out.len() == 0,
{
}

impl<H> LobbyView<H> {
    /// Every member of a room is registered, and no session is a member of
    /// two rooms.
    pub open spec fn one_room_per_session(self) -> bool {
        &&& forall|id: u128, room_id: u128| #[trigger]
            self.is_member(id, room_id) ==> self.sessions.contains_key(id)
        &&& forall|id: u128, a: u128, b: u128|
            #[trigger] self.is_member(id, a) && #[trigger] self.is_member(id, b) ==> a == b
    }
}

/// A join of a session that is not registered, because it is new or has
/// disconnected, leaves every session in at most one room.
pub proof fn lemma_join_keeps_one_room_per_session<H>(
    lobby: LobbyView<H>,
    room_id: u128,
    id: u128,
    username: Seq<char>,
    addr: H,
)
    requires
        lobby.one_room_per_session(),
        !lobby.sessions.contains_key(id),
    ensures
        lobby.after_join(room_id, id, username, addr).one_room_per_session(),
{
    let next = lobby.after_join(room_id, id, username, addr);
    assert forall|who: u128, r: u128| #[trigger] next.is_member(who, r) implies next.sessions.contains_key(
        who,
    ) by {
        if who != id {
            assert(lobby.is_member(who, r));
        }
    }
    assert forall|who: u128, a: u128, b: u128| #[trigger]
        next.is_member(who, a) && #[trigger] next.is_member(who, b) implies a == b by {
        if who == id {
            if a != room_id {
                assert(lobby.is_member(id, a));
            }
            if b != room_id {
                assert(lobby.is_member(id, b));
            }
        } else {
            assert(lobby.is_member(who, a));
            assert(lobby.is_member(who, b));
        }
    }
}

/// A disconnect that names the room the session is in leaves every member
/// registered and every session in at most one room.
pub proof fn lemma_disconnect_keeps_one_room_per_session<H>(
    lobby: LobbyView<H>,
    id: u128,
    room_id: Option<u128>,
)
    requires
        lobby.one_room_per_session(),
        forall|r: u128| #[trigger] lobby.is_member(id, r) ==> room_id == Some(r),
    ensures
        lobby.after_disconnect(id, room_id).one_room_per_session(),
        forall|r: u128| !lobby.after_disconnect(id, room_id).is_member(id, r),
{
    let next = lobby.after_disconnect(id, room_id);
    assert forall|who: u128, r: u128| next.is_member(who, r) implies lobby.is_member(who, r) && who
        != id by {
        if who == id {
            assert(lobby.is_member(id, r));
        }
    }
    assert forall|who: u128, r: u128| #[trigger] next.is_member(who, r) implies next.sessions.contains_key(
        who,
    ) by {
        assert(lobby.is_member(who, r) && who != id);
    }
    assert forall|who: u128, a: u128, b: u128| #[trigger]
        next.is_member(who, a) && #[trigger] next.is_member(who, b) implies a == b by {
        assert(lobby.is_member(who, a));
        assert(lobby.is_member(who, b));
    }
}

/// Typing reports and posts change neither the registry nor any room's
/// membership.
pub proof fn lemma_typing_and_post_keep_membership<H>(
    lobby: LobbyView<H>,
    id: u128,
    room_id: u128,
    status: TypingInput,
    message: MessageView,
)
    ensures
        lobby.after_typing(id, room_id, status).sessions == lobby.sessions,
        lobby.after_post(id, room_id, message).sessions == lobby.sessions,
        forall|who: u128, r: u128|
            lobby.after_typing(id, room_id, status).is_member(who, r) == lobby.is_member(who, r),
        forall|who: u128, r: u128|
            lobby.after_post(id, room_id, message).is_member(who, r) == lobby.is_member(who, r),
{
}

/// A request that names one room leaves every other room as it was: no
/// request, however ill-placed, reaches into a room it does not name.
pub proof fn lemma_other_rooms_untouched<H>(
    lobby: LobbyView<H>,
    id: u128,
    room_id: u128,
    other: u128,
    username: Seq<char>,
    addr: H,
    status: TypingInput,
    message: MessageView,
)
    requires
        other != room_id,
    ensures
        same_room(lobby, lobby.after_join(room_id, id, username, addr), other),
        same_room(lobby, lobby.after_disconnect(id, Some(room_id)), other),
        same_room(lobby, lobby.after_disconnect(id, None), other),
        same_room(lobby, lobby.after_typing(id, room_id, status), other),
        same_room(lobby, lobby.after_post(id, room_id, message), other),
{
}

/// Whether `room_id` is the same room, or equally absent, in both lobbies.
pub open spec fn same_room<H>(before: LobbyView<H>, after: LobbyView<H>, room_id: u128) -> bool {
    &&& after.rooms.contains_key(room_id) == before.rooms.contains_key(room_id)
    &&& after.rooms.contains_key(room_id) ==> after.rooms[room_id] == before.rooms[room_id]
}

} // verus!
