use crate::ident::{is_random_id, random_id};
use crate::messages::{ClientActorMessage, Connect, Disconnect, Join, Typing, WsMessage};
use crate::proto::{Input, InputView, Output, OutputError, OutputView, TypingInput};
use vstd::prelude::*;

verus! {

/// Milliseconds between two heartbeat probes.
pub const HEARTBEAT_INTERVAL: u64 = 5_000;

/// Milliseconds without a sign of life after which a client counts as gone.
pub const CLIENT_TIMEOUT: u64 = 10_000;

/// Why a peer closes the connection.
#[derive(Debug, Clone, PartialEq)]
pub struct CloseReason {
    pub code: u16,
    pub description: Option<String>,
}

/// Model of a [`CloseReason`].
pub struct CloseReasonView {
    pub code: u16,
    pub description: Option<Seq<char>>,
}

impl View for CloseReason {
    type V = CloseReasonView;

    open spec fn view(&self) -> CloseReasonView {
        CloseReasonView {
            code: self.code,
            description: match self.description {
                Some(d) => Some(d@),
                None => None,
            },
        }
    }
}

/// The model of an optional close reason.
pub open spec fn close_view(reason: Option<CloseReason>) -> Option<CloseReasonView> {
    match reason {
        Some(r) => Some(r@),
        None => None,
    }
}

/// What the transport hands to a session.
#[derive(Debug, PartialEq)]
pub enum Frame {
    /// A liveness probe of the peer, with its payload.
    Ping(Vec<u8>),
    /// The peer's answer to a probe.
    Pong(Vec<u8>),
    /// A binary frame.
    Binary(Vec<u8>),
    /// The peer closes the connection.
    Close(Option<CloseReason>),
    /// A continuation frame.
    Continuation,
    /// A frame that carries nothing.
    Nop,
    /// A text frame that decoded to a request.
    Request(Input),
    /// A text frame that did not decode to a request.
    Malformed,
    /// The transport reported a protocol error.
    ProtocolError,
}

/// Model of a [`Frame`].
pub enum FrameView {
    Ping(Seq<u8>),
    Pong(Seq<u8>),
    Binary(Seq<u8>),
    Close(Option<CloseReasonView>),
    Continuation,
    Nop,
    Request(InputView),
    Malformed,
    ProtocolError,
}

impl View for Frame {
    type V = FrameView;

    open spec fn view(&self) -> FrameView {
        match *self {
            Frame::Ping(p) => FrameView::Ping(p@),
            Frame::Pong(p) => FrameView::Pong(p@),
            Frame::Binary(b) => FrameView::Binary(b@),
            Frame::Close(r) => FrameView::Close(close_view(r)),
            Frame::Continuation => FrameView::Continuation,
            Frame::Nop => FrameView::Nop,
            Frame::Request(i) => FrameView::Request(i@),
            Frame::Malformed => FrameView::Malformed,
            Frame::ProtocolError => FrameView::ProtocolError,
        }
    }
}

/// What a session asks its surroundings to do, in order.
#[derive(Debug, PartialEq)]
pub enum Action {
    /// Probe the peer with an empty payload.
    Ping,
    /// Answer a probe with its payload.
    Pong(Vec<u8>),
    /// Write a binary frame.
    Binary(Vec<u8>),
    /// Write a text frame.
    Text(String),
    /// Encode an event and write it as a text frame.
    Reply(Output),
    /// Close the connection.
    Close(Option<CloseReason>),
    /// Stop the session.
    Stop,
    /// Ask the lobby for the room listing.
    Connect(Connect),
    /// Send a join to the lobby.
    Join(Join),
    /// Send a disconnect to the lobby.
    Disconnect(Disconnect),
    /// Send a typing report to the lobby.
    Typing(Typing),
    /// Send a post to the lobby.
    Post(ClientActorMessage),
}

/// Model of an [`Action`].
#[allow(inconsistent_fields)]
pub enum ActionView {
    Ping,
    Pong(Seq<u8>),
    Binary(Seq<u8>),
    Text(Seq<char>),
    Reply(OutputView),
    Close(Option<CloseReasonView>),
    Stop,
    Connect,
    Join { lobby_id: u128, self_id: u128, username: Seq<char> },
    Disconnect { room_id: Option<u128>, self_id: u128 },
    Typing { id: u128, room_id: u128, status: TypingInput },
    Post { id: u128, room_id: u128, msg: Seq<char> },
}

impl View for Action {
    type V = ActionView;

    open spec fn view(&self) -> ActionView {
        match *self {
            Action::Ping => ActionView::Ping,
            Action::Pong(p) => ActionView::Pong(p@),
            Action::Binary(b) => ActionView::Binary(b@),
            Action::Text(t) => ActionView::Text(t@),
            Action::Reply(o) => ActionView::Reply(o@),
            Action::Close(r) => ActionView::Close(close_view(r)),
            Action::Stop => ActionView::Stop,
            Action::Connect(_) => ActionView::Connect,
            Action::Join(j) => ActionView::Join {
                lobby_id: j.lobby_id,
                self_id: j.self_id,
                username: j.username@,
            },
            Action::Disconnect(d) => ActionView::Disconnect { room_id: d.room_id, self_id: d.self_id },
            Action::Typing(t) => ActionView::Typing { id: t.id, room_id: t.room_id, status: t.status },
            Action::Post(p) => ActionView::Post { id: p.id, room_id: p.room_id, msg: p.msg@ },
        }
    }
}

/// The models of a list of actions, in order.
pub open spec fn actions_view(s: Seq<Action>) -> Seq<ActionView> {
    s.map_values(|a: Action| a@)
}

/// Model of a session: its identity, the room it is in, and the time of the
/// last sign of life from its peer, in milliseconds on a monotonic clock.
pub struct SessionView {
    pub id: u128,
    pub room: Option<u128>,
    pub hb: u64,
}

impl SessionView {
    /// The disconnect notice for this session and its current room.
    pub open spec fn farewell(self) -> ActionView {
        ActionView::Disconnect { room_id: self.room, self_id: self.id }
    }

    /// Whether the peer has been silent for longer than the timeout at `now`.
    pub open spec fn timed_out(self, now: u64) -> bool {
        now - self.hb > CLIENT_TIMEOUT
    }

    /// What a heartbeat tick at `now` asks for: a disconnect and a stop if
    /// the peer timed out, a probe otherwise.
    pub open spec fn on_tick(self, now: u64) -> Seq<ActionView> {
        if self.timed_out(now) {
            seq![self.farewell(), ActionView::Stop]
        } else {
            seq![ActionView::Ping]
        }
    }

    /// The session after a request of its client.
    pub open spec fn after_request(self, request: InputView) -> SessionView {
        match request {
            InputView::Join { room, .. } => SessionView { room: Some(room), ..self },
            InputView::Leave => SessionView { room: None, ..self },
            _ => self,
        }
    }

    /// What a request of the client asks for. A join leaves the current room
    /// first. A leave disconnects and asks for the listing again. A post or a
    /// typing report goes to the lobby for the current room, or is answered
    /// with "not-joined" when the session is in no room.
    pub open spec fn request_actions(self, request: InputView) -> Seq<ActionView> {
        match request {
            InputView::Join { username, room } => {
                let join = ActionView::Join { lobby_id: room, self_id: self.id, username };
                if self.room is Some {
                    seq![self.farewell(), join]
                } else {
                    seq![join]
                }
            },
            InputView::Leave => seq![self.farewell(), ActionView::Connect],
            InputView::Post { message } => match self.room {
                Some(room_id) => seq![ActionView::Post { id: self.id, room_id, msg: message }],
                None => seq![not_joined()],
            },
            InputView::Typing { status } => match self.room {
                Some(room_id) => seq![ActionView::Typing { id: self.id, room_id, status }],
                None => seq![not_joined()],
            },
        }
    }

    /// The session after `frame` arrived at `now`: a probe or an answer to
    /// one is a sign of life, a request may change the room.
    pub open spec fn after_frame(self, frame: FrameView, now: u64) -> SessionView {
        match frame {
            FrameView::Ping(_) => SessionView { hb: now, ..self },
            FrameView::Pong(_) => SessionView { hb: now, ..self },
            FrameView::Request(request) => self.after_request(request),
            _ => self,
        }
    }

    /// What `frame` asks for.
    pub open spec fn frame_actions(self, frame: FrameView) -> Seq<ActionView> {
        match frame {
            FrameView::Ping(payload) => seq![ActionView::Pong(payload)],
            FrameView::Pong(_) => Seq::empty(),
            FrameView::Binary(bytes) => seq![ActionView::Binary(bytes)],
            FrameView::Close(reason) => seq![ActionView::Close(reason), ActionView::Stop],
            FrameView::Continuation => seq![ActionView::Stop],
            FrameView::Nop => Seq::empty(),
            FrameView::Request(request) => self.request_actions(request),
            FrameView::Malformed => Seq::empty(),
            FrameView::ProtocolError => seq![ActionView::Stop],
        }
    }
}

/// The reply to a request that needs a room from a session that is in none.
pub open spec fn not_joined() -> ActionView {
    ActionView::Reply(OutputView::Error { code: OutputError::NotJoined })
}

/// The protocol state of one client connection.
#[derive(Debug, PartialEq)]
pub struct ChatWebsocket {
    room: Option<u128>,
    hb: u64,
    id: u128,
}

impl View for ChatWebsocket {
    type V = SessionView;

    closed spec fn view(&self) -> SessionView {
        SessionView { id: self.id, room: self.room, hb: self.hb }
    }
}

impl ChatWebsocket {
    /// A session under a fresh random id, in no room, last heard of at `now`.
    pub fn new(now: u64) -> (session: Self)
        ensures
            is_random_id(session@.id),
            session@.room is None,
            session@.hb == now,
    {
        ChatWebsocket::with_id(random_id(), now)
    }

    /// A session under `id`, in no room, last heard of at `now`.
    pub fn with_id(id: u128, now: u64) -> (session: Self)
        ensures
            session@ == (SessionView { id, room: None, hb: now }),
    {
        ChatWebsocket { room: None, hb: now, id }
    }

    /// The session's identity.
    pub fn id(&self) -> (id: u128)
        ensures
            id == self@.id,
    {
        self.id
    }

    /// The room the session is in, if any.
    pub fn room(&self) -> (room: Option<u128>)
        ensures
            room == self@.room,
    {
        self.room
    }

    /// When the peer last gave a sign of life.
    pub fn last_heartbeat(&self) -> (hb: u64)
        ensures
            hb == self@.hb,
    {
        self.hb
    }

    fn farewell(&self) -> (action: Action)
        ensures
            action@ == self@.farewell(),
    {
        Action::Disconnect(Disconnect { room_id: self.room, self_id: self.id })
    }

    /// The heartbeat tick: a session whose peer has been silent for longer
    /// than [`CLIENT_TIMEOUT`] tells the lobby that it is gone and stops;
    /// any other probes its peer.
    pub fn hb(&self, now: u64) -> (out: Vec<Action>)
        ensures
            actions_view(out@) == self@.on_tick(now),
    {
        let mut out: Vec<Action> = Vec::new();
        if now > self.hb && now - self.hb > CLIENT_TIMEOUT {
            out.push(self.farewell());
            out.push(Action::Stop);
            assert(actions_view(out@) =~= self@.on_tick(now));
        } else {
            out.push(Action::Ping);
            assert(actions_view(out@) =~= self@.on_tick(now));
        }
        out
    }

    /// The start of a session: it asks the lobby for the room listing.
    pub fn started(&self) -> (out: Vec<Action>)
        ensures
            actions_view(out@) == seq![ActionView::Connect],
    {
        let mut out: Vec<Action> = Vec::new();
        out.push(Action::Connect(Connect {  }));
        assert(actions_view(out@) =~= seq![ActionView::Connect]);
        out
    }

    /// The end of a session, however it came about: the lobby is told that
    /// the session is gone.
    pub fn stopping(&self) -> (out: Vec<Action>)
        ensures
            actions_view(out@) == seq![self@.farewell()],
    {
        let mut out: Vec<Action> = Vec::new();
        out.push(self.farewell());
        assert(actions_view(out@) =~= seq![self@.farewell()]);
        out
    }

    /// An event from the lobby goes to the client as one text frame as it is.
    pub fn deliver(&self, msg: WsMessage) -> (action: Action)
        ensures
            action@ == ActionView::Text(msg.0@),
    {
        Action::Text(msg.0)
    }

    /// Handles a request of the client.
    fn handle_request(&mut self, request: Input) -> (out: Vec<Action>)
        ensures
            final(self)@ == old(self)@.after_request(request@),
            actions_view(out@) == old(self)@.request_actions(request@),
    {
        let mut out: Vec<Action> = Vec::new();
        match request {
            Input::Join(inp) => {
                if self.room.is_some() {
                    out.push(self.farewell());
                }
                self.room = Some(inp.room);
                out.push(
                    Action::Join(
                        Join { lobby_id: inp.room, self_id: self.id, username: inp.username },
                    ),
                );
            },
            Input::Leave => {
                out.push(self.farewell());
                self.room = None;
                out.push(Action::Connect(Connect {  }));
            },
            Input::Post(inp) => match self.room {
                Some(room_id) => {
                    out.push(
                        Action::Post(ClientActorMessage { id: self.id, msg: inp.message, room_id }),
                    );
                },
                None => {
                    out.push(Action::Reply(Output::Error(OutputError::NotJoined)));
                },
            },
            Input::Typing(status) => match self.room {
                Some(room_id) => {
                    out.push(Action::Typing(Typing { id: self.id, room_id, status }));
                },
                None => {
                    out.push(Action::Reply(Output::Error(OutputError::NotJoined)));
                },
            },
        }
        assert(actions_view(out@) =~= old(self)@.request_actions(request@));
        out
    }

    /// Handles one frame from the transport at time `now`.
    pub fn handle(&mut self, frame: Frame, now: u64) -> (out: Vec<Action>)
        ensures
            final(self)@ == old(self)@.after_frame(frame@, now),
            actions_view(out@) == old(self)@.frame_actions(frame@),
    {
        let mut out: Vec<Action> = Vec::new();
        match frame {
            Frame::Ping(payload) => {
                self.hb = now;
                out.push(Action::Pong(payload));
            },
            Frame::Pong(_) => {
                self.hb = now;
            },
            Frame::Binary(bytes) => {
                out.push(Action::Binary(bytes));
            },
            Frame::Close(reason) => {
                out.push(Action::Close(reason));
                out.push(Action::Stop);
            },
            Frame::Continuation => {
                out.push(Action::Stop);
            },
            Frame::Nop => {},
            Frame::Request(request) => {
                out = self.handle_request(request);
            },
            Frame::Malformed => {},
            Frame::ProtocolError => {
                out.push(Action::Stop);
            },
        }
        assert(actions_view(out@) =~= old(self)@.frame_actions(frame@));
        out
    }
}

} // verus!
