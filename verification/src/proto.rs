use crate::clock::Timestamp;
use vstd::prelude::*;

verus! {

/// A participant as shown to clients: session id and display name.
#[derive(Debug, PartialEq)]
pub struct UserOutput {
    pub id: u128,
    pub name: String,
}

/// A posted message with its author as of the time of posting.
#[derive(Debug, PartialEq)]
pub struct MessageOutput {
    pub id: u128,
    pub user: UserOutput,
    pub body: String,
    pub created_at: Timestamp,
}

/// One line of the room listing.
#[derive(Debug, PartialEq)]
pub struct Room {
    pub id: u128,
    pub name: String,
    pub connected_clients: usize,
    pub max_clients: usize,
}

/// A decoded request of a client.
#[derive(Debug, Clone, PartialEq)]
pub enum Input {
    Join(JoinInput),
    Leave,
    Post(PostInput),
    Typing(TypingInput),
}

#[derive(Debug, Clone, PartialEq)]
pub struct JoinInput {
    pub username: String,
    pub room: u128,
}

#[derive(Debug, Clone, PartialEq)]
pub struct PostInput {
    pub message: String,
}

#[derive(Debug, Clone, Copy, PartialEq, Eq, Structural)]
pub enum TypingInput {
    Started,
    Stopped,
}

/// An event sent to a client.
#[derive(Debug, PartialEq)]
pub enum Output {
    Error(OutputError),
    Rooms(RoomsOutput),
    Joined(JoinedOutput),
    UserJoined(UserJoinedOutput),
    UserLeft(UserLeftOutput),
    Posted(PostedOutput),
    UserPosted(UserPostedOutput),
    Typing(TypingOutput),
}

#[derive(Debug, Clone, Copy, PartialEq, Eq, Structural)]
pub enum OutputError {
    NameTaken,
    InvalidName,
    NotJoined,
    InvalidMessageBody,
}

#[derive(Debug, Clone, PartialEq)]
pub struct RoomsOutput {
    pub rooms: Vec<Room>,
}

#[derive(Debug, Clone, PartialEq)]
pub struct JoinedOutput {
    pub user: UserOutput,
    pub others: Vec<UserOutput>,
    pub messages: Vec<MessageOutput>,
    pub typing: Vec<UserOutput>,
}

#[derive(Debug, Clone, PartialEq)]
pub struct UserJoinedOutput {
    pub user: UserOutput,
}

#[derive(Debug, Clone, PartialEq)]
pub struct UserLeftOutput {
    pub user: UserOutput,
}

#[derive(Debug, Clone, PartialEq)]
pub struct PostedOutput {
    pub message: MessageOutput,
}

#[derive(Debug, Clone, PartialEq)]
pub struct UserPostedOutput {
    pub message: MessageOutput,
}

#[derive(Debug, Clone, PartialEq)]
pub struct TypingOutput {
    pub status: TypingInput,
    pub user: UserOutput,
}

/// Model of a [`UserOutput`].
pub struct UserView {
    pub id: u128,
    pub name: Seq<char>,
}

/// Model of a [`MessageOutput`].
pub struct MessageView {
    pub id: u128,
    pub user: UserView,
    pub body: Seq<char>,
    pub created_at: Timestamp,
}

/// Model of a [`Room`] listing line.
pub struct RoomView {
    pub id: u128,
    pub name: Seq<char>,
    pub connected_clients: nat,
    pub max_clients: nat,
}

/// Model of an [`Input`].
pub enum InputView {
    Join { username: Seq<char>, room: u128 },
    Leave,
    Post { message: Seq<char> },
    Typing { status: TypingInput },
}

/// Model of an [`Output`]: the tag and the payload's fields.
pub enum OutputView {
    Error { code: OutputError },
    Rooms { rooms: Seq<RoomView> },
    Joined { user: UserView, others: Seq<UserView>, messages: Seq<MessageView>, typing: Seq<UserView> },
    UserJoined { user: UserView },
    UserLeft { user: UserView },
    Posted { message: MessageView },
    UserPosted { message: MessageView },
    Typing { status: TypingInput, user: UserView },
}

/// The models of a sequence of users, in order.
pub open spec fn users_view(s: Seq<UserOutput>) -> Seq<UserView> {
    s.map_values(|u: UserOutput| u@)
}

/// The models of a sequence of messages, in order.
pub open spec fn messages_view(s: Seq<MessageOutput>) -> Seq<MessageView> {
    s.map_values(|m: MessageOutput| m@)
}

/// The models of a sequence of listing lines, in order.
pub open spec fn rooms_view(s: Seq<Room>) -> Seq<RoomView> {
    s.map_values(|r: Room| r@)
}

impl View for UserOutput {
    type V = UserView;

    open spec fn view(&self) -> UserView {
        UserView { id: self.id, name: self.name@ }
    }
}

impl View for MessageOutput {
    type V = MessageView;

    open spec fn view(&self) -> MessageView {
        MessageView {
            id: self.id,
            user: self.user@,
            body: self.body@,
            created_at: self.created_at,
        }
    }
}

impl View for Room {
    type V = RoomView;

    open spec fn view(&self) -> RoomView {
        RoomView {
            id: self.id,
            name: self.name@,
            connected_clients: self.connected_clients as nat,
            max_clients: self.max_clients as nat,
        }
    }
}

impl View for Input {
    type V = InputView;

    open spec fn view(&self) -> InputView {
        match *self {
            Input::Join(j) => InputView::Join { username: j.username@, room: j.room },
            Input::Leave => InputView::Leave,
            Input::Post(p) => InputView::Post { message: p.message@ },
            Input::Typing(status) => InputView::Typing { status },
        }
    }
}

impl View for Output {
    type V = OutputView;

    open spec fn view(&self) -> OutputView {
        match *self {
            Output::Error(code) => OutputView::Error { code },
            Output::Rooms(r) => OutputView::Rooms { rooms: rooms_view(r.rooms@) },
            Output::Joined(j) => OutputView::Joined {
                user: j.user@,
                others: users_view(j.others@),
                messages: messages_view(j.messages@),
                typing: users_view(j.typing@),
            },
            Output::UserJoined(j) => OutputView::UserJoined { user: j.user@ },
            Output::UserLeft(l) => OutputView::UserLeft { user: l.user@ },
            Output::Posted(p) => OutputView::Posted { message: p.message@ },
            Output::UserPosted(p) => OutputView::UserPosted { message: p.message@ },
            Output::Typing(t) => OutputView::Typing { status: t.status, user: t.user@ },
        }
    }
}

impl Clone for UserOutput {
    fn clone(&self) -> (r: Self)
        ensures
            r == *self,
    {
        UserOutput { id: self.id, name: self.name.clone() }
    }
}

impl Clone for MessageOutput {
    fn clone(&self) -> (r: Self)
        ensures
            r == *self,
    {
        MessageOutput {
            id: self.id,
            user: self.user.clone(),
            body: self.body.clone(),
            created_at: self.created_at,
        }
    }
}

impl Clone for Room {
    fn clone(&self) -> (r: Self)
        ensures
            r == *self,
    {
        Room {
            id: self.id,
            name: self.name.clone(),
            connected_clients: self.connected_clients,
            max_clients: self.max_clients,
        }
    }
}

/// Copies a list of users.
pub fn clone_users(users: &Vec<UserOutput>) -> (r: Vec<UserOutput>)
    ensures
        r@ == users@,
{
    let mut r: Vec<UserOutput> = Vec::new();
    let mut i: usize = 0;
    while i < users.len()
        invariant
            i <= users.len(),
            r@ == users@.subrange(0, i as int),
        decreases users.len() - i,
    {
        r.push(users[i].clone());
        assert(r@ =~= users@.subrange(0, i + 1));
        i += 1;
    }
    assert(r@ =~= users@);
    r
}

/// Copies a list of messages.
pub fn clone_messages(messages: &Vec<MessageOutput>) -> (r: Vec<MessageOutput>)
    ensures
        r@ == messages@,
{
    let mut r: Vec<MessageOutput> = Vec::new();
    let mut i: usize = 0;
    while i < messages.len()
        invariant
            i <= messages.len(),
            r@ == messages@.subrange(0, i as int),
        decreases messages.len() - i,
    {
        r.push(messages[i].clone());
        assert(r@ =~= messages@.subrange(0, i + 1));
        i += 1;
    }
    assert(r@ =~= messages@);
    r
}

/// Copies a room listing.
pub fn clone_rooms(rooms: &Vec<Room>) -> (r: Vec<Room>)
    ensures
        r@ == rooms@,
{
    let mut r: Vec<Room> = Vec::new();
    let mut i: usize = 0;
    while i < rooms.len()
        invariant
            i <= rooms.len(),
            r@ == rooms@.subrange(0, i as int),
        decreases rooms.len() - i,
    {
        r.push(rooms[i].clone());
        assert(r@ =~= rooms@.subrange(0, i + 1));
        i += 1;
    }
    assert(r@ =~= rooms@);
    r
}

impl Clone for Output {
    fn clone(&self) -> (r: Self)
        ensures
            r@ == self@,
    {
        match self {
            Output::Error(code) => Output::Error(*code),
            Output::Rooms(l) => Output::Rooms(RoomsOutput { rooms: clone_rooms(&l.rooms) }),
            Output::Joined(j) => Output::Joined(
                JoinedOutput {
                    user: j.user.clone(),
                    others: clone_users(&j.others),
                    messages: clone_messages(&j.messages),
                    typing: clone_users(&j.typing),
                },
            ),
            Output::UserJoined(j) => Output::UserJoined(UserJoinedOutput { user: j.user.clone() }),
            Output::UserLeft(l) => Output::UserLeft(UserLeftOutput { user: l.user.clone() }),
            Output::Posted(p) => Output::Posted(PostedOutput { message: p.message.clone() }),
            Output::UserPosted(p) => Output::UserPosted(
                UserPostedOutput { message: p.message.clone() },
            ),
            Output::Typing(t) => Output::Typing(
                TypingOutput { status: t.status, user: t.user.clone() },
            ),
        }
    }
}

impl UserOutput {
    pub fn new(id: u128, name: &str) -> (u: Self)
        ensures
            u@ == (UserView { id, name: name@ }),
    {
        UserOutput { id, name: name.to_owned() }
    }
}

impl MessageOutput {
    pub fn new(id: u128, user: UserOutput, body: &str, created_at: Timestamp) -> (m: Self)
        ensures
            m@ == (MessageView { id, user: user@, body: body@, created_at }),
            m.user == user,
    {
        MessageOutput { id, user, body: body.to_owned(), created_at }
    }
}

impl Room {
    pub fn new(id: u128, name: String, connected_clients: usize, max_clients: usize) -> (r: Self)
        ensures
            r == (Room { id, name, connected_clients, max_clients }),
    {
        Room { id, name, connected_clients, max_clients }
    }
}

impl RoomsOutput {
    pub fn new(rooms: Vec<Room>) -> (r: Self)
        ensures
            r.rooms == rooms,
    {
        RoomsOutput { rooms }
    }
}

impl JoinedOutput {
    pub fn new(
        user: UserOutput,
        others: Vec<UserOutput>,
        messages: Vec<MessageOutput>,
        typing: Vec<UserOutput>,
    ) -> (r: Self)
        ensures
            r == (JoinedOutput { user, others, messages, typing }),
    {
        JoinedOutput { user, others, messages, typing }
    }
}

impl UserJoinedOutput {
    pub fn new(user: UserOutput) -> (r: Self)
        ensures
            r.user == user,
    {
        UserJoinedOutput { user }
    }
}

impl UserLeftOutput {
    pub fn new(user_id: u128, username: &String) -> (r: Self)
        ensures
            r.user@ == (UserView { id: user_id, name: username@ }),
    {
        UserLeftOutput { user: UserOutput::new(user_id, username.as_str()) }
    }
}

impl PostedOutput {
    pub fn new(message: MessageOutput) -> (r: Self)
        ensures
            r.message == message,
    {
        PostedOutput { message }
    }
}

impl UserPostedOutput {
    pub fn new(message: MessageOutput) -> (r: Self)
        ensures
            r.message == message,
    {
        UserPostedOutput { message }
    }
}

impl TypingOutput {
    pub fn new(status: TypingInput, user: UserOutput) -> (r: Self)
        ensures
            r == (TypingOutput { status, user }),
    {
        TypingOutput { status, user }
    }
}

} // verus!
