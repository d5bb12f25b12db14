use crate::collect::{lemma_selects_all, lemma_selects_step, map_keys, selects, set_items};
use crate::proto::{messages_view, users_view, MessageOutput, MessageView, UserOutput, UserView};
use std::collections::{HashMap, HashSet};
use vstd::prelude::*;

verus! {

broadcast use vstd::std_specs::hash::group_hash_axioms;

/// A chat room: who is connected, who is typing, and what was posted.
pub struct ChatRoom {
    /// Identifies the room.
    pub id: u128,
    pub name: String,
    /// Occupancy bound shown to clients. Joining does not enforce it.
    pub max_clients: usize,
    /// Display name of every connected session.
    pub clients: HashMap<u128, String>,
    /// Sessions that are typing right now.
    pub typing_clients: HashSet<u128>,
    /// Every message posted so far, oldest first.
    pub history: Vec<MessageOutput>,
}

/// Model of a [`ChatRoom`].
pub struct ChatRoomView {
    pub id: u128,
    pub name: Seq<char>,
    pub max_clients: nat,
    pub clients: Map<u128, Seq<char>>,
    pub typing: Set<u128>,
    pub history: Seq<MessageView>,
}

impl ChatRoomView {
    /// An empty room.
    pub open spec fn empty(id: u128, name: Seq<char>, max_clients: nat) -> ChatRoomView {
        ChatRoomView {
            id,
            name,
            max_clients,
            clients: Map::empty(),
            typing: Set::empty(),
            history: Seq::empty(),
        }
    }

    /// The sessions connected to the room.
    pub open spec fn members(self) -> Set<u128> {
        self.clients.dom()
    }

    /// A room holds finitely many sessions, and only members are typing.
    pub open spec fn wf(self) -> bool {
        &&& self.clients.dom().finite()
        &&& self.typing.finite()
        &&& self.typing.subset_of(self.clients.dom())
    }

    /// The room after `id` connected under `name`.
    pub open spec fn with_member(self, id: u128, name: Seq<char>) -> ChatRoomView {
        ChatRoomView { clients: self.clients.insert(id, name), ..self }
    }

    /// The room after `id` left: no longer a member, no longer typing.
    pub open spec fn without_member(self, id: u128) -> ChatRoomView {
        ChatRoomView { clients: self.clients.remove(id), typing: self.typing.remove(id), ..self }
    }

    /// The room after `id` started typing. Only a member can be typing.
    pub open spec fn with_typing(self, id: u128) -> ChatRoomView {
        if self.clients.contains_key(id) {
            ChatRoomView { typing: self.typing.insert(id), ..self }
        } else {
            self
        }
    }

    /// The room after `id` stopped typing.
    pub open spec fn without_typing(self, id: u128) -> ChatRoomView {
        ChatRoomView { typing: self.typing.remove(id), ..self }
    }

    /// The room after `message` was posted.
    pub open spec fn with_message(self, message: MessageView) -> ChatRoomView {
        ChatRoomView { history: self.history.push(message), ..self }
    }

    /// `id` as a user of this room, under the name it connected with.
    pub open spec fn user(self, id: u128) -> UserView
        recommends
            self.clients.contains_key(id),
    {
        UserView { id, name: self.clients[id] }
    }
}

/// The session ids of a list of users, in order.
pub open spec fn user_ids(users: Seq<UserView>) -> Seq<u128> {
    users.map_values(|u: UserView| u.id)
}

/// `users` names each session of `ids` once, in any order, under the name
/// that `names` holds for it, and names no other session.
pub open spec fn lists_users(users: Seq<UserView>, ids: Set<u128>, names: Map<u128, Seq<char>>) -> bool {
    &&& user_ids(users).no_duplicates()
    &&& user_ids(users).to_set() == ids
    &&& forall|i: int| 0 <= i < users.len() ==> (#[trigger] users[i]).name == names[users[i].id]
}

/// The display names held by a client map.
pub open spec fn names_view(clients: Map<u128, String>) -> Map<u128, Seq<char>> {
    clients.map_values(|s: String| s@)
}

impl View for ChatRoom {
    type V = ChatRoomView;

    open spec fn view(&self) -> ChatRoomView {
        ChatRoomView {
            id: self.id,
            name: self.name@,
            max_clients: self.max_clients as nat,
            clients: names_view(self.clients@),
            typing: self.typing_clients@,
            history: messages_view(self.history@),
        }
    }
}

impl ChatRoom {
    /// See [`ChatRoomView::wf`].
    pub open spec fn wf(&self) -> bool {
        self@.wf()
    }

    /// An empty room.
    pub fn new(id: u128, name: String, max_clients: usize) -> (room: Self)
        ensures
            room@ == ChatRoomView::empty(id, name@, max_clients as nat),
            room.wf(),
    {
        let room = ChatRoom {
            id,
            name,
            max_clients,
            clients: HashMap::new(),
            typing_clients: HashSet::new(),
            history: Vec::new(),
        };
        assert(room@.clients =~= Map::empty());
        assert(room@.history =~= Seq::empty());
        room
    }

    /// Connects a session under `username`, replacing the name of one that is
    /// already connected.
    pub fn add_client(&mut self, client_id: &u128, username: String)
        ensures
            final(self)@ == old(self)@.with_member(*client_id, username@),
            old(self).wf() ==> final(self).wf(),
    {
        self.clients.insert(*client_id, username);
        assert(self@.clients =~= old(self)@.clients.insert(*client_id, username@));
    }

    /// Disconnects a session and clears its typing flag. Returns the name it
    /// was connected under, or `None` when it was not connected.
    pub fn remove_client(&mut self, client_id: &u128) -> (name: Option<String>)
        ensures
            final(self)@ == old(self)@.without_member(*client_id),
            old(self).wf() ==> final(self).wf(),
            match name {
                Some(n) => old(self)@.clients.contains_key(*client_id) && n@ == old(
                    self,
                )@.clients[*client_id],
                None => !old(self)@.clients.contains_key(*client_id),
            },
    {
        self.typing_clients.remove(client_id);
        let name = self.clients.remove(client_id);
        assert(self@.clients =~= old(self)@.clients.remove(*client_id));
        name
    }

    /// The name a session is connected under.
    pub fn get_username(&self, client_id: &u128) -> (name: Option<&String>)
        ensures
            match name {
                Some(n) => self@.clients.contains_key(*client_id) && n@ == self@.clients[*client_id],
                None => !self@.clients.contains_key(*client_id),
            },
    {
        self.clients.get(client_id)
    }

    /// Marks a connected session as typing. A session that is not connected
    /// is left unmarked.
    pub fn add_typing_client(&mut self, client_id: &u128)
        ensures
            final(self)@ == old(self)@.with_typing(*client_id),
            old(self).wf() ==> final(self).wf(),
    {
        if self.clients.contains_key(client_id) {
            self.typing_clients.insert(*client_id);
        }
    }

    /// Clears a session's typing flag. Returns whether it was set.
    pub fn remove_typing_client(&mut self, client_id: &u128) -> (was_typing: bool)
        ensures
            final(self)@ == old(self)@.without_typing(*client_id),
            old(self).wf() ==> final(self).wf(),
            was_typing == old(self)@.typing.contains(*client_id),
    {
        self.typing_clients.remove(client_id)
    }

    /// The users behind `ids`, in order, each under its display name.
    fn users_of(&self, ids: &Vec<u128>) -> (users: Vec<UserOutput>)
        requires
            forall|j: int| 0 <= j < ids@.len() ==> self@.clients.contains_key(#[trigger] ids@[j]),
        ensures
            users@.len() == ids@.len(),
            forall|j: int| 0 <= j < ids@.len() ==> (#[trigger] users@[j])@ == self@.user(ids@[j]),
            user_ids(users_view(users@)) == ids@,
    {
        let mut users: Vec<UserOutput> = Vec::new();
        let mut i: usize = 0;
        while i < ids.len()
            invariant
                i <= ids@.len(),
                users@.len() == i,
                forall|j: int| 0 <= j < ids@.len() ==> self@.clients.contains_key(#[trigger] ids@[j]),
                forall|j: int| 0 <= j < i ==> (#[trigger] users@[j])@ == self@.user(ids@[j]),
            decreases ids@.len() - i,
        {
            let id = ids[i];
            assert(self@.clients.contains_key(ids@[i as int]));
            match self.clients.get(&id) {
                Some(n) => users.push(UserOutput::new(id, n.as_str())),
                None => {},
            }
            i += 1;
        }
        assert(user_ids(users_view(users@)) =~= ids@);
        users
    }

    /// The members that are typing, each with its display name.
    pub fn get_typing_clients(&self) -> (users: Vec<UserOutput>)
        ensures
            lists_users(
                users_view(users@),
                self@.typing.intersect(self@.clients.dom()),
                self@.clients,
            ),
            self.wf() ==> lists_users(users_view(users@), self@.typing, self@.clients),
    {
        let all = set_items(&self.typing_clients);
        let ghost keep = |id: u128| self@.clients.contains_key(id);
        let mut ids: Vec<u128> = Vec::new();
        let mut i: usize = 0;
        while i < all.len()
            invariant
                i <= all@.len(),
                all@.no_duplicates(),
                keep == |id: u128| self@.clients.contains_key(id),
                selects(ids@, all@, i as int, keep),
            decreases all@.len() - i,
        {
            proof {
                lemma_selects_step(ids@, all@, i as int, keep);
            }
            if self.clients.contains_key(&all[i]) {
                ids.push(all[i]);
            }
            i += 1;
        }
        proof {
            lemma_selects_all(ids@, all@, keep);
            assert(all@.to_set().filter(keep) =~= self@.typing.intersect(self@.clients.dom()));
            assert forall|j: int| 0 <= j < ids@.len() implies self@.clients.contains_key(
                #[trigger] ids@[j],
            ) by {
                assert(ids@.to_set().contains(ids@[j]));
            }
            if self.wf() {
                assert(self@.typing.intersect(self@.clients.dom()) =~= self@.typing);
            }
        }
        self.users_of(&ids)
    }

    /// The connected sessions other than `client_id`, each with its display
    /// name.
    pub fn get_other_clients(&self, client_id: &u128) -> (users: Vec<UserOutput>)
        ensures
            lists_users(users_view(users@), self@.clients.dom().remove(*client_id), self@.clients),
    {
        let all = map_keys(&self.clients);
        let ghost keep = |id: u128| id != *client_id;
        let mut ids: Vec<u128> = Vec::new();
        let mut i: usize = 0;
        while i < all.len()
            invariant
                i <= all@.len(),
                all@.no_duplicates(),
                keep == |id: u128| id != *client_id,
                selects(ids@, all@, i as int, keep),
            decreases all@.len() - i,
        {
            proof {
                lemma_selects_step(ids@, all@, i as int, keep);
            }
            if all[i] != *client_id {
                ids.push(all[i]);
            }
            i += 1;
        }
        proof {
            lemma_selects_all(ids@, all@, keep);
            assert(all@.to_set().filter(keep) =~= self@.clients.dom().remove(*client_id));
            assert forall|j: int| 0 <= j < ids@.len() implies self@.clients.contains_key(
                #[trigger] ids@[j],
            ) by {
                assert(ids@.to_set().contains(ids@[j]));
            }
        }
        self.users_of(&ids)
    }
}

} // verus!
