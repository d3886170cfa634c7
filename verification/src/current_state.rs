//! What the client knows of the team: who it is signed in as, the channels, the users.

use crate::channel::{Channel, ChannelView};
use crate::message::{optional_text, Message};
use crate::user::{User, UserView};
use vstd::prelude::*;

verus! {

/// The team as the client knows it.
pub struct CurrentState {
    pub me: User,
    pub channels: Vec<Channel>,
    pub users: Vec<User>,
}

/// Whether `at` is the first position of `ids` that holds `id`.
pub open spec fn is_first_with_id(ids: Seq<Seq<char>>, id: Seq<char>, at: int) -> bool {
    &&& 0 <= at < ids.len()
    &&& ids[at] == id
    &&& forall|earlier: int| 0 <= earlier < at ==> ids[earlier] != id
}

/// The first position of `ids` that holds `id`, if any does.
pub open spec fn position_of_id(ids: Seq<Seq<char>>, id: Seq<char>) -> Option<int> {
    if exists|at: int| is_first_with_id(ids, id, at) {
        Some(choose|at: int| is_first_with_id(ids, id, at))
    } else {
        None
    }
}

/// The identifiers of a sequence of users.
pub open spec fn user_ids(users: Seq<User>) -> Seq<Seq<char>> {
    users.map_values(|user: User| user.id@)
}

/// The identifiers of a sequence of channels.
pub open spec fn channel_ids(channels: Seq<Channel>) -> Seq<Seq<char>> {
    channels.map_values(|channel: Channel| channel.id@)
}

/// The first of `users` with the identifier `id`, if there is one.
pub open spec fn user_with_id(users: Seq<User>, id: Seq<char>) -> Option<User> {
    match position_of_id(user_ids(users), id) {
        Some(at) => Some(users[at]),
        None => None,
    }
}

/// The first of `channels` with the identifier `id`, if there is one.
pub open spec fn channel_with_id(channels: Seq<Channel>, id: Seq<char>) -> Option<Channel> {
    match position_of_id(channel_ids(channels), id) {
        Some(at) => Some(channels[at]),
        None => None,
    }
}

/// The author that a message gets: the user that its identifier names, or none where
/// nobody has that identifier; where the message names no author, the one it came with.
pub open spec fn resolved_user(users: Seq<User>, message: Message) -> Option<UserView> {
    match message.user_id {
        Some(id) => match user_with_id(users, id@) {
            Some(user) => Some(user@),
            None => None,
        },
        None => message@.user,
    }
}

/// The channel that a message gets: the channel that its identifier names, or none
/// where no channel has that identifier; where the message names no channel, the one it
/// came with.
pub open spec fn resolved_channel(channels: Seq<Channel>, message: Message) -> Option<
    ChannelView,
> {
    match message.channel_id {
        Some(id) => match channel_with_id(channels, id@) {
            Some(channel) => Some(channel@),
            None => None,
        },
        None => message@.channel,
    }
}

/// A position that holds `id` with no earlier one that does is the position that
/// `position_of_id` gives.
pub proof fn first_position_is_unique(ids: Seq<Seq<char>>, id: Seq<char>, at: int)
    requires
        is_first_with_id(ids, id, at),
    ensures
        position_of_id(ids, id) == Some(at),
{
    let chosen = choose|other: int| is_first_with_id(ids, id, other);
    assert(is_first_with_id(ids, id, chosen));
    if chosen < at {
        assert(ids[chosen] != id);
    } else if at < chosen {
        assert(ids[at] != id);
    }
}

/// Whether two texts are the same.
fn same_text(text: &String, other: &str) -> (same: bool)
    ensures
        same == (text@ == other@),
{
    *text == other.to_owned()
}

impl CurrentState {
    /// The state made of these parts.
    pub fn new(me: User, channels: Vec<Channel>, users: Vec<User>) -> (state: CurrentState)
        ensures
            state.me == me,
            state.channels == channels,
            state.users == users,
    {
        CurrentState { me, channels, users }
    }

    /// The first user with the identifier `id`, if there is one.
    pub fn user_id_to_user(&self, id: &str) -> (found: Option<&User>)
        ensures
            match user_with_id(self.users@, id@) {
                Some(user) => found == Some(&user),
                None => found is None,
            },
    {
        let mut at: usize = 0;
        while at < self.users.len()
            invariant
                at <= self.users@.len(),
                forall|earlier: int| 0 <= earlier < at ==> user_ids(self.users@)[earlier] != id@,
            decreases self.users@.len() - at,
        {
            if same_text(&self.users[at].id, id) {
                proof {
                    first_position_is_unique(user_ids(self.users@), id@, at as int);
                }
                return Some(&self.users[at]);
            }
            at = at + 1;
        }
        None
    }

    /// The first channel with the identifier `id`, if there is one.
    pub fn channel_id_to_channel(&self, id: &str) -> (found: Option<&Channel>)
        ensures
            match channel_with_id(self.channels@, id@) {
                Some(channel) => found == Some(&channel),
                None => found is None,
            },
    {
        let mut at: usize = 0;
        while at < self.channels.len()
            invariant
                at <= self.channels@.len(),
                forall|earlier: int|
                    0 <= earlier < at ==> channel_ids(self.channels@)[earlier] != id@,
            decreases self.channels@.len() - at,
        {
            if same_text(&self.channels[at].id, id) {
                proof {
                    first_position_is_unique(channel_ids(self.channels@), id@, at as int);
                }
                return Some(&self.channels[at]);
            }
            at = at + 1;
        }
        None
    }

    /// Completes a message that came in: where it names a channel or an author by
    /// identifier, the channel or user so named is filled in, or left empty where the
    /// identifier is unknown. Text and identifiers stay as they came.
    pub fn parse_incoming_message(&self, message: Message) -> (resolved: Message)
        ensures
            resolved@.text == message@.text,
            resolved@.user_id == message@.user_id,
            resolved@.channel_id == message@.channel_id,
            resolved@.user == resolved_user(self.users@, message),
            resolved@.channel == resolved_channel(self.channels@, message),
    {
        let channel = match &message.channel_id {
            Some(id) => match self.channel_id_to_channel(id.as_str()) {
                Some(channel) => Some(channel.clone()),
                None => None,
            },
            None => message.channel,
        };
        let user = match &message.user_id {
            Some(id) => match self.user_id_to_user(id.as_str()) {
                Some(user) => Some(user.clone()),
                None => None,
            },
            None => message.user,
        };
        Message {
            text: message.text,
            user_id: message.user_id,
            channel_id: message.channel_id,
            user,
            channel,
        }
    }
}

} // verus!
