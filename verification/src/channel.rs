//! A chat channel as the client knows it.

use vstd::prelude::*;

verus! {

/// One channel of the team's chat.
#[derive(Debug, PartialEq, Eq)]
pub struct Channel {
    pub id: String,
    pub name: String,
    /// The identifiers of the members, where the server told them.
    pub members: Option<Vec<String>>,
    pub is_member: bool,
    pub is_general: bool,
}

/// A channel as plain values.
pub ghost struct ChannelView {
    pub id: Seq<char>,
    pub name: Seq<char>,
    pub members: Option<Seq<Seq<char>>>,
    pub is_member: bool,
    pub is_general: bool,
}

/// The texts that a sequence of strings holds.
pub open spec fn texts(strings: Seq<String>) -> Seq<Seq<char>> {
    strings.map_values(|string: String| string@)
}

impl View for Channel {
    type V = ChannelView;

    open spec fn view(&self) -> ChannelView {
        ChannelView {
            id: self.id@,
            name: self.name@,
            members: match self.members {
                Some(members) => Some(texts(members@)),
                None => None,
            },
            is_member: self.is_member,
            is_general: self.is_general,
        }
    }
}

impl Clone for Channel {
    /// A channel with the same identifier, name, members and flags.
    fn clone(&self) -> (copy: Self)
        ensures
            copy@ == self@,
    {
        Channel {
            id: self.id.clone(),
            name: self.name.clone(),
            members: match &self.members {
                Some(members) => Some(members.clone()),
                None => None,
            },
            is_member: self.is_member,
            is_general: self.is_general,
        }
    }
}

/// The channels that a sequence holds, as plain values.
pub open spec fn channel_views(channels: Seq<Channel>) -> Seq<ChannelView> {
    channels.map_values(|channel: Channel| channel@)
}

} // verus!
