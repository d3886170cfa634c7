//! A chat message as the client shows it.

use crate::channel::{Channel, ChannelView};
use crate::user::{User, UserView};
use vstd::prelude::*;

verus! {

/// One message. The server names the author and the channel by identifier; the client
/// fills in `user` and `channel` from what it knows of the team.
#[derive(Debug, PartialEq, Eq)]
pub struct Message {
    pub text: Option<String>,
    pub user_id: Option<String>,
    pub channel_id: Option<String>,
    pub user: Option<User>,
    pub channel: Option<Channel>,
}

/// A message as plain values.
pub ghost struct MessageView {
    pub text: Option<Seq<char>>,
    pub user_id: Option<Seq<char>>,
    pub channel_id: Option<Seq<char>>,
    pub user: Option<UserView>,
    pub channel: Option<ChannelView>,
}

/// The text that an optional string holds.
pub open spec fn optional_text(string: Option<String>) -> Option<Seq<char>> {
    match string {
        Some(string) => Some(string@),
        None => None,
    }
}

impl MessageView {
    /// A message of the client's own that says `text` and names nobody.
    pub open spec fn debug(text: Seq<char>) -> MessageView {
        MessageView { text: Some(text), user_id: None, channel_id: None, user: None, channel: None }
    }
}

impl View for Message {
    type V = MessageView;

    open spec fn view(&self) -> MessageView {
        MessageView {
            text: optional_text(self.text),
            user_id: optional_text(self.user_id),
            channel_id: optional_text(self.channel_id),
            user: match self.user {
                Some(user) => Some(user@),
                None => None,
            },
            channel: match self.channel {
                Some(channel) => Some(channel@),
                None => None,
            },
        }
    }
}

impl Message {
    /// A message of the client's own that says `text` and names nobody.
    pub fn debug(text: String) -> (message: Message)
        ensures
            message@ == MessageView::debug(text@),
    {
        Message { text: Some(text), user_id: None, channel_id: None, user: None, channel: None }
    }
}

impl Clone for Message {
    /// A message with the same text, identifiers, author and channel.
    fn clone(&self) -> (copy: Self)
        ensures
            copy@ == self@,
    {
        Message {
            text: self.text.clone(),
            user_id: self.user_id.clone(),
            channel_id: self.channel_id.clone(),
            user: match &self.user {
                Some(user) => Some(user.clone()),
                None => None,
            },
            channel: match &self.channel {
                Some(channel) => Some(channel.clone()),
                None => None,
            },
        }
    }
}

/// The messages that a sequence holds, as plain values.
pub open spec fn message_views(messages: Seq<Message>) -> Seq<MessageView> {
    messages.map_values(|message: Message| message@)
}

} // verus!
