//! What the view of one channel shows at a given time.

use crate::channel::{channel_views, Channel, ChannelView};
use crate::message::{message_views, Message, MessageView};
use vstd::prelude::*;

verus! {

/// The content of the view of one channel.
pub struct ViewData {
    pub messages: Vec<Message>,
    pub channel: Channel,
    pub has_unread: bool,
    pub unread_channels: Vec<Channel>,
    pub clock: u32,
}

/// Whether a view has something unread.
pub open spec fn is_unread() -> spec_fn(ViewData) -> bool {
    |view_data: ViewData| view_data.has_unread
}

/// The channels of those of `view_datas` that have something unread, in their order.
pub open spec fn unread_channels_of(view_datas: Seq<ViewData>) -> Seq<ChannelView> {
    view_datas.filter(is_unread()).map_values(|view_data: ViewData| view_data.channel@)
}

impl Clone for ViewData {
    /// A view that shows the same messages of the same channel and notes the same
    /// unread channels.
    fn clone(&self) -> (copy: Self)
        ensures
            message_views(copy.messages@) == message_views(self.messages@),
            copy.channel@ == self.channel@,
            copy.has_unread == self.has_unread,
            channel_views(copy.unread_channels@) == channel_views(self.unread_channels@),
            copy.clock == self.clock,
    {
        ViewData {
            messages: self.messages.clone(),
            channel: self.channel.clone(),
            has_unread: self.has_unread,
            unread_channels: self.unread_channels.clone(),
            clock: self.clock,
        }
    }
}

impl ViewData {
    /// The view of `channel`, with nothing in it yet.
    pub fn new(channel: Channel) -> (view_data: ViewData)
        ensures
            view_data.channel == channel,
            view_data.messages@ == Seq::<Message>::empty(),
            view_data.unread_channels@ == Seq::<Channel>::empty(),
            !view_data.has_unread,
            view_data.clock == 0,
    {
        ViewData {
            messages: Vec::new(),
            channel: channel,
            has_unread: false,
            unread_channels: Vec::new(),
            clock: 0,
        }
    }

    /// Shows one more message, after those already shown.
    pub fn add_message(&mut self, message: Message)
        ensures
            final(self).messages@ == old(self).messages@.push(message),
            final(self).channel == old(self).channel,
            final(self).has_unread == old(self).has_unread,
            final(self).unread_channels == old(self).unread_channels,
            final(self).clock == old(self).clock,
    {
        self.messages.push(message);
    }

    /// Shows one more message, of the client's own, that says `string`.
    pub fn add_debug(&mut self, string: String)
        ensures
            message_views(final(self).messages@) == message_views(old(self).messages@).push(
                MessageView::debug(string@),
            ),
            final(self).channel == old(self).channel,
            final(self).has_unread == old(self).has_unread,
            final(self).unread_channels == old(self).unread_channels,
            final(self).clock == old(self).clock,
    {
        self.messages.push(Message::debug(string));
    }

    /// Takes note of the channels with something unread: those of `view_datas` whose
    /// view says so, in their order. What was noted before is forgotten.
    pub fn update_unread(&mut self, view_datas: &Vec<ViewData>)
        ensures
            channel_views(final(self).unread_channels@) == unread_channels_of(view_datas@),
            final(self).messages == old(self).messages,
            final(self).channel == old(self).channel,
            final(self).has_unread == old(self).has_unread,
            final(self).clock == old(self).clock,
    {
        let mut unread: Vec<Channel> = Vec::new();
        let mut seen: usize = 0;
        proof {
            reveal(Seq::filter);
        }
        while seen < view_datas.len()
            invariant
                seen <= view_datas@.len(),
                channel_views(unread@) == unread_channels_of(view_datas@.subrange(0, seen as int)),
            decreases view_datas@.len() - seen,
        {
            let ghost before = view_datas@.subrange(0, seen as int);
            let ghost after = view_datas@.subrange(0, seen + 1);
            let ghost noted = unread@;
            proof {
                reveal(Seq::filter);
                assert(after.drop_last() == before);
                assert(after.last() == view_datas@[seen as int]);
            }
            if view_datas[seen].has_unread {
                unread.push(view_datas[seen].channel.clone());
                assert(channel_views(unread@) == channel_views(noted).push(
                    view_datas@[seen as int].channel@,
                ));
                assert(unread_channels_of(after) == unread_channels_of(before).push(
                    view_datas@[seen as int].channel@,
                ));
            }
            seen = seen + 1;
        }
        assert(view_datas@.subrange(0, seen as int) == view_datas@);
        self.unread_channels = unread;
    }
}

} // verus!
