use vstd::prelude::*;

verus! {

/// A channel of the chat platform.
#[derive(Clone, Debug, PartialEq, Eq)]
pub struct DiscordChannel {
    pub name: String,
    pub id: String,
}

/// The mathematical value of a `DiscordChannel`.
pub ghost struct ChannelView {
    pub name: Seq<char>,
    pub id: Seq<char>,
}

impl View for DiscordChannel {
    type V = ChannelView;

    open spec fn view(&self) -> ChannelView {
        ChannelView { name: self.name@, id: self.id@ }
    }
}

/// A message as the chat platform reports it once it is posted.
#[derive(Clone, Debug, PartialEq, Eq)]
pub struct DiscordMessage {
    pub id: String,
}

/// The mathematical value of a `DiscordMessage`.
pub ghost struct MessageView {
    pub id: Seq<char>,
}

impl View for DiscordMessage {
    type V = MessageView;

    open spec fn view(&self) -> MessageView {
        MessageView { id: self.id@ }
    }
}

/// The values of a list of channels, in the same order.
pub open spec fn channel_views(channels: Seq<DiscordChannel>) -> Seq<ChannelView> {
    channels.map_values(|c: DiscordChannel| c@)
}

} // verus!
