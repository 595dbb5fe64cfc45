use crate::discord::models::{channel_views, ChannelView, DiscordChannel};
use vstd::hash_map::StringHashMap;
use vstd::prelude::*;

verus! {

/// The registry that a list of channels gives: each name leads to the
/// identifier of the last channel in the list that bears it.
pub open spec fn registry_of(channels: Seq<ChannelView>) -> Map<Seq<char>, Seq<char>>
    decreases channels.len(),
{
    if channels.len() == 0 {
        Map::empty()
    } else {
        registry_of(channels.drop_last()).insert(channels.last().name, channels.last().id)
    }
}

/// The channels known during one run: from a channel's name to its
/// identifier. A name can be given an identifier; none can be taken away.
pub struct ChannelRegistry {
    channels: StringHashMap<String>,
}

impl View for ChannelRegistry {
    type V = Map<Seq<char>, Seq<char>>;

    closed spec fn view(&self) -> Map<Seq<char>, Seq<char>> {
        Map::new(
            |name: Seq<char>| self.channels@.contains_key(name),
            |name: Seq<char>| self.channels@[name]@,
        )
    }
}

impl ChannelRegistry {
    /// A registry that knows no channel.
    pub fn new() -> (registry: ChannelRegistry)
        ensures
            registry@ == Map::<Seq<char>, Seq<char>>::empty(),
    {
        ChannelRegistry { channels: StringHashMap::new() }
    }

    /// The registry of the channels that the chat platform listed.
    pub fn from_channels(channels: Vec<DiscordChannel>) -> (registry: ChannelRegistry)
        ensures
            registry@ == registry_of(channel_views(channels@)),
    {
        let mut registry = ChannelRegistry::new();
        let mut i: usize = 0;
        while i < channels.len()
            invariant
                i <= channels.len(),
                registry@ == registry_of(channel_views(channels@).take(i as int)),
            decreases channels.len() - i,
        {
            let ghost views = channel_views(channels@);
            assert(views.take(i + 1).drop_last() == views.take(i as int));
            registry.insert(channels[i].name.clone(), channels[i].id.clone());
            i += 1;
        }
        assert(channel_views(channels@).take(i as int) == channel_views(channels@));
        registry
    }

    /// Records that the channel `name` has the identifier `id`, in place of
    /// the one it had, if it had one.
    pub fn insert(&mut self, name: String, id: String)
        ensures
            final(self)@ == old(self)@.insert(name@, id@),
    {
        self.channels.insert(name, id);
    }

    /// Whether the channel `name` is known.
    pub fn contains(&self, name: &str) -> (known: bool)
        ensures
            known == self@.contains_key(name@),
    {
        self.channels.contains_key(name)
    }

    /// The identifier of the channel `name`, if it is known.
    pub fn get(&self, name: &str) -> (id: Option<&String>)
        ensures
            match id {
                Some(id) => self@.contains_key(name@) && id@ == self@[name@],
                None => !self@.contains_key(name@),
            },
    {
        self.channels.get(name)
    }
}

} // verus!
