use crate::discord::errors::{RequestError, RequestErrorView};
use crate::discord::models::{ChannelView, DiscordChannel, DiscordMessage, MessageView};
use crate::registry::ChannelRegistry;
use crate::selfoss::models::{
    channel_name_of, derive_channel_name, derive_message_body, message_body_of, ItemView,
    SelfossItem,
};
use vstd::pervasive::unreached;
use vstd::prelude::*;

verus! {

/// Where a run stands. While an item is being processed the phase names the
/// call whose answer the run is waiting for.
#[derive(Clone, Copy, Debug, PartialEq, Eq, Structural)]
pub enum SyncPhase {
    /// The current item's channel is unknown; its creation was asked for.
    CreatingChannel,
    /// The current item's message was handed over for sending.
    SendingMessage,
    /// The current item was handed over to be marked as read.
    MarkingRead,
    /// Every item was processed.
    Done,
    /// A call failed; the run is over.
    Failed,
}

/// What the driver of a run has to do next.
#[derive(Clone, Debug, PartialEq, Eq)]
pub enum SyncAction {
    /// Create a channel with this name on the chat platform.
    CreateChannel { name: String },
    /// Post this content into the channel with this identifier.
    PostMessage { channel_id: String, content: String },
    /// Mark the item with this identifier as read in the feed reader.
    MarkRead { item_id: u64 },
    /// Nothing: the run is over.
    Finish,
}

/// The mathematical value of a `SyncAction`.
pub ghost enum ActionView {
    CreateChannel { name: Seq<char> },
    PostMessage { channel_id: Seq<char>, content: Seq<char> },
    MarkRead { item_id: u64 },
    Finish,
}

impl View for SyncAction {
    type V = ActionView;

    open spec fn view(&self) -> ActionView {
        match self {
            SyncAction::CreateChannel { name } => ActionView::CreateChannel { name: name@ },
            SyncAction::PostMessage { channel_id, content } => ActionView::PostMessage {
                channel_id: channel_id@,
                content: content@,
            },
            SyncAction::MarkRead { item_id } => ActionView::MarkRead { item_id: *item_id },
            SyncAction::Finish => ActionView::Finish,
        }
    }
}

/// How the call that the driver made for the last action ended.
#[derive(Clone, Debug, PartialEq, Eq)]
pub enum SyncEvent {
    /// The chat platform created the channel.
    ChannelCreated(DiscordChannel),
    /// The chat platform accepted the message.
    MessagePosted(DiscordMessage),
    /// The feed reader marked the item as read.
    MarkedRead,
    /// The call failed.
    Failed(RequestError),
}

/// The mathematical value of a `SyncEvent`.
pub ghost enum EventView {
    ChannelCreated(ChannelView),
    MessagePosted(MessageView),
    MarkedRead,
    Failed(RequestErrorView),
}

impl View for SyncEvent {
    type V = EventView;

    open spec fn view(&self) -> EventView {
        match self {
            SyncEvent::ChannelCreated(channel) => EventView::ChannelCreated(channel@),
            SyncEvent::MessagePosted(message) => EventView::MessagePosted(message@),
            SyncEvent::MarkedRead => EventView::MarkedRead,
            SyncEvent::Failed(error) => EventView::Failed(error@),
        }
    }
}

/// The failure that ended a run: the position and the identifier of the
/// item that was being processed, and the error of the call that failed.
#[derive(Clone, Debug, PartialEq, Eq)]
pub struct SyncError {
    pub index: usize,
    pub item_id: u64,
    pub error: RequestError,
}

/// The mathematical value of a `SyncError`.
pub ghost struct SyncErrorView {
    pub index: nat,
    pub item_id: u64,
    pub error: RequestErrorView,
}

impl View for SyncError {
    type V = SyncErrorView;

    open spec fn view(&self) -> SyncErrorView {
        SyncErrorView { index: self.index as nat, item_id: self.item_id, error: self.error@ }
    }
}

/// The values of a list of items, in the same order.
pub open spec fn item_views(items: Seq<SelfossItem>) -> Seq<ItemView> {
    items.map_values(|item: SelfossItem| item@)
}

/// The phase of an item whose channel is known: its message is sent if both
/// its raw content and its derived body are non-empty, else it is marked as
/// read at once.
pub open spec fn resolved_phase(content: Seq<char>, body: Seq<char>) -> SyncPhase {
    if content.len() > 0 && body.len() > 0 {
        SyncPhase::SendingMessage
    } else {
        SyncPhase::MarkingRead
    }
}

/// The phase in which the processing of an item starts, given its derived
/// channel name and message body.
pub open spec fn arrival_phase(
    registry: Map<Seq<char>, Seq<char>>,
    name: Seq<char>,
    content: Seq<char>,
    body: Seq<char>,
) -> SyncPhase {
    if registry.contains_key(name) {
        resolved_phase(content, body)
    } else {
        SyncPhase::CreatingChannel
    }
}

/// The state of a run.
pub ghost struct SyncState {
    /// The batch, in the order in which it is processed.
    pub items: Seq<ItemView>,
    /// The channels known so far.
    pub registry: Map<Seq<char>, Seq<char>>,
    /// The position of the current item; the items before it are done.
    pub index: nat,
    pub phase: SyncPhase,
    /// The failure that ended the run, if one did.
    pub failure: Option<SyncErrorView>,
}

impl SyncState {
    /// The item that is being processed.
    pub open spec fn current(self) -> ItemView {
        self.items[self.index as int]
    }

    /// The derived channel name of the current item.
    pub open spec fn name(self) -> Seq<char> {
        channel_name_of(self.current().sourcetitle)
    }

    /// The derived message body of the current item.
    pub open spec fn body(self) -> Seq<char> {
        message_body_of(self.current().content)
    }

    /// Whether the run is over.
    pub open spec fn finished(self) -> bool {
        self.phase == SyncPhase::Done || self.phase == SyncPhase::Failed
    }

    /// The states that a run can be in: the phase fits the current item and
    /// the registry, and a failure is recorded exactly in the failed phase.
    pub open spec fn wf(self) -> bool {
        &&& self.index <= self.items.len()
        &&& (self.phase == SyncPhase::Done <==> self.index == self.items.len())
        &&& (self.phase == SyncPhase::Failed <==> self.failure is Some)
        &&& match self.phase {
            SyncPhase::CreatingChannel => !self.registry.contains_key(self.name()),
            SyncPhase::SendingMessage => {
                &&& self.registry.contains_key(self.name())
                &&& self.current().content.len() > 0
                &&& self.body().len() > 0
            },
            SyncPhase::MarkingRead => self.registry.contains_key(self.name()),
            SyncPhase::Done => true,
            SyncPhase::Failed => {
                &&& self.failure->0.index == self.index
                &&& self.failure->0.item_id == self.current().id
            },
        }
    }

    /// The state on arrival at position `index`: the run is done if the
    /// batch ends there, else the item at `index` becomes the current one.
    pub open spec fn arrive(
        items: Seq<ItemView>,
        registry: Map<Seq<char>, Seq<char>>,
        index: nat,
    ) -> SyncState {
        SyncState {
            items,
            registry,
            index,
            phase: if index >= items.len() {
                SyncPhase::Done
            } else {
                arrival_phase(
                    registry,
                    channel_name_of(items[index as int].sourcetitle),
                    items[index as int].content,
                    message_body_of(items[index as int].content),
                )
            },
            failure: None,
        }
    }

    /// The state in which a run over `items` starts.
    pub open spec fn start(items: Seq<ItemView>, registry: Map<Seq<char>, Seq<char>>) -> SyncState {
        SyncState::arrive(items, registry, 0)
    }

    /// What the driver has to do in this state.
    pub open spec fn pending(self) -> ActionView {
        match self.phase {
            SyncPhase::CreatingChannel => ActionView::CreateChannel { name: self.name() },
            SyncPhase::SendingMessage => ActionView::PostMessage {
                channel_id: self.registry[self.name()],
                content: self.body(),
            },
            SyncPhase::MarkingRead => ActionView::MarkRead { item_id: self.current().id },
            SyncPhase::Done => ActionView::Finish,
            SyncPhase::Failed => ActionView::Finish,
        }
    }

    /// Whether `event` is an answer to the call that this state waits for.
    pub open spec fn answered_by(self, event: EventView) -> bool {
        match (self.phase, event) {
            (SyncPhase::CreatingChannel, EventView::ChannelCreated(_)) => true,
            (SyncPhase::SendingMessage, EventView::MessagePosted(_)) => true,
            (SyncPhase::MarkingRead, EventView::MarkedRead) => true,
            (SyncPhase::CreatingChannel, EventView::Failed(_)) => true,
            (SyncPhase::SendingMessage, EventView::Failed(_)) => true,
            (SyncPhase::MarkingRead, EventView::Failed(_)) => true,
            _ => false,
        }
    }

    /// The state after `event`. A created channel is registered under the
    /// current item's derived name and the item goes on to its message; a
    /// posted message leads to marking the item as read; a marked item leads
    /// to the next one; a failed call ends the run and is recorded with the
    /// current item. An event that does not answer the pending call changes
    /// nothing.
    pub open spec fn step(self, event: EventView) -> SyncState {
        if !self.answered_by(event) {
            self
        } else {
            match event {
                EventView::ChannelCreated(channel) => SyncState {
                    registry: self.registry.insert(self.name(), channel.id),
                    phase: resolved_phase(self.current().content, self.body()),
                    ..self
                },
                EventView::MessagePosted(_) => SyncState { phase: SyncPhase::MarkingRead, ..self },
                EventView::MarkedRead => SyncState::arrive(
                    self.items,
                    self.registry,
                    self.index + 1,
                ),
                EventView::Failed(error) => SyncState {
                    phase: SyncPhase::Failed,
                    failure: Some(
                        SyncErrorView { index: self.index, item_id: self.current().id, error },
                    ),
                    ..self
                },
            }
        }
    }

    /// The result of the run: none while it is going on, then success, or
    /// the failure that ended it.
    pub open spec fn result(self) -> Option<Result<(), SyncErrorView>> {
        match self.phase {
            SyncPhase::Done => Some(Ok(())),
            SyncPhase::Failed => Some(Err(self.failure->0)),
            _ => None,
        }
    }
}

/// Decides what becomes of an item whose channel is known, given its raw
/// content and its derived message body.
pub fn phase_when_resolved(content: &str, body: &str) -> (phase: SyncPhase)
    ensures
        phase == resolved_phase(content@, body@),
{
    if !content.is_empty() && !body.is_empty() {
        SyncPhase::SendingMessage
    } else {
        SyncPhase::MarkingRead
    }
}

/// Decides in which phase the processing of an item starts, given its
/// derived channel name, its raw content and its derived message body.
pub fn phase_on_arrival(
    registry: &ChannelRegistry,
    name: &str,
    content: &str,
    body: &str,
) -> (phase: SyncPhase)
    ensures
        phase == arrival_phase(registry@, name@, content@, body@),
{
    if registry.contains(name) {
        phase_when_resolved(content, body)
    } else {
        SyncPhase::CreatingChannel
    }
}

/// One run of the synchronization routine, as a machine that its driver
/// steps: the driver performs the pending action against the two services
/// and hands the outcome back as an event.
pub struct Synchronizer {
    items: Vec<SelfossItem>,
    registry: ChannelRegistry,
    index: usize,
    phase: SyncPhase,
    /// The derived channel name of the current item.
    name: String,
    /// The derived message body of the current item.
    body: String,
    failure: Option<SyncError>,
}

impl View for Synchronizer {
    type V = SyncState;

    closed spec fn view(&self) -> SyncState {
        SyncState {
            items: item_views(self.items@),
            registry: self.registry@,
            index: self.index as nat,
            phase: self.phase,
            failure: match self.failure {
                Some(failure) => Some(failure@),
                None => None,
            },
        }
    }
}

impl Synchronizer {
    /// The machine is in a state that a run can be in, and what it keeps of
    /// the current item is that item's derived name and body.
    pub closed spec fn wf(&self) -> bool {
        &&& self@.wf()
        &&& self.index < self.items.len() ==> {
            &&& self.name@ == self@.name()
            &&& self.body@ == self@.body()
        }
    }

    /// Starts a run over `items` with the channels that `registry` knows.
    pub fn new(items: Vec<SelfossItem>, registry: ChannelRegistry) -> (run: Synchronizer)
        ensures
            run.wf(),
            run@ == SyncState::start(item_views(items@), registry@),
    {
        let mut run = Synchronizer {
            items,
            registry,
            index: 0,
            phase: SyncPhase::Done,
            name: String::new(),
            body: String::new(),
            failure: None,
        };
        run.arrive();
        run
    }

    /// Makes the item at the current position the current one, or ends the
    /// run if the batch ends there.
    fn arrive(&mut self)
        requires
            old(self).index <= old(self).items.len(),
            old(self).failure is None,
        ensures
            final(self).wf(),
            final(self)@ == SyncState::arrive(old(self)@.items, old(self)@.registry, old(self)@.index),
    {
        if self.index >= self.items.len() {
            self.phase = SyncPhase::Done;
        } else {
            let item = &self.items[self.index];
            let name = derive_channel_name(item.sourcetitle.as_str());
            let body = derive_message_body(item.content.as_str());
            self.phase = phase_on_arrival(
                &self.registry,
                name.as_str(),
                item.content.as_str(),
                body.as_str(),
            );
            self.name = name;
            self.body = body;
        }
    }

    /// Where the run stands.
    pub fn phase(&self) -> (phase: SyncPhase)
        ensures
            phase == self@.phase,
    {
        self.phase
    }

    /// The channels known so far.
    pub fn registry(&self) -> (registry: &ChannelRegistry)
        ensures
            registry@ == self@.registry,
    {
        &self.registry
    }

    /// What the driver has to do now.
    pub fn pending(&self) -> (action: SyncAction)
        requires
            self.wf(),
        ensures
            action@ == self@.pending(),
    {
        match self.phase {
            SyncPhase::CreatingChannel => SyncAction::CreateChannel { name: self.name.clone() },
            SyncPhase::SendingMessage => match self.registry.get(self.name.as_str()) {
                Some(id) => SyncAction::PostMessage {
                    channel_id: id.clone(),
                    content: self.body.clone(),
                },
                None => unreached(),
            },
            SyncPhase::MarkingRead => SyncAction::MarkRead { item_id: self.items[self.index].id },
            SyncPhase::Done => SyncAction::Finish,
            SyncPhase::Failed => SyncAction::Finish,
        }
    }

    /// Takes in the outcome of the call that the driver made for the pending
    /// action, and returns what it has to do next.
    pub fn step(&mut self, event: SyncEvent) -> (action: SyncAction)
        requires
            old(self).wf(),
        ensures
            final(self).wf(),
            final(self)@ == old(self)@.step(event@),
            action@ == final(self)@.pending(),
    {
        match self.phase {
            SyncPhase::Done => {},
            SyncPhase::Failed => {},
            _ => match event {
                SyncEvent::Failed(error) => {
                    let item_id = self.items[self.index].id;
                    self.failure = Some(SyncError { index: self.index, item_id, error });
                    self.phase = SyncPhase::Failed;
                },
                SyncEvent::ChannelCreated(channel) => {
                    if self.phase == SyncPhase::CreatingChannel {
                        self.registry.insert(self.name.clone(), channel.id);
                        self.phase = phase_when_resolved(
                            self.items[self.index].content.as_str(),
                            self.body.as_str(),
                        );
                    }
                },
                SyncEvent::MessagePosted(_) => {
                    if self.phase == SyncPhase::SendingMessage {
                        self.phase = SyncPhase::MarkingRead;
                    }
                },
                SyncEvent::MarkedRead => {
                    if self.phase == SyncPhase::MarkingRead {
                        assert(self.index < self.items.len());
                        self.index = self.index + 1;
                        self.arrive();
                    }
                },
            },
        }
        self.pending()
    }

    /// Ends the run and gives its result: none if the run was not over,
    /// else success, or the failure that ended it.
    pub fn into_result(self) -> (result: Option<Result<(), SyncError>>)
        requires
            self.wf(),
        ensures
            match result {
                Some(Ok(())) => self@.result() == Some(Ok::<(), SyncErrorView>(())),
                Some(Err(failure)) => self@.result() == Some(Err::<(), SyncErrorView>(failure@)),
                None => self@.result() is None,
            },
    {
        match self.phase {
            SyncPhase::Done => Some(Ok(())),
            SyncPhase::Failed => match self.failure {
                Some(failure) => Some(Err(failure)),
                None => unreached(),
            },
            _ => None,
        }
    }
}

} // verus!
