use crate::discord::errors::RequestErrorView;
use crate::discord::models::ChannelView;
use crate::selfoss::models::{channel_name_of, message_body_of, ItemView};
use crate::sync::{ActionView, EventView, SyncErrorView, SyncPhase, SyncState};
use vstd::prelude::*;

verus! {

/// The state that a run reaches from `from` when the driver hands in
/// `events` one after the other.
pub open spec fn run(from: SyncState, events: Seq<EventView>) -> SyncState
    decreases events.len(),
{
    if events.len() == 0 {
        from
    } else {
        run(from, events.drop_last()).step(events.last())
    }
}

/// Whether the driver kept to its part: every event answers the call that
/// was pending when it was handed in.
pub open spec fn proper(from: SyncState, events: Seq<EventView>) -> bool
    decreases events.len(),
{
    events.len() == 0 || (proper(from, events.drop_last()) && run(
        from,
        events.drop_last(),
    ).answered_by(events.last()))
}

/// The identifiers that the driver was told to mark as read, one for each
/// event that found such a call pending, in the order of the calls.
pub open spec fn acknowledged(from: SyncState, events: Seq<EventView>) -> Seq<u64>
    decreases events.len(),
{
    if events.len() == 0 {
        Seq::empty()
    } else {
        let earlier = acknowledged(from, events.drop_last());
        match run(from, events.drop_last()).pending() {
            ActionView::MarkRead { item_id } => earlier.push(item_id),
            _ => earlier,
        }
    }
}

/// The names of the channels that the driver was told to create, one for
/// each event that found such a call pending, in the order of the calls.
pub open spec fn requested(from: SyncState, events: Seq<EventView>) -> Seq<Seq<char>>
    decreases events.len(),
{
    if events.len() == 0 {
        Seq::empty()
    } else {
        let earlier = requested(from, events.drop_last());
        match run(from, events.drop_last()).pending() {
            ActionView::CreateChannel { name } => earlier.push(name),
            _ => earlier,
        }
    }
}

/// The identifiers of a list of items, in the same order.
pub open spec fn item_ids(items: Seq<ItemView>) -> Seq<u64> {
    items.map_values(|item: ItemView| item.id)
}

/// A step keeps a state within the states of a run, keeps the batch, never
/// goes back in it, and keeps every channel that is registered.
pub proof fn lemma_step_keeps_wf(state: SyncState, event: EventView)
    requires
        state.wf(),
    ensures
        state.step(event).wf(),
        state.step(event).items == state.items,
        state.step(event).index >= state.index,
        state.registry.submap_of(state.step(event).registry),
{
}

/// However a run goes on, it stays within the states of a run, keeps the
/// batch, and keeps every channel that is registered, with its identifier.
pub proof fn lemma_run_keeps_wf(from: SyncState, events: Seq<EventView>)
    requires
        from.wf(),
    ensures
        run(from, events).wf(),
        run(from, events).items == from.items,
        run(from, events).index >= from.index,
        from.registry.submap_of(run(from, events).registry),
    decreases events.len(),
{
    if events.len() > 0 {
        let before = run(from, events.drop_last());
        lemma_run_keeps_wf(from, events.drop_last());
        lemma_step_keeps_wf(before, events.last());
        assert forall|name: Seq<char>| #[trigger] from.registry.dom().contains(name) implies run(
            from,
            events,
        ).registry.dom().contains(name) && from.registry[name] == run(from, events).registry[name] by {
            assert(before.registry.dom().contains(name));
        }
    }
}

/// A run that is over stays as it is, whatever is handed in, and asks for
/// nothing more.
pub proof fn lemma_finished_run_stays(from: SyncState, events: Seq<EventView>)
    requires
        from.finished(),
    ensures
        run(from, events) == from,
        acknowledged(from, events) == Seq::<u64>::empty(),
        requested(from, events) == Seq::<Seq<char>>::empty(),
    decreases events.len(),
{
    if events.len() > 0 {
        lemma_finished_run_stays(from, events.drop_last());
    }
}

/// The most calls that a run in this state can still ask for: three for
/// each item yet to come, less what the current item has behind it.
pub open spec fn calls_left(state: SyncState) -> int {
    let items_left = state.items.len() - state.index;
    match state.phase {
        SyncPhase::CreatingChannel => 3 * items_left,
        SyncPhase::SendingMessage => 3 * items_left - 1,
        SyncPhase::MarkingRead => 3 * items_left - 2,
        SyncPhase::Done => 0,
        SyncPhase::Failed => 0,
    }
}

/// A run comes to its end: every answered call brings it closer, so a
/// driver that keeps to its part makes at most three calls for each item.
pub proof fn lemma_run_is_bounded(
    items: Seq<ItemView>,
    registry: Map<Seq<char>, Seq<char>>,
    events: Seq<EventView>,
)
    requires
        proper(SyncState::start(items, registry), events),
    ensures
        0 <= calls_left(run(SyncState::start(items, registry), events)),
        events.len() + calls_left(run(SyncState::start(items, registry), events)) <= 3
            * items.len(),
    decreases events.len(),
{
    let from = SyncState::start(items, registry);
    if events.len() > 0 {
        lemma_run_is_bounded(items, registry, events.drop_last());
        lemma_run_keeps_wf(from, events.drop_last());
    }
}

/// A run in two parts: the second part goes on from the state that the
/// first part reached, and what was asked for is what the two parts asked
/// for.
pub proof fn lemma_run_in_two_parts(from: SyncState, first: Seq<EventView>, second: Seq<EventView>)
    ensures
        run(from, first + second) == run(run(from, first), second),
        acknowledged(from, first + second) == acknowledged(from, first) + acknowledged(
            run(from, first),
            second,
        ),
        requested(from, first + second) == requested(from, first) + requested(
            run(from, first),
            second,
        ),
        proper(from, first + second) <==> proper(from, first) && proper(run(from, first), second),
    decreases second.len(),
{
    if second.len() > 0 {
        assert((first + second).drop_last() == first + second.drop_last());
        lemma_run_in_two_parts(from, first, second.drop_last());
    }
}

/// While a run in which the driver kept to its part has not failed, the
/// items that were handed over to be marked as read are exactly the items
/// before the current one, each once and in the order of the batch.
pub proof fn lemma_acknowledged_items(
    items: Seq<ItemView>,
    registry: Map<Seq<char>, Seq<char>>,
    events: Seq<EventView>,
)
    requires
        proper(SyncState::start(items, registry), events),
    ensures
        ({
            let reached = run(SyncState::start(items, registry), events);
            reached.phase != SyncPhase::Failed ==> acknowledged(
                SyncState::start(items, registry),
                events,
            ) == item_ids(items.take(reached.index as int))
        }),
    decreases events.len(),
{
    if events.len() > 0 {
        lemma_acknowledged_items(items, registry, events.drop_last());
        lemma_run_keeps_wf(SyncState::start(items, registry), events.drop_last());
    }
}

/// When a run in which the driver kept to its part is over without a
/// failure, every item of the batch was handed over to be marked as read,
/// each once and in the order of the batch.
pub proof fn lemma_done_run_acknowledged_all(
    items: Seq<ItemView>,
    registry: Map<Seq<char>, Seq<char>>,
    events: Seq<EventView>,
)
    requires
        proper(SyncState::start(items, registry), events),
        run(SyncState::start(items, registry), events).phase == SyncPhase::Done,
    ensures
        run(SyncState::start(items, registry), events).result() == Some(
            Ok::<(), SyncErrorView>(()),
        ),
        acknowledged(SyncState::start(items, registry), events) == item_ids(items),
{
    let from = SyncState::start(items, registry);
    lemma_run_keeps_wf(from, events);
    lemma_acknowledged_items(items, registry, events);
}

/// When a call fails, whichever it is, the run ends with a failure that
/// names the current item and carries the error. The items before it were
/// handed over to be marked as read, and the current one only if it was its
/// marking that failed. Whatever the driver hands in afterwards, the run
/// stays as it is and nothing more is asked for.
pub proof fn lemma_failure_ends_run(
    items: Seq<ItemView>,
    registry: Map<Seq<char>, Seq<char>>,
    events: Seq<EventView>,
    error: RequestErrorView,
    more: Seq<EventView>,
)
    requires
        proper(SyncState::start(items, registry), events),
        !run(SyncState::start(items, registry), events).finished(),
    ensures
        ({
            let from = SyncState::start(items, registry);
            let before = run(from, events);
            let k = before.index as int;
            let failed = events.push(EventView::Failed(error));
            &&& 0 <= k < items.len()
            &&& proper(from, failed)
            &&& run(from, failed).result() == Some(
                Err::<(), SyncErrorView>(
                    SyncErrorView { index: k as nat, item_id: items[k].id, error },
                ),
            )
            &&& run(from, failed).pending() == ActionView::Finish
            &&& run(from, failed + more) == run(from, failed)
            &&& requested(from, failed + more) == requested(from, failed)
            &&& acknowledged(from, failed + more) == if before.phase == SyncPhase::MarkingRead {
                item_ids(items.take(k + 1))
            } else {
                item_ids(items.take(k))
            }
        }),
{
    let from = SyncState::start(items, registry);
    let failed = events.push(EventView::Failed(error));
    assert(failed.drop_last() == events);
    lemma_run_keeps_wf(from, events);
    lemma_acknowledged_items(items, registry, events);
    lemma_run_in_two_parts(from, failed, more);
    lemma_finished_run_stays(run(from, failed), more);
}

/// When the sending of item k's message fails, the run ends with a failure
/// that names item k and carries the error; the items before k, and no
/// others, were handed over to be marked as read; and whatever the driver
/// hands in afterwards, the run stays as it is and nothing more is asked
/// for.
pub proof fn lemma_failed_send_ends_run(
    items: Seq<ItemView>,
    registry: Map<Seq<char>, Seq<char>>,
    events: Seq<EventView>,
    error: RequestErrorView,
    more: Seq<EventView>,
)
    requires
        proper(SyncState::start(items, registry), events),
        run(SyncState::start(items, registry), events).phase == SyncPhase::SendingMessage,
    ensures
        ({
            let from = SyncState::start(items, registry);
            let k = run(from, events).index as int;
            let failed = events.push(EventView::Failed(error));
            &&& 0 <= k < items.len()
            &&& run(from, failed).result() == Some(
                Err::<(), SyncErrorView>(
                    SyncErrorView { index: k as nat, item_id: items[k].id, error },
                ),
            )
            &&& run(from, failed).pending() == ActionView::Finish
            &&& run(from, failed + more) == run(from, failed)
            &&& acknowledged(from, failed + more) == item_ids(items.take(k))
        }),
{
    lemma_failure_ends_run(items, registry, events, error, more);
}

/// When the run arrives at an item whose derived channel name the registry
/// does not know, the creation of that channel is asked for. Once the chat
/// platform returns the channel, the returned identifier is registered
/// under that name and is the one the item's message goes to; and however
/// the run goes on, the name keeps that identifier, its creation is never
/// asked for again, and the message of every later item with that name goes
/// to the same identifier.
pub proof fn lemma_created_channel_is_reused(
    items: Seq<ItemView>,
    registry: Map<Seq<char>, Seq<char>>,
    index: nat,
    channel: ChannelView,
    more: Seq<EventView>,
)
    requires
        index < items.len(),
        !registry.contains_key(channel_name_of(items[index as int].sourcetitle)),
    ensures
        ({
            let item = items[index as int];
            let name = channel_name_of(item.sourcetitle);
            let body = message_body_of(item.content);
            let arrived = SyncState::arrive(items, registry, index);
            let created = arrived.step(EventView::ChannelCreated(channel));
            let later = run(created, more);
            &&& arrived.pending() == ActionView::CreateChannel { name }
            &&& created.registry == registry.insert(name, channel.id)
            &&& created.pending() == if item.content.len() > 0 && body.len() > 0 {
                ActionView::PostMessage { channel_id: channel.id, content: body }
            } else {
                ActionView::MarkRead { item_id: item.id }
            }
            &&& later.registry.contains_key(name)
            &&& later.registry[name] == channel.id
            &&& later.pending() != ActionView::CreateChannel { name }
            &&& later.phase == SyncPhase::SendingMessage && later.name() == name ==> later.pending()
                == ActionView::PostMessage { channel_id: channel.id, content: later.body() }
        }),
{
    let name = channel_name_of(items[index as int].sourcetitle);
    let arrived = SyncState::arrive(items, registry, index);
    let created = arrived.step(EventView::ChannelCreated(channel));
    assert(arrived.name() == name);
    lemma_step_keeps_wf(arrived, EventView::ChannelCreated(channel));
    lemma_run_keeps_wf(created, more);
    assert(created.registry.dom().contains(name));
}

/// In a run in which the driver kept to its part, no channel name is asked
/// for twice, and none that the registry knew when the run started.
pub proof fn lemma_no_channel_requested_twice(
    items: Seq<ItemView>,
    registry: Map<Seq<char>, Seq<char>>,
    events: Seq<EventView>,
)
    requires
        proper(SyncState::start(items, registry), events),
    ensures
        requested(SyncState::start(items, registry), events).no_duplicates(),
        forall|i: int|
            0 <= i < requested(SyncState::start(items, registry), events).len()
                ==> !registry.contains_key(
                #[trigger] requested(SyncState::start(items, registry), events)[i],
            ),
{
    lemma_requested_names(items, registry, events);
}

/// The names asked for so far are distinct and were unknown at the start;
/// while the run has not failed, each of them is registered by now.
proof fn lemma_requested_names(
    items: Seq<ItemView>,
    registry: Map<Seq<char>, Seq<char>>,
    events: Seq<EventView>,
)
    requires
        proper(SyncState::start(items, registry), events),
    ensures
        ({
            let from = SyncState::start(items, registry);
            let names = requested(from, events);
            &&& names.no_duplicates()
            &&& forall|i: int| 0 <= i < names.len() ==> !registry.contains_key(#[trigger] names[i])
            &&& run(from, events).phase != SyncPhase::Failed ==> forall|i: int|
                0 <= i < names.len() ==> run(from, events).registry.contains_key(
                    #[trigger] names[i],
                )
        }),
    decreases events.len(),
{
    let from = SyncState::start(items, registry);
    if events.len() > 0 {
        let before = run(from, events.drop_last());
        lemma_requested_names(items, registry, events.drop_last());
        lemma_run_keeps_wf(from, events.drop_last());
        lemma_step_keeps_wf(before, events.last());
    }
}

/// An item with a message is handed over to be marked as read only when
/// the call before was the sending of its message, and that call succeeded.
pub proof fn lemma_mark_follows_send(
    items: Seq<ItemView>,
    registry: Map<Seq<char>, Seq<char>>,
    events: Seq<EventView>,
)
    requires
        proper(SyncState::start(items, registry), events),
        run(SyncState::start(items, registry), events).phase == SyncPhase::MarkingRead,
        run(SyncState::start(items, registry), events).current().content.len() > 0,
        run(SyncState::start(items, registry), events).body().len() > 0,
    ensures
        events.len() > 0,
        events.last() is MessagePosted,
        run(SyncState::start(items, registry), events.drop_last()).phase
            == SyncPhase::SendingMessage,
        run(SyncState::start(items, registry), events.drop_last()).index == run(
            SyncState::start(items, registry),
            events,
        ).index,
{
    let from = SyncState::start(items, registry);
    if events.len() > 0 {
        lemma_run_keeps_wf(from, events.drop_last());
    }
}

/// An item without content, or whose content holds no text, is never sent:
/// once its channel is known it is handed over to be marked as read.
pub proof fn lemma_empty_item_is_marked_unsent(state: SyncState, channel: ChannelView)
    requires
        state.wf(),
        !state.finished(),
        state.current().content.len() == 0 || state.body().len() == 0,
    ensures
        state.phase != SyncPhase::SendingMessage,
        state.phase == SyncPhase::CreatingChannel ==> state.step(
            EventView::ChannelCreated(channel),
        ).pending() == (ActionView::MarkRead { item_id: state.current().id }),
        state.phase == SyncPhase::MarkingRead ==> state.pending() == (ActionView::MarkRead {
            item_id: state.current().id,
        }),
{
}

} // verus!
