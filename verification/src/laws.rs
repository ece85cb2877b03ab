//! What holds of the handlers over whole runs of commands and events.
//!
//! Every function here is a proof: it states a law over the same functions
//! that the contracts of the handlers are written in, and Verus checks it.

use crate::command::{wrap_i32, CounterMessage, CounterResponse};
use crate::envelope::InboundEvent;
use crate::handlers::{push_outcome, recorded, HandlerError, ReplyView};
use crate::state::StateView;
use vstd::prelude::*;

verus! {

/// The counter after `messages` were applied in order to a counter that
/// stood at `start`.
pub open spec fn counter_after(start: i32, messages: Seq<CounterMessage>) -> i32
    decreases messages.len(),
{
    if messages.len() == 0 {
        start
    } else {
        messages.last().apply(counter_after(start, messages.drop_last()))
    }
}

/// The test for being the command `which`.
pub open spec fn is_command(which: CounterMessage) -> spec_fn(CounterMessage) -> bool {
    |m: CounterMessage| m == which
}

/// How often `which` occurs among `messages`.
pub open spec fn occurrences(messages: Seq<CounterMessage>, which: CounterMessage) -> nat {
    messages.filter(is_command(which)).len()
}

/// The increments among `messages` minus the decrements among them.
pub open spec fn net_change(messages: Seq<CounterMessage>) -> int {
    occurrences(messages, CounterMessage::Increment) - occurrences(
        messages,
        CounterMessage::Decrement,
    )
}

/// One thing that happened to the process: an event, and the payload that
/// came with it if it was a frame.
pub struct Occurrence {
    pub event: InboundEvent,
    pub blob: Option<Seq<u8>>,
}

/// The state after `occurrence` was handled in full: a frame is answered as
/// [`push_outcome`] says, any other event is recorded as [`recorded`] says.
pub open spec fn after_one(pre: StateView, occurrence: Occurrence) -> StateView {
    match occurrence.event {
        InboundEvent::ChannelPush(id) => push_outcome(pre, id, occurrence.blob).0,
        event => recorded(pre, event),
    }
}

/// The state after all of `run` was handled in order, starting in `pre`.
pub open spec fn after_all(pre: StateView, run: Seq<Occurrence>) -> StateView
    decreases run.len(),
{
    if run.len() == 0 {
        pre
    } else {
        after_one(after_all(pre, run.drop_last()), run.last())
    }
}

/// The command that `occurrence` carries: it must be a frame whose payload
/// is a command.
pub open spec fn command_of(occurrence: Occurrence) -> Option<CounterMessage> {
    match (occurrence.event, occurrence.blob) {
        (InboundEvent::ChannelPush(_), Some(payload)) => CounterMessage::decoded(payload),
        _ => None,
    }
}

/// The commands that `run` carries, in order.
pub open spec fn commands_of(run: Seq<Occurrence>) -> Seq<CounterMessage>
    decreases run.len(),
{
    if run.len() == 0 {
        Seq::empty()
    } else {
        match command_of(run.last()) {
            Some(message) => commands_of(run.drop_last()).push(message),
            None => commands_of(run.drop_last()),
        }
    }
}

/// Whether in `run` channel `id` was opened and not closed since.
pub open spec fn open_at_end(run: Seq<Occurrence>, id: u32) -> bool {
    exists|i: int|
        0 <= i < run.len() && (#[trigger] run[i]).event == InboundEvent::ChannelOpen(id) && forall|
            j: int,
        |
            i < j < run.len() ==> (#[trigger] run[j]).event != InboundEvent::ChannelClose(id)
}

/// Wrapping commutes with adding: to wrap, add and wrap again is to add and
/// wrap once.
proof fn lemma_wrap_add(x: int, d: int)
    ensures
        wrap_i32(wrap_i32(x) + d) == wrap_i32(x + d),
{
}

/// One more message moves the net change by its delta.
proof fn lemma_net_change_push(messages: Seq<CounterMessage>, last: CounterMessage)
    ensures
        net_change(messages.push(last)) == net_change(messages) + last.delta(),
{
    messages.lemma_filter_len_push(is_command(CounterMessage::Increment), last);
    messages.lemma_filter_len_push(is_command(CounterMessage::Decrement), last);
}

/// The counter after a run of commands is where it started plus the net
/// change of the run, wrapped.
proof fn lemma_counter_after(start: i32, messages: Seq<CounterMessage>)
    ensures
        counter_after(start, messages) == wrap_i32(start + net_change(messages)),
    decreases messages.len(),
{
    if messages.len() == 0 {
        assert(net_change(messages) == 0) by {
            reveal(Seq::filter);
        }
    } else {
        let front = messages.drop_last();
        let last = messages.last();
        lemma_counter_after(start, front);
        assert(messages == front.push(last));
        lemma_net_change_push(front, last);
        lemma_wrap_add(start + net_change(front), last.delta());
    }
}

/// Starting from 0, the counter after any run of commands is the number of
/// increments minus the number of decrements in the run, as long as that
/// number fits in `i32`; in any case it is that number wrapped into `i32`.
pub proof fn law_counter_is_net_change(messages: Seq<CounterMessage>)
    ensures
        counter_after(0, messages) == wrap_i32(net_change(messages)),
        i32::MIN <= net_change(messages) <= i32::MAX ==> counter_after(0, messages) == net_change(
            messages,
        ),
{
    lemma_counter_after(0, messages);
}

/// Whatever happens to the process, its counter moves by the commands that
/// came in frames, in the order they came and on whatever channel, and by
/// nothing else.
pub proof fn law_only_commands_move_the_counter(pre: StateView, run: Seq<Occurrence>)
    ensures
        after_all(pre, run).counter == counter_after(pre.counter, commands_of(run)),
    decreases run.len(),
{
    if run.len() > 0 {
        law_only_commands_move_the_counter(pre, run.drop_last());
        if let Some(message) = command_of(run.last()) {
            assert(commands_of(run).drop_last() == commands_of(run.drop_last()));
        }
    }
}

/// In a process that started fresh, whatever has happened to it since, the
/// reply to a command reports the increments minus the decrements that came
/// so far, that command included: exactly while that number fits in `i32`,
/// and wrapped into `i32` in any case. The reply goes to the channel the
/// command came on.
pub proof fn law_reply_reports_net_change(run: Seq<Occurrence>, channel_id: u32, payload: Seq<u8>)
    requires
        CounterMessage::decoded(payload) is Some,
    ensures
        ({
            let pre = after_all(StateView::initial(), run);
            let so_far = commands_of(run).push(CounterMessage::decoded(payload).unwrap());
            let value = wrap_i32(net_change(so_far));
            &&& push_outcome(pre, channel_id, Some(payload)).1 == Ok::<ReplyView, HandlerError>(
                ReplyView { channel_id, body: CounterResponse { value }.encoded() },
            )
            &&& i32::MIN <= net_change(so_far) <= i32::MAX ==> value == net_change(so_far)
        }),
{
    let so_far = commands_of(run).push(CounterMessage::decoded(payload).unwrap());
    law_only_commands_move_the_counter(StateView::initial(), run);
    assert(so_far.drop_last() == commands_of(run));
    lemma_counter_after(0, so_far);
}

/// A `Get` changes nothing and reports the counter as it stands. So does any
/// number of them in a row, on whatever channels: each gets the same value.
pub proof fn law_get_changes_nothing(pre: StateView, run: Seq<Occurrence>)
    requires
        forall|i: int|
            0 <= i < run.len() ==> (#[trigger] run[i]).event is ChannelPush && command_of(run[i])
                == Some(CounterMessage::Get),
    ensures
        after_all(pre, run) == pre,
        forall|i: int|
            0 <= i < run.len() ==> push_outcome(
                pre,
                (#[trigger] run[i]).event->ChannelPush_0,
                run[i].blob,
            ) == (
                pre,
                Ok::<ReplyView, HandlerError>(
                    ReplyView {
                        channel_id: run[i].event->ChannelPush_0,
                        body: CounterResponse { value: pre.counter }.encoded(),
                    },
                ),
            ),
    decreases run.len(),
{
    if run.len() > 0 {
        let front = run.drop_last();
        assert forall|i: int| 0 <= i < front.len() implies (#[trigger] front[i]).event
            is ChannelPush && command_of(front[i]) == Some(CounterMessage::Get) by {
            assert(front[i] == run[i]);
        }
        law_get_changes_nothing(pre, front);
        assert(run.last() == run[run.len() - 1]);
    }
}

/// After a channel was opened the registry holds it; after it was closed the
/// registry does not; to close a channel that is not open, or to open one
/// that is, changes nothing; and neither touches another channel or the
/// counter.
pub proof fn law_channel_lifecycle(pre: StateView, id: u32, other: u32)
    ensures
        pre.opened(id).open_channels.contains(id),
        !pre.opened(id).closed(id).open_channels.contains(id),
        !pre.open_channels.contains(id) ==> pre.closed(id) == pre,
        pre.open_channels.contains(id) ==> pre.opened(id) == pre,
        other != id ==> pre.opened(id).open_channels.contains(other) == pre.open_channels.contains(
            other,
        ),
        other != id ==> pre.closed(id).open_channels.contains(other) == pre.open_channels.contains(
            other,
        ),
        pre.opened(id).counter == pre.counter,
        pre.closed(id).counter == pre.counter,
{
    if pre.open_channels.contains(id) {
        assert(pre.open_channels.insert(id) =~= pre.open_channels);
    } else {
        assert(pre.open_channels.remove(id) =~= pre.open_channels);
    }
}

/// In a process that started fresh, whatever has happened to it since, the
/// registry holds exactly the channels that were opened and not closed
/// since.
pub proof fn law_registry_mirrors_lifecycle(run: Seq<Occurrence>, id: u32)
    ensures
        after_all(StateView::initial(), run).open_channels.contains(id) <==> open_at_end(run, id),
    decreases run.len(),
{
    if run.len() > 0 {
        let front = run.drop_last();
        let last = run.last();
        let n = front.len() as int;
        law_registry_mirrors_lifecycle(front, id);
        assert(run[n] == last);
        assert forall|i: int| 0 <= i < n implies #[trigger] run[i] == front[i] by {}
        if last.event == InboundEvent::ChannelOpen(id) {
            assert(open_at_end(run, id));
        } else if last.event == InboundEvent::ChannelClose(id) {
            assert(!open_at_end(run, id));
        } else {
            assert(after_all(StateView::initial(), run).open_channels.contains(id) == after_all(
                StateView::initial(),
                front,
            ).open_channels.contains(id));
            if open_at_end(front, id) {
                let i = choose|i: int|
                    0 <= i < front.len() && (#[trigger] front[i]).event
                        == InboundEvent::ChannelOpen(id) && forall|j: int|
                        i < j < front.len() ==> (#[trigger] front[j]).event
                            != InboundEvent::ChannelClose(id);
                assert(run[i].event == InboundEvent::ChannelOpen(id));
                assert forall|j: int| i < j < run.len() implies (#[trigger] run[j]).event
                    != InboundEvent::ChannelClose(id) by {
                    if j < n {
                        assert(run[j] == front[j]);
                    }
                }
                assert(open_at_end(run, id));
            }
            if open_at_end(run, id) {
                let i = choose|i: int|
                    0 <= i < run.len() && (#[trigger] run[i]).event == InboundEvent::ChannelOpen(
                        id,
                    ) && forall|j: int|
                        i < j < run.len() ==> (#[trigger] run[j]).event
                            != InboundEvent::ChannelClose(id);
                assert(i < n);
                assert(front[i].event == InboundEvent::ChannelOpen(id));
                assert forall|j: int| i < j < front.len() implies (#[trigger] front[j]).event
                    != InboundEvent::ChannelClose(id) by {
                    assert(run[j] == front[j]);
                }
                assert(open_at_end(front, id));
            }
        }
    }
}

/// A frame without a payload, or with a payload that is no command, gets no
/// reply and leaves the state as it was.
pub proof fn law_malformed_frame_changes_nothing(
    pre: StateView,
    channel_id: u32,
    blob: Option<Seq<u8>>,
)
    requires
        blob matches Some(payload) ==> CounterMessage::decoded(payload) is None,
    ensures
        push_outcome(pre, channel_id, blob).0 == pre,
        push_outcome(pre, channel_id, blob).1 is Err,
{
}

/// The counter is one for all channels: after a command came on channel
/// `a`, a `Get` on channel `b` is told the counter that the command left,
/// whether or not the two channels are the same, and whether or not they
/// are open.
pub proof fn law_counter_is_shared(pre: StateView, a: u32, command: Seq<u8>, b: u32, get: Seq<u8>)
    requires
        CounterMessage::decoded(command) is Some,
        CounterMessage::decoded(get) == Some(CounterMessage::Get),
    ensures
        ({
            let message = CounterMessage::decoded(command).unwrap();
            let mid = push_outcome(pre, a, Some(command)).0;
            push_outcome(mid, b, Some(get)).1 == Ok::<ReplyView, HandlerError>(
                ReplyView {
                    channel_id: b,
                    body: CounterResponse { value: message.apply(pre.counter) }.encoded(),
                },
            )
        }),
{
}

} // verus!
