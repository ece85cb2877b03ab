//! The process state: the shared counter and the registry of open channels.

use crate::command::{CounterMessage, CounterResponse};
use std::collections::HashSet;
use vstd::prelude::*;

verus! {

/// What a [`State`] stands for.
pub struct StateView {
    /// The counter, shared by all channels.
    pub counter: i32,
    /// The ids of the channels that were opened and not closed since.
    pub open_channels: Set<u32>,
}

impl StateView {
    /// The state a process starts with.
    pub open spec fn initial() -> StateView {
        StateView { counter: 0, open_channels: Set::empty() }
    }

    /// The state after channel `channel_id` was opened.
    pub open spec fn opened(self, channel_id: u32) -> StateView {
        StateView { open_channels: self.open_channels.insert(channel_id), ..self }
    }

    /// The state after channel `channel_id` was closed.
    pub open spec fn closed(self, channel_id: u32) -> StateView {
        StateView { open_channels: self.open_channels.remove(channel_id), ..self }
    }

    /// The state after `message` was applied to the counter.
    pub open spec fn applied(self, message: CounterMessage) -> StateView {
        StateView { counter: message.apply(self.counter), ..self }
    }
}

/// The single long-lived value a process owns.
pub struct State {
    counter: i32,
    ws_channels: HashSet<u32>,
}

impl View for State {
    type V = StateView;

    closed spec fn view(&self) -> StateView {
        StateView { counter: self.counter, open_channels: self.ws_channels@ }
    }
}

impl State {
    /// A fresh state: the counter is 0 and no channel is open.
    pub fn new() -> (s: State)
        ensures
            s@ == StateView::initial(),
    {
        State { counter: 0, ws_channels: HashSet::new() }
    }

    /// The current value of the counter.
    pub fn counter(&self) -> (value: i32)
        ensures
            value == self@.counter,
    {
        self.counter
    }

    /// Whether channel `channel_id` is open.
    pub fn is_open(&self, channel_id: u32) -> (open: bool)
        ensures
            open == self@.open_channels.contains(channel_id),
    {
        self.ws_channels.contains(&channel_id)
    }

    /// Records that channel `channel_id` was opened. Opening an open channel
    /// changes nothing.
    pub fn record_open(&mut self, channel_id: u32)
        ensures
            final(self)@ == old(self)@.opened(channel_id),
    {
        self.ws_channels.insert(channel_id);
    }

    /// Records that channel `channel_id` was closed. Closing a channel that
    /// is not open changes nothing.
    pub fn record_close(&mut self, channel_id: u32)
        ensures
            final(self)@ == old(self)@.closed(channel_id),
    {
        self.ws_channels.remove(&channel_id);
    }

    /// Applies `message` to the counter and returns the reply to send back.
    pub fn apply(&mut self, message: CounterMessage) -> (response: CounterResponse)
        ensures
            final(self)@ == old(self)@.applied(message),
            response.value == final(self)@.counter,
    {
        self.counter = message.apply_to(self.counter);
        CounterResponse { value: self.counter }
    }
}

} // verus!
