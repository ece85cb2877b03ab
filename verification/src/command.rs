//! The commands a client can send, the reply it gets, and how both look on
//! the wire.
//!
//! A command travels as a JSON string that names it: `"Get"`, `"Increment"`
//! or `"Decrement"`. A reply travels as the JSON object `{"value":N}`, where
//! `N` is the counter in decimal.

use crate::json::{json_integer, json_string, parse_json_string, write_json_integer};
use vstd::prelude::*;

verus! {

/// A command sent over a channel.
#[derive(Clone, Copy, Debug, PartialEq, Eq, Structural)]
pub enum CounterMessage {
    Get,
    Increment,
    Decrement,
}

/// The reply to every command: the counter after the command was applied.
#[derive(Clone, Copy, Debug, PartialEq, Eq, Structural)]
pub struct CounterResponse {
    pub value: i32,
}

/// The value in `i32` that is congruent to `x` modulo 2^32.
pub open spec fn wrap_i32(x: int) -> i32 {
    let r = x % 0x1_0000_0000;
    if r > i32::MAX {
        (r - 0x1_0000_0000) as i32
    } else {
        r as i32
    }
}

/// The bytes `{"value":`, with which every reply starts.
pub open spec fn reply_head() -> Seq<u8> {
    seq![0x7bu8, 0x22u8, 0x76u8, 0x61u8, 0x6cu8, 0x75u8, 0x65u8, 0x22u8, 0x3au8]
}

impl CounterMessage {
    /// By how much the command moves the counter, before wrapping.
    pub open spec fn delta(self) -> int {
        match self {
            CounterMessage::Get => 0,
            CounterMessage::Increment => 1,
            CounterMessage::Decrement => -1,
        }
    }

    /// The counter after the command. It wraps around at the ends of `i32`.
    pub open spec fn apply(self, counter: i32) -> i32 {
        wrap_i32(counter + self.delta())
    }

    /// The command that `tag` names, if it names one.
    pub open spec fn tagged(tag: Seq<char>) -> Option<CounterMessage> {
        if tag == "Get"@ {
            Some(CounterMessage::Get)
        } else if tag == "Increment"@ {
            Some(CounterMessage::Increment)
        } else if tag == "Decrement"@ {
            Some(CounterMessage::Decrement)
        } else {
            None
        }
    }

    /// The command that the bytes of a payload stand for: they must be a
    /// JSON string whose content names a command.
    pub open spec fn decoded(payload: Seq<u8>) -> Option<CounterMessage> {
        match json_string(payload) {
            Some(tag) => CounterMessage::tagged(tag),
            None => None,
        }
    }

    /// Applies the command to a counter that stands at `counter`.
    pub fn apply_to(self, counter: i32) -> (next: i32)
        ensures
            next == self.apply(counter),
    {
        match self {
            CounterMessage::Get => counter,
            CounterMessage::Increment => counter.wrapping_add(1),
            CounterMessage::Decrement => counter.wrapping_sub(1),
        }
    }

    /// Finds the command that `tag` names. The match is exact: case and
    /// surrounding space count.
    pub fn from_tag(tag: &str) -> (message: Option<CounterMessage>)
        ensures
            message == CounterMessage::tagged(tag@),
    {
        let tag = tag.to_owned();
        if tag == "Get".to_owned() {
            Some(CounterMessage::Get)
        } else if tag == "Increment".to_owned() {
            Some(CounterMessage::Increment)
        } else if tag == "Decrement".to_owned() {
            Some(CounterMessage::Decrement)
        } else {
            None
        }
    }

    /// Decodes the payload of a push. `None` means that the payload is not a
    /// command; an empty payload never is.
    pub fn decode(payload: &[u8]) -> (message: Option<CounterMessage>)
        ensures
            message == CounterMessage::decoded(payload@),
            payload@.len() == 0 ==> message is None,
    {
        match parse_json_string(payload) {
            Ok(tag) => CounterMessage::from_tag(tag.as_str()),
            Err(_) => None,
        }
    }
}

impl CounterResponse {
    /// The bytes of the reply: `{"value":`, the value in decimal, `}`.
    pub open spec fn encoded(self) -> Seq<u8> {
        reply_head() + json_integer(self.value as int) + seq![0x7du8]
    }

    /// Encodes the reply for the wire.
    pub fn encode(&self) -> (bytes: Vec<u8>)
        ensures
            bytes@ == self.encoded(),
    {
        let mut digits = write_json_integer(self.value).unwrap();
        let mut bytes: Vec<u8> = Vec::new();
        bytes.push(0x7b);
        bytes.push(0x22);
        bytes.push(0x76);
        bytes.push(0x61);
        bytes.push(0x6c);
        bytes.push(0x75);
        bytes.push(0x65);
        bytes.push(0x22);
        bytes.push(0x3a);
        assert(bytes@ == reply_head());
        bytes.append(&mut digits);
        bytes.push(0x7d);
        bytes
    }
}

} // verus!
