//! A counter driven by increment and decrement messages.

use vstd::prelude::*;

verus! {

/// The interactions a counter reacts to.
#[derive(Debug, Clone, Copy, PartialEq, Eq, Structural)]
pub enum Message {
    Increment,
    Decrement,
}

#[derive(Debug, Clone, Copy, PartialEq, Eq, Structural)]
pub struct Counter {
    pub value: i32,
}

impl Default for Counter {
    /// The counter starts at zero.
    fn default() -> (c: Counter)
        ensures
            c.value == 0,
    {
        Counter { value: 0 }
    }
}

impl Counter {
    pub fn new() -> (c: Counter)
        ensures
            c.value == 0,
    {
        Counter { value: 0 }
    }

    /// Applies one message to the state: increment adds one, decrement
    /// subtracts one.
    pub fn update(&mut self, message: Message)
        requires
            message is Increment ==> old(self).value < i32::MAX,
            message is Decrement ==> old(self).value > i32::MIN,
        ensures
            final(self).value == match message {
                Message::Increment => old(self).value + 1,
                Message::Decrement => old(self).value - 1,
            },
    {
        match message {
            Message::Increment => {
                self.value = self.value + 1;
            },
            Message::Decrement => {
                self.value = self.value - 1;
            },
        }
    }
}

} // verus!
