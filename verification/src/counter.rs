//! An integer counter that messages step up and down.

use vstd::prelude::*;

verus! {

/// A counter over `i32`.
pub struct Counter {
    pub val: i32,
}

/// The two ways to step a counter.
#[derive(Debug, Clone, Copy, PartialEq, Eq, Structural)]
pub enum Message {
    Increment,
    Decrement,
}

impl Counter {
    /// The value that `message` moves `val` to.
    pub open spec fn stepped(val: int, message: Message) -> int {
        match message {
            Message::Increment => val + 1,
            Message::Decrement => val - 1,
        }
    }

    /// A counter that starts at `val`.
    pub fn new(val: i32) -> (counter: Self)
        ensures
            counter.val == val,
    {
        Self { val }
    }

    /// Steps the counter by one, up or down as `message` says. The step must
    /// stay within `i32`.
    pub fn update(&mut self, message: Message)
        requires
            i32::MIN <= Self::stepped(old(self).val as int, message) <= i32::MAX,
        ensures
            final(self).val == Self::stepped(old(self).val as int, message),
    {
        match message {
            Message::Increment => self.val += 1,
            Message::Decrement => self.val -= 1,
        }
    }
}

} // verus!
