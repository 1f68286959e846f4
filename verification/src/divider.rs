//! A clock divider: emits one tick out of every `period + 1` input clocks.

use vstd::prelude::*;

verus! {

#[derive(Clone, Copy, Debug, PartialEq, Eq, Structural)]
pub struct Divider {
    pub period_reload_val: u8,
    pub counter: u8,
}

/// State after one input clock: a spent counter reloads, otherwise it counts
/// down.
pub open spec fn spec_divider_clock(d: Divider) -> Divider {
    if d.counter == 0 {
        Divider { counter: d.period_reload_val, ..d }
    } else {
        Divider { counter: (d.counter - 1) as u8, ..d }
    }
}

impl Divider {
    pub fn new() -> (d: Divider)
        ensures
            d == (Divider { period_reload_val: 0, counter: 0 }),
    {
        Divider { period_reload_val: 0, counter: 0 }
    }

    pub fn clock(&mut self)
        ensures
            *final(self) == spec_divider_clock(*old(self)),
    {
        if self.counter == 0 {
            self.counter = self.period_reload_val;
        } else {
            self.counter = self.counter - 1;
        }
    }
}

} // verus!
