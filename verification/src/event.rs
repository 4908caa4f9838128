//! What reaches the application loop: key presses and ticks.

use vstd::prelude::*;

verus! {

/// A key, as far as the launcher tells keys apart.
#[derive(Clone, Copy, Debug, PartialEq, Eq, Structural)]
pub enum Key {
    /// A key that types a character.
    Char(char),
    Down,
    Up,
    Enter,
    /// Any key that the launcher gives no meaning to.
    Other,
}

/// A key press: the key, and the name under which the terminal reports it.
#[derive(Clone, Debug, PartialEq, Eq)]
pub struct KeyPress {
    pub key: Key,
    pub label: String,
}

/// What the event source hands to the application loop.
#[derive(Clone, Debug, PartialEq, Eq)]
pub enum Event {
    /// A key was pressed.
    Input(KeyPress),
    /// The tick interval went by.
    Tick,
}

/// How long the event source may wait for a key before the next tick is due:
/// what is left of the tick interval, and nothing once it has gone by.
pub open spec fn time_left(tick_rate: nat, elapsed: nat) -> nat {
    if elapsed >= tick_rate {
        0
    } else {
        (tick_rate - elapsed) as nat
    }
}

/// How long to wait for a key, given the tick interval and the time since the
/// last tick, both in the same unit. The wait ends when the next tick is due
/// and not before, and is zero exactly when a tick is due already.
pub fn poll_window(tick_rate: u64, elapsed: u64) -> (window: u64)
    ensures
        window == time_left(tick_rate as nat, elapsed as nat),
        window <= tick_rate,
        elapsed + window >= tick_rate,
        window == 0 <==> tick_due(tick_rate, elapsed),
{
    if elapsed >= tick_rate {
        0
    } else {
        tick_rate - elapsed
    }
}

/// Whether the tick interval has gone by since the last tick.
#[verifier::when_used_as_spec(spec_tick_due)]
pub fn tick_due(tick_rate: u64, elapsed: u64) -> (due: bool)
    ensures
        due == spec_tick_due(tick_rate, elapsed),
{
    elapsed >= tick_rate
}

/// Whether the tick interval has gone by since the last tick.
pub open spec fn spec_tick_due(tick_rate: u64, elapsed: u64) -> bool {
    elapsed >= tick_rate
}

} // verus!
