//! The pull resistor of an I/O pad, as its two enable bits.

use vstd::prelude::*;

verus! {

/// Pull-up/down configuration for a pad.
#[derive(Clone, Copy, Debug, PartialEq, Eq, Structural)]
pub enum Pull {
    /// Neither resistor is enabled.
    Floating,
    /// The pull-up resistor is enabled.
    Up,
    /// The pull-down resistor is enabled.
    Down,
}

/// The pull-up and pull-down enable bits that select a configuration.
pub open spec fn enable_bits(pull: Pull) -> (bool, bool) {
    match pull {
        Pull::Floating => (false, false),
        Pull::Up => (true, false),
        Pull::Down => (false, true),
    }
}

/// The configuration that two enable bits select; both bits at once select none.
pub open spec fn selected_pull(pull_up: bool, pull_down: bool) -> Option<Pull> {
    match (pull_up, pull_down) {
        (true, false) => Some(Pull::Up),
        (false, true) => Some(Pull::Down),
        (false, false) => Some(Pull::Floating),
        (true, true) => None,
    }
}

impl Pull {
    /// The pull-up and pull-down enable bits to write for this configuration.
    pub fn enables(self) -> (bits: (bool, bool))
        ensures
            bits == enable_bits(self),
    {
        match self {
            Pull::Floating => (false, false),
            Pull::Up => (true, false),
            Pull::Down => (false, true),
        }
    }

    /// The configuration that was read as two enable bits. Both bits set is an invalid
    /// state and gives `None`.
    pub fn from_enables(pull_up: bool, pull_down: bool) -> (pull: Option<Pull>)
        ensures
            pull == selected_pull(pull_up, pull_down),
    {
        match (pull_up, pull_down) {
            (true, false) => Some(Pull::Up),
            (false, true) => Some(Pull::Down),
            (false, false) => Some(Pull::Floating),
            (true, true) => None,
        }
    }
}

/// Reading back the bits that were written for a configuration gives that configuration.
pub proof fn pull_round_trip(pull: Pull)
    ensures
        selected_pull(enable_bits(pull).0, enable_bits(pull).1) == Some(pull),
{
}

} // verus!
