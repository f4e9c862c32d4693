//! What the driver's buttons ask of the mechanisms on one control tick.

use vstd::prelude::*;

verus! {

/// The buttons read on one tick: `*_now` newly pressed, `*_held` down.
#[derive(Debug, Clone, Copy, PartialEq, Eq, Structural)]
pub struct DriverButtons {
    pub up_now: bool,
    pub left_now: bool,
    pub right_now: bool,
    pub b_now: bool,
    pub x_now: bool,
    pub r1_held: bool,
    pub r2_held: bool,
    pub l1_held: bool,
    pub l2_held: bool,
}

/// Which way a mechanism turns, at full power or not at all.
#[derive(Debug, Clone, Copy, PartialEq, Eq, Structural)]
pub enum Spin {
    Forward,
    Reverse,
    Stopped,
}

/// The mechanism commands for a tick.
#[derive(Debug, Clone, Copy, PartialEq, Eq, Structural)]
pub struct DriverCommands {
    pub start_recording: bool,
    pub open_selector: bool,
    pub intake: Spin,
    pub indexer: Spin,
    pub toggle_matchload: bool,
    pub toggle_descore: bool,
}

/// Forward while the first button is held, else reverse while the second
/// is, else stopped.
pub open spec fn spin_of(forward: bool, reverse: bool) -> Spin {
    if forward {
        Spin::Forward
    } else if reverse {
        Spin::Reverse
    } else {
        Spin::Stopped
    }
}

fn spin(forward: bool, reverse: bool) -> (r: Spin)
    ensures
        r == spin_of(forward, reverse),
{
    if forward {
        Spin::Forward
    } else if reverse {
        Spin::Reverse
    } else {
        Spin::Stopped
    }
}

/// Maps the buttons to commands: up and left pressed together start
/// recording, right opens the routine selector, R1/R2 run the intake, L1/L2
/// the indexer, B toggles the matchload piston and X the descore piston.
pub fn driver_commands(b: &DriverButtons) -> (r: DriverCommands)
    ensures
        r.start_recording == (b.up_now && b.left_now),
        r.open_selector == b.right_now,
        r.intake == spin_of(b.r1_held, b.r2_held),
        r.indexer == spin_of(b.l1_held, b.l2_held),
        r.toggle_matchload == b.b_now,
        r.toggle_descore == b.x_now,
{
    DriverCommands {
        start_recording: b.up_now && b.left_now,
        open_selector: b.right_now,
        intake: spin(b.r1_held, b.r2_held),
        indexer: spin(b.l1_held, b.l2_held),
        toggle_matchload: b.b_now,
        toggle_descore: b.x_now,
    }
}

} // verus!
