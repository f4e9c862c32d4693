//! Page navigation of the brain's status screen: which page shows, and which
//! routine a touch on the selector pages picks.

use vstd::prelude::*;
use crate::competition::Autos;

verus! {

/// The pages of the screen's left half (and the right half's views).
#[derive(Debug, Clone, Copy, PartialEq, Eq, Structural)]
pub enum GuiState {
    MotorView,
    SensorView,
    AutoSelectorOverview,
    AutoSelectorMatch,
    ControlsView,
    OdomCalibrateView,
}

/// Whether `(x, y)` lies in the closed box `xs` by `ys`.
pub open spec fn within(x: i16, y: i16, xs: (i16, i16), ys: (i16, i16)) -> bool {
    xs.0 <= x <= xs.1 && ys.0 <= y <= ys.1
}

pub fn in_range(x: i16, y: i16, xs: (i16, i16), ys: (i16, i16)) -> (r: bool)
    ensures
        r == within(x, y, xs, ys),
{
    xs.0 <= x && x <= xs.1 && ys.0 <= y && y <= ys.1
}

/// One frame's touch: where, whether the screen was untouched on the last
/// frame, and whether it is touched now. A tap is the edge between the two.
#[derive(Debug, Clone, Copy, PartialEq, Eq, Structural)]
pub struct Touch {
    pub x: i16,
    pub y: i16,
    pub was_released: bool,
    pub pressed: bool,
}

pub open spec fn tapped(t: Touch) -> bool {
    t.was_released && t.pressed
}

/// The page after a frame, and the routine picked on it, if any.
pub open spec fn page_step(page: GuiState, t: Touch, telemetry: bool) -> (GuiState, Option<Autos>) {
    match page {
        GuiState::MotorView => if telemetry && tapped(t) && within(t.x, t.y, (6, 237), (6, 234)) {
            (GuiState::SensorView, None)
        } else {
            (page, None)
        },
        GuiState::SensorView => if telemetry && tapped(t) && within(t.x, t.y, (6, 237), (6, 234)) {
            (GuiState::MotorView, None)
        } else {
            (page, None)
        },
        GuiState::AutoSelectorOverview => if !tapped(t) {
            (page, None)
        } else if within(t.x, t.y, (9, 234), (8, 119)) {
            (GuiState::AutoSelectorMatch, None)
        } else if within(t.x, t.y, (9, 120), (82, 232)) {
            (GuiState::MotorView, Some(Autos::Skills))
        } else if within(t.x, t.y, (123, 234), (156, 232)) {
            (GuiState::MotorView, Some(Autos::NoRoutine))
        } else {
            (page, None)
        },
        GuiState::AutoSelectorMatch => if !tapped(t) {
            (page, None)
        } else if within(t.x, t.y, (9, 237), (8, 80)) {
            (GuiState::MotorView, Some(Autos::Left))
        } else if within(t.x, t.y, (9, 237), (121, 154)) {
            (GuiState::MotorView, Some(Autos::Solo))
        } else if within(t.x, t.y, (9, 237), (121, 228)) {
            (GuiState::MotorView, Some(Autos::Right))
        } else {
            (GuiState::MotorView, None)
        },
        _ => (GuiState::MotorView, None),
    }
}

/// One frame of navigation. A pending request for the routine selector
/// opens its overview first. A tap on the motor or sensor panel flips
/// between the two (only when telemetry could be read this frame); a tap on
/// a selector page picks a routine and returns to the motor panel.
pub fn next_page(page: GuiState, selector_requested: bool, t: &Touch, telemetry: bool) -> (r: (
    GuiState,
    Option<Autos>,
))
    ensures
        r == page_step(
            if selector_requested { GuiState::AutoSelectorOverview } else { page },
            *t,
            telemetry,
        ),
{
    let page = if selector_requested { GuiState::AutoSelectorOverview } else { page };
    let tap = t.was_released && t.pressed;
    match page {
        GuiState::MotorView => {
            if telemetry && tap && in_range(t.x, t.y, (6, 237), (6, 234)) {
                (GuiState::SensorView, None)
            } else {
                (page, None)
            }
        },
        GuiState::SensorView => {
            if telemetry && tap && in_range(t.x, t.y, (6, 237), (6, 234)) {
                (GuiState::MotorView, None)
            } else {
                (page, None)
            }
        },
        GuiState::AutoSelectorOverview => {
            if !tap {
                (page, None)
            } else if in_range(t.x, t.y, (9, 234), (8, 119)) {
                (GuiState::AutoSelectorMatch, None)
            } else if in_range(t.x, t.y, (9, 120), (82, 232)) {
                (GuiState::MotorView, Some(Autos::Skills))
            } else if in_range(t.x, t.y, (123, 234), (156, 232)) {
                (GuiState::MotorView, Some(Autos::NoRoutine))
            } else {
                (page, None)
            }
        },
        GuiState::AutoSelectorMatch => {
            if !tap {
                (page, None)
            } else if in_range(t.x, t.y, (9, 237), (8, 80)) {
                (GuiState::MotorView, Some(Autos::Left))
            } else if in_range(t.x, t.y, (9, 237), (121, 154)) {
                (GuiState::MotorView, Some(Autos::Solo))
            } else if in_range(t.x, t.y, (9, 237), (121, 228)) {
                (GuiState::MotorView, Some(Autos::Right))
            } else {
                (GuiState::MotorView, None)
            }
        },
        _ => (GuiState::MotorView, None),
    }
}

} // verus!
