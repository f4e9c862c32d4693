//! The per-segment control state of the trajectory follower and the choice
//! of control law. The geometric tests (inside the settle radius, past the
//! target, heading converged) are made on real numbers by the caller.

use vstd::prelude::*;

verus! {

/// The discriminant a curve reports, used to pick the control law.
#[derive(Debug, Clone, Copy, PartialEq, Eq, Structural)]
pub enum CurveKind {
    Linear,
    CubicBezier,
    CubicPolynomial,
}

/// The control law a tick runs.
#[derive(Debug, Clone, Copy, PartialEq, Eq, Structural)]
pub enum ControlBranch {
    /// Turn in place toward the segment's end heading, no linear effort.
    HeadingCorrection,
    /// Drive straight at the segment's end point.
    PointToPoint,
    /// Follow the curve with the Stanley steering law.
    Stanley,
}

/// Where the active segment's control stands.
#[derive(Debug, Clone, Copy, PartialEq, Eq, Structural)]
pub enum ControlPhase {
    /// Following the segment.
    Tracking,
    /// Inside the settle radius of an unchained segment: speed bounds frozen.
    Close,
    /// Past the target or given up: correcting heading (exit state 1).
    Exiting,
    /// Heading converged (exit state 2): the segment may end.
    Settled,
}

/// What the caller observed on this tick.
#[derive(Debug, Clone, Copy, PartialEq, Eq, Structural)]
pub struct ControlEvent {
    pub within_settle_radius: bool,
    pub chained: bool,
    pub passed_target: bool,
    pub pid_timed_out: bool,
    pub heading_converged: bool,
}

/// The order of the phases; a segment only moves forward through them.
pub open spec fn rank(p: ControlPhase) -> nat {
    match p {
        ControlPhase::Tracking => 0,
        ControlPhase::Close => 1,
        ControlPhase::Exiting => 2,
        ControlPhase::Settled => 3,
    }
}

pub open spec fn phase_step(p: ControlPhase, e: ControlEvent) -> ControlPhase {
    match p {
        ControlPhase::Tracking => if e.passed_target || e.pid_timed_out {
            ControlPhase::Exiting
        } else if e.within_settle_radius && !e.chained {
            ControlPhase::Close
        } else {
            ControlPhase::Tracking
        },
        ControlPhase::Close => if e.passed_target || e.pid_timed_out {
            ControlPhase::Exiting
        } else {
            ControlPhase::Close
        },
        ControlPhase::Exiting => if e.heading_converged {
            ControlPhase::Settled
        } else {
            ControlPhase::Exiting
        },
        ControlPhase::Settled => ControlPhase::Settled,
    }
}

/// The phase after one tick's observations: a tracked segment becomes close
/// inside the settle radius unless chained; passing the target or a
/// controller timeout raises the exit; a converged heading settles it.
pub fn next_phase(p: ControlPhase, e: &ControlEvent) -> (r: ControlPhase)
    ensures
        r == phase_step(p, *e),
{
    match p {
        ControlPhase::Tracking => {
            if e.passed_target || e.pid_timed_out {
                ControlPhase::Exiting
            } else if e.within_settle_radius && !e.chained {
                ControlPhase::Close
            } else {
                ControlPhase::Tracking
            }
        },
        ControlPhase::Close => {
            if e.passed_target || e.pid_timed_out {
                ControlPhase::Exiting
            } else {
                ControlPhase::Close
            }
        },
        ControlPhase::Exiting => {
            if e.heading_converged {
                ControlPhase::Settled
            } else {
                ControlPhase::Exiting
            }
        },
        ControlPhase::Settled => ControlPhase::Settled,
    }
}

/// Within a segment the phase never goes back: in particular, once close,
/// a segment stays close or moves on to its exit.
pub proof fn lemma_phase_monotone(p: ControlPhase, e: ControlEvent)
    ensures
        rank(p) <= rank(phase_step(p, e)),
{
}

pub open spec fn branch_for(p: ControlPhase, near_end: bool, kind: CurveKind) -> ControlBranch {
    if near_end || p == ControlPhase::Exiting || p == ControlPhase::Settled {
        ControlBranch::HeadingCorrection
    } else if kind == CurveKind::Linear {
        ControlBranch::PointToPoint
    } else {
        ControlBranch::Stanley
    }
}

/// The control law for a tick: heading correction once the in-segment
/// progress is past its end fraction (`near_end`) or the exit was raised;
/// otherwise point-to-point on a straight segment and Stanley on a curve.
pub fn control_branch(p: ControlPhase, near_end: bool, kind: CurveKind) -> (r: ControlBranch)
    ensures
        r == branch_for(p, near_end, kind),
{
    if near_end || p == ControlPhase::Exiting || p == ControlPhase::Settled {
        ControlBranch::HeadingCorrection
    } else if kind == CurveKind::Linear {
        ControlBranch::PointToPoint
    } else {
        ControlBranch::Stanley
    }
}

} // verus!
