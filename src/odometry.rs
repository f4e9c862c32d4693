//! The decisions of an odometry tick: whether the encoders can be fused at
//! all, and which source the heading change comes from. The arithmetic of
//! the update itself is done on real numbers by the caller.

use vstd::prelude::*;

verus! {

/// The number of `true` entries in `flags`.
pub open spec fn count_true(flags: Seq<bool>) -> nat
    decreases flags.len(),
{
    if flags.len() == 0 {
        0
    } else {
        count_true(flags.drop_last()) + if flags.last() { 1nat } else { 0nat }
    }
}

/// How many of a side's encoders are connected; the side's travel is the
/// average over these alone.
pub fn connected_count(connected: &Vec<bool>) -> (r: usize)
    ensures
        r as nat == count_true(connected@),
        r <= connected.len(),
{
    let mut n: usize = 0;
    let mut i: usize = 0;
    while i < connected.len()
        invariant
            i <= connected.len(),
            n <= i,
            n as nat == count_true(connected@.take(i as int)),
        decreases connected.len() - i,
    {
        assert(connected@.take(i as int + 1).drop_last() =~= connected@.take(i as int));
        if connected[i] {
            n = n + 1;
        }
        i = i + 1;
    }
    assert(connected@.take(connected.len() as int) =~= connected@);
    n
}

/// Where a tick takes its heading change from.
#[derive(Debug, Clone, Copy, PartialEq, Eq, Structural)]
pub enum HeadingSource {
    /// The inertial sensor.
    Inertial,
    /// The difference of the two sides' encoder travel.
    EncoderDifferential,
}

/// What an odometry tick does, or `None` to skip it.
pub open spec fn tick_plan(
    left: Seq<bool>,
    right: Seq<bool>,
    imu_connected: bool,
    imu_agrees: bool,
) -> Option<HeadingSource> {
    if count_true(left) == 0 || count_true(right) == 0 {
        None
    } else if imu_connected && imu_agrees {
        Some(HeadingSource::Inertial)
    } else {
        Some(HeadingSource::EncoderDifferential)
    }
}

/// Plans one odometry tick from the connection flags of each side's
/// encoders and of the inertial sensor, and whether the sensor's heading
/// change agrees with the encoders' within the configured margin. A side
/// with no connected encoder skips the tick rather than fuse garbage; a
/// missing or disagreeing sensor falls back to the encoders.
pub fn plan_tick(left: &Vec<bool>, right: &Vec<bool>, imu_connected: bool, imu_agrees: bool) -> (r: Option<
    HeadingSource,
>)
    ensures
        r == tick_plan(left@, right@, imu_connected, imu_agrees),
{
    if connected_count(left) == 0 || connected_count(right) == 0 {
        None
    } else if imu_connected && imu_agrees {
        Some(HeadingSource::Inertial)
    } else {
        Some(HeadingSource::EncoderDifferential)
    }
}

} // verus!
