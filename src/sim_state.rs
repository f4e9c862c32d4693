//! The state a hardware simulation keeps for the devices it stands in for.

use vstd::prelude::*;

verus! {

/// The kinds of simulated device.
pub enum SimDeviceType {
    Motor,
    Imu,
    Optical,
    Rotation,
    Controller,
}

/// One simulated device: whether it is plugged in, its kind, and the raw
/// words it receives from and reports to the program.
pub struct SimDevice {
    connected: bool,
    device_type: SimDeviceType,
    data_in: [u64; 64],
    data_out: [u64; 64],
}

/// The simulated screen's writable area, one word per pixel.
pub struct Display {
    writable_area: [u32; 115200],
}

} // verus!
