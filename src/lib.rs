//! Verified core of a differential-drive competition robot: the integer parts
//! of its timing, phase selection, trajectory sequencing and settle detection.

pub mod clock;
pub mod competition;
pub mod control;
pub mod driver;
pub mod odometry;
pub mod sequencing;
pub mod screen;
pub mod settle;
pub mod sim_state;
pub mod timer;
pub mod uptime;
