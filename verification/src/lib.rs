//! Attitude-stabilization control library.
//!
//! Computes per-axis actuator commands for a multi-axis stabilizer (roll,
//! pitch, yaw) from setpoints, attitude measurements, and angular-rate
//! measurements, using PID control with integral anti-windup.  Every
//! computation is generic over the [`Number`] capability set, so the same
//! control logic serves any scalar representation a build chooses.

pub mod laws;
pub mod numeric;
pub mod pid;
pub mod stabilizer;

pub use numeric::Number;
pub use pid::AngleControlData;
pub use pid::ComputeStrategy;
pub use pid::PidController;
pub use pid::compute_angle;
pub use stabilizer::Angle2Stabilizer;
pub use stabilizer::AngleStabilizer;
pub use stabilizer::CascadeBlendingConfig;
pub use stabilizer::FlightStabilizer;
pub use stabilizer::FlightStabilizerConfig;
pub use stabilizer::cascade_axis;
