//! Real-time sensor fusion core: synthetic inertial and positioning sensor
//! simulators, a complementary filter that fuses their samples into one
//! orientation/position/velocity estimate, a bounded fan-out channel for
//! distributing estimates, and the orchestration step logic that ties the
//! pieces together.
//!
//! All quantities are fixed-point integers scaled by one billion (nano-units),
//! so the whole numeric core is within reach of the verifier.

pub mod channel;
pub mod clock;
pub mod fixed;
pub mod fusion;
pub mod gps;
pub mod imu;
pub mod models;
pub mod orchestrator;
pub mod rng;
pub mod trig;
