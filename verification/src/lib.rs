//! Sensor synchronisation and fail-safe power control for a test-automation
//! carrier board.
//!
//! The crate holds the decision logic of four cooperating parts: the sampling
//! sources that publish raw analog values, the reader that takes time-aligned
//! snapshots of them, the control loop that protects the device under test,
//! and the watchdog that notices when that loop stops making progress.
//! Hardware access, threads and timers are left to the caller.

pub mod adc;
pub mod dut_power;
pub mod ieee754;
pub mod led;
pub mod system;
pub mod text;
pub mod watchdog;
