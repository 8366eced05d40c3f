//! Analog sampling: calibration data, channel tables, the shared sampling
//! state and the synchronized reads from it.

pub mod calibration;
pub mod channels;
pub mod hardware;
pub mod protocol;
pub mod sampling;
