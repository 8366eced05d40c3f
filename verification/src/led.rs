//! The light-emitting diodes of the board.

pub mod demo_mode;
