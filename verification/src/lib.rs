//! Control logic of a two-wheeled RP2040 robot: motor duty cycles, the
//! line-following state machine, ultrasonic obstacle detection and the
//! clock-tree bring-up sequence. Register access itself is left to the
//! caller; this crate decides what is written and when.

pub mod line_follower;
pub mod motors;
pub mod obstacle;
pub mod variable_speed;
pub mod clocks;
pub mod clock_safety;
