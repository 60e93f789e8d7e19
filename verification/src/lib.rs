//! Drivers for the peripherals of a single-board computer: the GPIO
//! controller, the system timer and the mini UART, and a vector that lives in
//! a slice.
//!
//! The drivers hold the logic and no access to the device. What is a single
//! step on the device works on the contents of a register block, which the
//! caller reads from the device before the call and writes back after it.
//! What has to wait for the device is given turn by turn: the state of the
//! operation says what it needs from the device next, and the caller hands
//! the answer to the next turn.

pub mod common;
pub mod gpio;
pub mod stack_vec;
pub mod timer;
pub mod uart;
