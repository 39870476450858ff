//! Library for a BLE accelerometer to screen-rotation bridge.
//!
//! A wireless accelerometer pushes acceleration samples over Bluetooth
//! Low-Energy notifications.  This crate holds the verified core of the
//! bridge: the notification wire-format decoder, the orientation
//! classifier with its hysteresis bands, the per-device session state
//! machine, and the planning half of the platform rotation drivers.
//! The I/O shell (BLE transport, process spawning, display APIs) lives
//! outside and consumes the plans and decisions this library computes.

pub mod classifier;
pub mod decoder;
pub mod digits;
pub mod display_mode;
pub mod rotate_screen;
pub mod session;

