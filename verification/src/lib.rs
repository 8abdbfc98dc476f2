//! Configuration library for a family of USB HID gaming mice.
//!
//! The library models the device's settings (`config`), encodes them into the
//! vendor-specific control packets the firmware expects (`packet`), merges
//! command-line overrides into a base configuration (`command`), and manages
//! the claim/release lifecycle of the device's USB interfaces (`session`,
//! `usb`).

pub mod command;
pub mod config;
pub mod packet;
pub mod session;
pub mod usb;
