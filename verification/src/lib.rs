//! The verified core of a bridge between Bluetooth barbecue thermometers and
//! an MQTT broker that follows the Homie convention.
//!
//! The library decides and never acts: it is handed what the thermometer
//! reports and what is written to the property tree, keeps the targets of the
//! probes, and hands back the operations to perform.

pub mod bbq;
pub mod config;
pub mod device;
pub mod laws;
pub mod session;
pub mod target;
pub mod text;
pub mod tree;
