//! Orchestration of a wireless-direct hosted network: how publisher status
//! changes, stop requests and peer connection events turn into notifications
//! and commands for the wireless-direct stack.
pub mod laws;
pub mod notification;
pub mod session;
pub mod status;
