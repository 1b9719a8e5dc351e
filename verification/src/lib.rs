//! Talking to intimate hardware through a Buttplug server.
//!
//! `client` holds what stands between a client and its connection to a server:
//! the cells in which replies are waited for, and the loop that relays messages.
//! `device` holds what turns a vibration command into the bytes that a device is
//! sent.

pub mod client;
pub mod device;
pub mod outside;
