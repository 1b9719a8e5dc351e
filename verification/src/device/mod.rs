//! The device's side: commands, what devices were last told, and protocols.

pub mod command_manager;
pub mod kiiroo_v2_vibrator;
pub mod messages;
pub mod vibration;
