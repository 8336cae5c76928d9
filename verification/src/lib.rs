//! MXBattery — battery monitoring logic for Logitech BLE mice: the HID++ frame
//! codec, device filtering, configuration rules, the notification policy and
//! the per-peripheral and daemon state machines, all with verified contracts.

pub mod battery;
pub mod clock;
pub mod config;
pub mod daemon;
pub mod device_filter;
pub mod hidpp;
pub mod ipc;
pub mod launchd;
pub mod live_state;
pub mod menubar;
pub mod notifier;
pub mod paths;
pub mod prefs_ui;
pub mod state;
pub mod text;
