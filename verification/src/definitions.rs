//! Configuration of both ends of the link.

use vstd::prelude::*;

verus! {

/// Name of the wireless network that the two units share.
pub const WIFI_NETWORK: &'static str = "MotionGlove-Network";

/// Passphrase of that network.
pub const WIFI_PASSWORD: &'static str = "Password123";

/// Radio channel of the access point.
pub const TCP_CHANNEL: u8 = 5;

/// TCP port on which the dongle listens.
pub const TCP_ENDPOINT: u16 = 50124;

/// Idle time after which a socket gives up, in seconds.
pub const SOCKET_TIMEOUT_SECS: u64 = 15;

/// Address of the dongle.
pub const DONGLE_IP: &'static str = "192.168.0.10";

/// Address of the glove.
pub const GLOVE_IP: &'static str = "192.168.0.12";

/// Instructions that the queue between two tasks holds at most.
pub const CHANNEL_SIZE: usize = 1;

/// Sensor ticks per second.
pub const READ_FREQ: u64 = 1000;

/// Scroll reports per second at most, while the tap is held.
pub const PADDING_FREQ: u64 = 100;

/// Polling interval of the HID endpoints in milliseconds.
pub const MOUSE_POLL_MS: u8 = 1;

/// Time allowed for one attempt to join the network, in seconds.
pub const JOIN_TIMEOUT_SECS: u64 = 5;

/// Pause before the next attempt to join, in milliseconds.
pub const JOIN_RETRY_MS: u64 = 250;

} // verus!
