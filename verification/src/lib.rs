//! Motion-glove core: the wire codec, finger debouncing, gesture-to-HID
//! translation, the two link state machines and the HID replay sequence.

pub mod custom_hid;
pub mod definitions;
pub mod flexes;
pub mod hid;
pub mod sensors;
pub mod tcp_client;
pub mod tcp_server;
