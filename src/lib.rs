//! Control library for a USB audio-enhancement peripheral driven over a
//! vendor HID protocol: packet codec, passive protocol decoder, feature
//! registry and the managed feature engine.

pub mod hex;
pub mod registry;
pub mod codec;
pub mod decoder;
pub mod urb;
pub mod engine;
