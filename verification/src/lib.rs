//! Wire codec for the control-channel messages of the Bluetooth HID Protocol
//! (HIDP).
//!
//! A HIDP message is one header byte followed by zero or more payload bytes.
//! [`Header`] packs and unpacks the header byte; [`Message`] maps whole
//! buffers to typed messages and back.
use vstd::prelude::*;

pub mod error;
pub mod handshake;
pub mod header;
pub mod message;
pub mod message_type;
pub mod protocol;
pub mod report_type;
pub mod wire;

pub use error::DecodeError;
pub use header::Header;
pub use message::{Message, MessageView};

verus! {

/// A 4-bit code naming the kind of a message.
pub type MessageType = u8;

/// A 4-bit code whose meaning depends on the message type.
pub type Parameter = u8;

} // verus!
