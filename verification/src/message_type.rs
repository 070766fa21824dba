//! Message-type codes: the high half of the header byte.
use crate::MessageType;
use vstd::prelude::*;

verus! {

pub const HANDSHAKE: MessageType = 0x0;

pub const HID_CONTROL: MessageType = 0x1;

pub const GET_REPORT: MessageType = 0x4;

pub const SET_REPORT: MessageType = 0x5;

pub const GET_PROTOCOL: MessageType = 0x6;

pub const SET_PROTOCOL: MessageType = 0x7;

pub const DATA: MessageType = 0xA;

/// The codes whose messages carry payload bytes after the header.
pub open spec fn carries_payload(code: MessageType) -> bool {
    code == GET_REPORT || code == SET_REPORT || code == DATA
}

/// The codes this codec accepts. Every other code, the deprecated ones
/// included, is rejected on decode.
pub open spec fn is_supported(code: MessageType) -> bool {
    code == HANDSHAKE || code == HID_CONTROL || code == GET_PROTOCOL || code == SET_PROTOCOL
        || carries_payload(code)
}

} // verus!
