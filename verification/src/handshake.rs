//! Handshake result codes: the parameter of a `Handshake` message.
use crate::Parameter;
use vstd::prelude::*;

verus! {

pub const SUCCESSFUL: Parameter = 0x0;

pub const NOT_READY: Parameter = 0x1;

pub const ERR_INVALID_REPORT_ID: Parameter = 0x2;

pub const ERR_UNSUPPORTED_REQUEST: Parameter = 0x3;

pub const ERR_INVALID_PARAMETER: Parameter = 0x4;

pub const ERR_UNKNOWN: Parameter = 0xE;

pub const ERR_FATAL: Parameter = 0xF;

} // verus!
