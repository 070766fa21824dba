//! Protocol modes: the parameter of a `GetProtocol` or `SetProtocol` message.
use crate::Parameter;
use vstd::prelude::*;

verus! {

pub const BOOT: Parameter = 0x0;

pub const REPORT: Parameter = 0x1;

} // verus!
