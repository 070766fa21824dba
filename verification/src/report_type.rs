//! Report types: the parameter of a `Data` message.
use crate::Parameter;
use vstd::prelude::*;

verus! {

pub const OTHER: Parameter = 0x0;

pub const INPUT: Parameter = 0x1;

pub const OUTPUT: Parameter = 0x2;

pub const FEATURE: Parameter = 0x3;

} // verus!
