//! Readings of the four kinds of register: the address, then what was read.

use vstd::prelude::*;

verus! {

/// A reading of a coil.
#[derive(Debug, Clone, PartialEq, Eq)]
pub struct CoilRegister(pub u16, pub bool);

/// A reading of a discrete input.
#[derive(Debug, Clone, PartialEq, Eq)]
pub struct DiscreteRegister(pub u16, pub bool);

/// A reading of a holding register.
#[derive(Debug, Clone, PartialEq, Eq)]
pub struct HoldingRegister(pub u16, pub Vec<u16>);

/// A reading of an input register.
#[derive(Debug, Clone, PartialEq, Eq)]
pub struct InputRegister(pub u16, pub Vec<u16>);

} // verus!
