//! Rational numbers as stored in directory records.
use vstd::prelude::*;

verus! {

/// An unsigned fraction. The denominator may be zero: such a value stands for an
/// infinite or undefined quantity and is kept as stored.
#[derive(Copy, Clone, Debug, PartialEq, Eq, Structural)]
pub struct URational {
    pub numerator: u32,
    pub denominator: u32,
}

/// A signed fraction. The denominator may be zero, as for `URational`.
#[derive(Copy, Clone, Debug, PartialEq, Eq, Structural)]
pub struct IRational {
    pub numerator: i32,
    pub denominator: i32,
}

} // verus!
