//! Rational frame intervals, as the capture layer reports them.

use vstd::prelude::*;

verus! {

/// A frame interval as a rational number of seconds: `numerator / denominator`.
/// An interval of `1/30` means 30 frames per second.
#[derive(Clone, Copy, Debug, PartialEq, Eq, Structural)]
pub struct Fraction {
    pub numerator: u32,
    pub denominator: u32,
}

} // verus!
