//! Markers for communicating the expected usage of numeric parameters.
//!
//! A [`Ratio`] pairs a quantity with a unit-of-measure marker, so a speed
//! can be written as "so many units per second" and scaled explicitly at the
//! call site. The markers carry no data and stand for exactly one unit of
//! their measure, so the rate per one unit is the stored quantity itself.

use vstd::prelude::*;

verus! {

/// A quantity of `T` per one unit of `U` (e.g. radians per second).
#[derive(Debug, Clone, Copy, PartialEq, Eq)]
pub struct Ratio<T, U>(pub T, pub U);

/// Indicates the ratio is x units per radian
#[derive(Debug, Clone, Copy, PartialEq, Eq, Structural)]
pub struct Radian;

/// Indicates the ratio is x units per degree
#[derive(Debug, Clone, Copy, PartialEq, Eq, Structural)]
pub struct Degree;

/// Indicates the ratio is x units per second
#[derive(Debug, Clone, Copy, PartialEq, Eq, Structural)]
pub struct Second;

/// Indicates the ratio is x units per pixel
#[derive(Debug, Clone, Copy, PartialEq, Eq, Structural)]
pub struct Pixel;

/// Indicates the ratio is x units per world distance unit
#[derive(Debug, Clone, Copy, PartialEq, Eq, Structural)]
pub struct Unit;

impl<T, U> Ratio<T, U> {
    /// Pairs a quantity with its unit-of-measure marker.
    pub fn new(quantity: T, unit: U) -> (r: Self)
        ensures
            r == Ratio(quantity, unit),
    {
        Ratio(quantity, unit)
    }

    /// The raw quantity, dropping the marker.
    pub fn quantity(self) -> (r: T)
        ensures
            r == self.0,
    {
        self.0
    }

    /// Calculates the change in `T` per one unit of `U`: the marker stands
    /// for exactly one unit of its measure, so this is the stored quantity.
    pub fn per_unit(self) -> (r: T)
        ensures
            r == self.0,
    {
        self.0
    }
}

} // verus!
