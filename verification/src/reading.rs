//! One measurement of the three metrics.

use num_traits::NumCast;
use vstd::prelude::*;

verus! {

/// A measured quantity with a fractional part, in the two forms that the
/// display needs of it.
#[derive(Clone, Debug, PartialEq, Eq)]
pub struct Quantity {
    /// The value cut to a whole number, or `None` where it has none in 32
    /// bits: it lies outside their range or is no number at all.
    pub whole: Option<i32>,
    /// The value written with one decimal place.
    pub shown: String,
}

/// What the sensor measured in one cycle.
#[derive(Clone, Debug, PartialEq, Eq)]
pub struct Reading {
    /// CO2 concentration in parts per million.
    pub co2: u16,
    /// Temperature in degrees Celsius.
    pub temperature: Quantity,
    /// Relative humidity in percent.
    pub humidity: Quantity,
}

/// The value that a graph plots for `whole`: zero stands for a quantity
/// without a whole number.
pub open spec fn plotted(whole: Option<i32>) -> i32 {
    match whole {
        Some(value) => value,
        None => 0,
    }
}

/// The value that a graph plots for a quantity whose whole number is
/// `whole`.
pub fn plot_value(whole: Option<i32>) -> (value: i32)
    ensures
        value == plotted(whole),
{
    match whole {
        Some(value) => value,
        None => 0,
    }
}

/// `NumCast::from`, from `u16` to `i32`: every `u16` has its own value as an
/// `i32`.
#[verifier::external_body]
fn cast_count(count: u16) -> (cast: Option<i32>)
    ensures
        cast == Some(count as i32),
{
    NumCast::from(count)
}

impl Reading {
    /// What the three graphs plot of this reading: CO2, temperature,
    /// humidity.
    pub open spec fn plots(&self) -> (i32, i32, i32) {
        (self.co2 as i32, plotted(self.temperature.whole), plotted(self.humidity.whole))
    }

    /// The sample that the CO2 graph plots.
    pub fn co2_sample(&self) -> (sample: i32)
        ensures
            sample == self.plots().0,
    {
        plot_value(cast_count(self.co2))
    }

    /// The sample that the temperature graph plots.
    pub fn temperature_sample(&self) -> (sample: i32)
        ensures
            sample == self.plots().1,
    {
        plot_value(self.temperature.whole)
    }

    /// The sample that the humidity graph plots.
    pub fn humidity_sample(&self) -> (sample: i32)
        ensures
            sample == self.plots().2,
    {
        plot_value(self.humidity.whole)
    }
}

} // verus!
