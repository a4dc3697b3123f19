use vstd::prelude::*;

use crate::history::DEFAULT_HISTORY_CAPACITY;
use crate::rate::DEFAULT_RATE_WINDOW;

verus! {

/// A calibration divisor held as the fraction `numerator / denominator`: a
/// physical value is the raw tick count divided by it.
#[derive(Debug, Clone, Copy, PartialEq, Eq, Structural)]
pub struct Divisor {
    pub numerator: u32,
    pub denominator: u32,
}

impl Divisor {
    pub open spec fn wf(&self) -> bool {
        self.numerator > 0 && self.denominator > 0
    }
}

/// Settings of the ingestion pipeline: the scale of each sensor kind, the
/// points each history channel keeps, and the intervals the rate estimate
/// averages.
#[derive(Debug, Clone, Copy, PartialEq, Eq, Structural)]
pub struct TelemetryConfig {
    pub pressure_divisor: Divisor,
    pub accel_divisor: Divisor,
    pub gyro_divisor: Divisor,
    pub history_capacity: usize,
    pub rate_window: usize,
}

impl TelemetryConfig {
    pub open spec fn wf(&self) -> bool {
        &&& self.pressure_divisor.wf()
        &&& self.accel_divisor.wf()
        &&& self.gyro_divisor.wf()
        &&& self.history_capacity > 0
        &&& self.rate_window > 0
    }

    /// Whether every divisor is positive and every capacity non-zero.
    pub fn is_valid(&self) -> (r: bool)
        ensures
            r == self.wf(),
    {
        self.pressure_divisor.numerator > 0 && self.pressure_divisor.denominator > 0
            && self.accel_divisor.numerator > 0 && self.accel_divisor.denominator > 0
            && self.gyro_divisor.numerator > 0 && self.gyro_divisor.denominator > 0
            && self.history_capacity > 0 && self.rate_window > 0
    }
}

impl Default for TelemetryConfig {
    /// Pressure in units of 40960 ticks, acceleration of 8192 ticks, angular
    /// rate of 65.5 ticks; 1000 points per channel; 50 intervals.
    fn default() -> (r: TelemetryConfig)
        ensures
            r.pressure_divisor == (Divisor { numerator: 40960, denominator: 1 }),
            r.accel_divisor == (Divisor { numerator: 8192, denominator: 1 }),
            r.gyro_divisor == (Divisor { numerator: 655, denominator: 10 }),
            r.history_capacity == 1000,
            r.rate_window == 50,
            r.wf(),
    {
        TelemetryConfig {
            pressure_divisor: Divisor { numerator: 40960, denominator: 1 },
            accel_divisor: Divisor { numerator: 8192, denominator: 1 },
            gyro_divisor: Divisor { numerator: 655, denominator: 10 },
            history_capacity: DEFAULT_HISTORY_CAPACITY,
            rate_window: DEFAULT_RATE_WINDOW,
        }
    }
}

} // verus!
