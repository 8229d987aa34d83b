//! Readings: what a raw word from the sensor means.

use vstd::prelude::*;
use crate::sealed::SealedFromRaw;

verus! {

/// A temperature reading
#[derive(Debug, Clone, Copy)]
pub struct Temperature(u16);

/// A humidity reading
#[derive(Debug, Clone, Copy)]
pub struct Humidity(u16);

impl View for Temperature {
    type V = u16;

    /// The raw word, status bits cleared.
    closed spec fn view(&self) -> u16 {
        self.0
    }
}

impl View for Humidity {
    type V = u16;

    /// The raw word, status bits cleared.
    closed spec fn view(&self) -> u16 {
        self.0
    }
}

/// The temperature that a raw word stands for, in thousandths of a degree
/// Celsius and rounded down: -46.85 + 175.72 * raw / 65536 degrees.
pub open spec fn millidegrees_celsius(raw: u16) -> int {
    (175720 * raw) / 65536 - 46850
}

/// The relative humidity that a raw word stands for, in thousandths of a
/// percent and rounded down: -6 + 125 * raw / 65536 percent. Nothing is
/// clamped: the result may lie below 0 or above 100 percent.
pub open spec fn millipercent_relative(raw: u16) -> int {
    (125000 * raw) / 65536 - 6000
}

impl Temperature {
    #[verifier::type_invariant]
    spec fn status_bits_clear(self) -> bool {
        self.0 & 0x0003 == 0
    }

    /// Returns the temperature reading exactly as read from the sensor, with the status bits
    /// cleared
    pub fn as_raw(&self) -> (raw: u16)
        ensures
            raw == self@,
            raw & 0x0003 == 0,
    {
        proof {
            use_type_invariant(self);
        }
        self.0
    }

    /// Converts the temperature reading into thousandths of a degree Celsius, rounded down
    ///
    /// This function uses integer operations only.
    pub fn as_millidegrees_celsius(&self) -> (millidegrees: i32)
        ensures
            millidegrees == millidegrees_celsius(self@),
    {
        let scaled: u64 = 175720u64 * (self.0 as u64) / 65536;
        (scaled as i32) - 46850
    }
}

impl Humidity {
    #[verifier::type_invariant]
    spec fn status_bits_clear(self) -> bool {
        self.0 & 0x0003 == 0
    }

    /// Returns the humidity reading exactly as read from the sensor, with the status bits cleared
    pub fn as_raw(&self) -> (raw: u16)
        ensures
            raw == self@,
            raw & 0x0003 == 0,
    {
        proof {
            use_type_invariant(self);
        }
        self.0
    }

    /// Converts the humidity reading into thousandths of a percent of relative humidity,
    /// rounded down, without clamping it to the 0%-100% range
    ///
    /// This function uses integer operations only.
    pub fn as_millipercent_relative(&self) -> (millipercent: i32)
        ensures
            millipercent == millipercent_relative(self@),
    {
        let scaled: u64 = 125000u64 * (self.0 as u64) / 65536;
        (scaled as i32) - 6000
    }
}

/// The kinds of measurement the sensor takes: temperature and humidity.
pub trait Measurement: SealedFromRaw {

}

impl SealedFromRaw for Temperature {
    open spec fn raw_word(&self) -> u16 {
        self@
    }

    fn from_raw(raw: u16) -> (measurement: Self) {
        Temperature(raw)
    }
}

impl Measurement for Temperature {

}

impl SealedFromRaw for Humidity {
    open spec fn raw_word(&self) -> u16 {
        self@
    }

    fn from_raw(raw: u16) -> (measurement: Self) {
        Humidity(raw)
    }
}

impl Measurement for Humidity {

}

/// Information about a temperature or humidity reading
#[derive(Debug, Clone)]
pub enum Reading<R> {
    /// The reading was completed normally
    Normal(R),
    /// The reading was very low, or the sensor has an open circuit
    ErrorLow,
    /// The reading was very high, or the sensor has a short circuit
    ErrorHigh,
}

/// What a raw word from the sensor means: all zeros and all ones are the two
/// off-scale marks; any other word is a measurement, its two lowest bits
/// being status bits that are cleared.
pub open spec fn decode_reading(raw: u16) -> Reading<u16> {
    if raw == 0x0000 {
        Reading::ErrorLow
    } else if raw == 0xffff {
        Reading::ErrorHigh
    } else {
        Reading::Normal(raw & 0xfffc)
    }
}

impl<R: Measurement> View for Reading<R> {
    type V = Reading<u16>;

    /// The reading with the measurement replaced by its raw word.
    open spec fn view(&self) -> Reading<u16> {
        match *self {
            Reading::Normal(measurement) => Reading::Normal(measurement.raw_word()),
            Reading::ErrorLow => Reading::ErrorLow,
            Reading::ErrorHigh => Reading::ErrorHigh,
        }
    }
}

impl<R> Reading<R> where R: Measurement {
    /// Interprets a raw word from the sensor.
    pub fn from_raw(raw: u16) -> (reading: Self)
        ensures
            reading@ == decode_reading(raw),
    {
        match raw {
            0x0000 => Reading::ErrorLow,
            0xffff => Reading::ErrorHigh,
            _ => {
                // Clear the status bits (lowest two) and return the reading
                assert((raw & 0xfffc) & 0x0003 == 0) by (bit_vector);
                Reading::Normal(R::from_raw(raw & 0xfffc))
            },
        }
    }
}

} // verus!
