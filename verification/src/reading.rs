//! A decoded weather reading and the equivalence used by the consensus
//! filter.

use vstd::prelude::*;

verus! {

/// One decoded frame. Created only by the decoder; consumed (emitted or
/// discarded) only by the consensus filter; never mutated after creation.
///
/// The temperature is held exactly, in tenths of a degree Fahrenheit: the
/// decoding rule always yields one decimal digit, so `temp_f_tenths == 357`
/// means 35.7 °F. Both floating-point renderings the sink wants are derived
/// from it: `temp_f = temp_f_tenths / 10` and `temp_c = (temp_f - 32) * 5/9`.
#[derive(Clone, Copy, Debug)]
pub struct WeatherReading {
    /// When the frame was decoded, in microseconds of wall-clock time.
    pub time: i64,
    /// Relative humidity in percent, from the two humidity digits.
    pub humidity: u8,
    /// Temperature in tenths of a degree Fahrenheit.
    pub temp_f_tenths: u16,
    /// Transmitter channel, a 4-bit tag.
    pub channel: u8,
}

/// Two readings are equivalent iff their humidity and channel are exactly
/// equal and their Celsius temperatures differ by less than 0.1 °C.
///
/// A difference of `d` tenths of a degree Fahrenheit is `d / 18` °C, so the
/// Celsius bound holds exactly when the tenths differ by at most 1.
pub open spec fn equivalent(a: WeatherReading, b: WeatherReading) -> bool {
    &&& a.humidity == b.humidity
    &&& a.channel == b.channel
    &&& -1 <= a.temp_f_tenths - b.temp_f_tenths <= 1
}

/// The bounds every decoded reading satisfies: a non-negative timestamp, a
/// 4-bit channel, two-digit-per-nibble humidity, and a temperature the
/// decoding rule can produce.
pub open spec fn reading_wf(r: WeatherReading) -> bool {
    &&& 0 <= r.time
    &&& r.channel < 16
    &&& r.humidity <= 165
    &&& r.temp_f_tenths <= 1899
}

impl WeatherReading {
    /// Runtime check of [`equivalent`].
    pub fn equivalent(&self, other: &WeatherReading) -> (r: bool)
        ensures
            r == equivalent(*self, *other),
    {
        let dt: i32 = self.temp_f_tenths as i32 - other.temp_f_tenths as i32;
        self.humidity == other.humidity && self.channel == other.channel && -1 <= dt && dt <= 1
    }
}

} // verus!
