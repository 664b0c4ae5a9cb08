//! The thresholds that drive pulse classification, plus the sink and pin
//! parameters that the surrounding process reads at startup.

use vstd::prelude::*;

verus! {

/// Configuration supplied once at startup and immutable afterwards.
///
/// All pulse lengths are in microseconds. A raw duration `x` matches a named
/// length `L` iff `L - variance < x < L + variance`; the four windows must
/// not overlap for classification to be unambiguous (see
/// [`windows_disjoint`](AppConfig::windows_disjoint)).
#[derive(Debug)]
pub struct AppConfig {
    pub gpio_radio_pin_bcm: u8,
    pub bit1_length_micros: i64,
    pub bit0_length_micros: i64,
    pub first_sync_length_micros: i64,
    pub last_sync_length_micros: i64,
    pub signal_variance_micros: i64,
    pub expected_bit_length: i64,
    pub influx_host: String,
    pub influx_port: i64,
    pub influx_database: String,
}

impl AppConfig {
    /// A duration `x` matches the pulse length `length` iff it lies strictly
    /// inside the window `(length - variance, length + variance)`.
    pub open spec fn in_window(self, length: i64, x: i64) -> bool {
        length - self.signal_variance_micros < x && x < length + self.signal_variance_micros
    }

    /// The numeric sanity conditions the pipeline relies on: the variance and
    /// the four pulse lengths are non-negative and small enough that window
    /// bounds fit in `i64`, and a frame carries exactly 40 bits.
    pub open spec fn wf(self) -> bool {
        &&& 0 <= self.signal_variance_micros
        &&& 0 <= self.bit0_length_micros
        &&& 0 <= self.bit1_length_micros
        &&& 0 <= self.first_sync_length_micros
        &&& 0 <= self.last_sync_length_micros
        &&& self.bit0_length_micros + self.signal_variance_micros <= i64::MAX
        &&& self.bit1_length_micros + self.signal_variance_micros <= i64::MAX
        &&& self.first_sync_length_micros + self.signal_variance_micros <= i64::MAX
        &&& self.last_sync_length_micros + self.signal_variance_micros <= i64::MAX
        &&& self.expected_bit_length == 40
    }

    /// Two windows around `l1` and `l2` share no duration iff the lengths are
    /// at least two variances apart.
    pub open spec fn lengths_apart(self, l1: i64, l2: i64) -> bool {
        l1 - l2 >= 2 * self.signal_variance_micros || l2 - l1 >= 2 * self.signal_variance_micros
    }

    /// No raw duration can match two of the four named pulse lengths.
    pub open spec fn windows_disjoint(self) -> bool {
        &&& self.lengths_apart(self.bit0_length_micros, self.bit1_length_micros)
        &&& self.lengths_apart(self.bit0_length_micros, self.first_sync_length_micros)
        &&& self.lengths_apart(self.bit0_length_micros, self.last_sync_length_micros)
        &&& self.lengths_apart(self.bit1_length_micros, self.first_sync_length_micros)
        &&& self.lengths_apart(self.bit1_length_micros, self.last_sync_length_micros)
        &&& self.lengths_apart(self.first_sync_length_micros, self.last_sync_length_micros)
    }

    /// Runtime check of [`windows_disjoint`](AppConfig::windows_disjoint),
    /// for validating a configuration before the pipeline starts.
    pub fn check_windows_disjoint(&self) -> (r: bool)
        requires
            self.wf(),
        ensures
            r == self.windows_disjoint(),
    {
        lengths_apart_check(self.bit0_length_micros, self.bit1_length_micros, self.signal_variance_micros)
            && lengths_apart_check(self.bit0_length_micros, self.first_sync_length_micros, self.signal_variance_micros)
            && lengths_apart_check(self.bit0_length_micros, self.last_sync_length_micros, self.signal_variance_micros)
            && lengths_apart_check(self.bit1_length_micros, self.first_sync_length_micros, self.signal_variance_micros)
            && lengths_apart_check(self.bit1_length_micros, self.last_sync_length_micros, self.signal_variance_micros)
            && lengths_apart_check(self.first_sync_length_micros, self.last_sync_length_micros, self.signal_variance_micros)
    }
}

/// `l1 - l2 >= 2v || l2 - l1 >= 2v`, computed without overflow for
/// non-negative arguments.
fn lengths_apart_check(l1: i64, l2: i64, v: i64) -> (r: bool)
    requires
        0 <= l1,
        0 <= l2,
        0 <= v,
    ensures
        r == (l1 - l2 >= 2 * v || l2 - l1 >= 2 * v),
{
    if l1 >= l2 {
        let d = l1 - l2;
        d >= v && d - v >= v
    } else {
        let d = l2 - l1;
        d >= v && d - v >= v
    }
}

} // verus!
