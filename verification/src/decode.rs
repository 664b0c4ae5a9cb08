//! The frame decoder: filters a captured raw-duration sequence down to its
//! bits, checks the bit count, and extracts temperature, humidity and
//! channel by fixed bit offsets.

use vstd::prelude::*;

use crate::classify::Symbol;
use crate::classify::classify;
use crate::classify::spec_classify;
use crate::config::AppConfig;
use crate::reading::WeatherReading;
use crate::reading::reading_wf;

verus! {

/// The bit sequence a raw-duration sequence carries: each duration classified
/// as a bit pulse contributes its bit, in order; every other entry is
/// dropped.
pub open spec fn bits_of(cfg: AppConfig, durations: Seq<i64>) -> Seq<bool>
    decreases durations.len(),
{
    if durations.len() == 0 {
        Seq::empty()
    } else {
        let rest = bits_of(cfg, durations.drop_last());
        match spec_classify(cfg, durations.last()) {
            Symbol::Bit0 => rest.push(false),
            Symbol::Bit1 => rest.push(true),
            _ => rest,
        }
    }
}

/// The unsigned value of a bit sequence read big-endian: the first bit is the
/// most significant.
pub open spec fn be_val(bits: Seq<bool>) -> nat
    decreases bits.len(),
{
    if bits.len() == 0 {
        0
    } else {
        2 * be_val(bits.drop_last()) + (if bits.last() { 1nat } else { 0nat })
    }
}

/// 2 to the power `n`.
spec fn two_to(n: nat) -> nat
    decreases n,
{
    if n == 0 {
        1nat
    } else {
        2 * two_to((n - 1) as nat)
    }
}

/// A big-endian value is bounded by 2 to the bit count.
proof fn lemma_be_val_bound(bits: Seq<bool>)
    ensures
        be_val(bits) < two_to(bits.len()),
    decreases bits.len(),
{
    if bits.len() > 0 {
        lemma_be_val_bound(bits.drop_last());
    }
}

proof fn lemma_two_to_monotone(a: nat, b: nat)
    requires
        a <= b,
    ensures
        two_to(a) <= two_to(b),
    decreases b,
{
    if a < b {
        lemma_two_to_monotone(a, (b - 1) as nat);
    }
}

/// The temperature rule, in tenths of a degree Fahrenheit, for the unsigned
/// value `field` of the 12-bit temperature field. The protocol renders
/// `field` as its decimal digit string and reads it back as follows:
/// - 2 digits `d0 d1`: `d0 + d1/10` degrees, i.e. `d0*10 + d1` tenths;
/// - 3 digits `d0 d1 d2`: `d0*10 + d1 + d2/10` degrees, i.e. the field value
///   itself in tenths (as in the 2-digit case);
/// - 4 digits `d0 d1 d2 d3`: `(d0 + d1)*10 + d2 + d3/10` degrees;
/// - any other digit count: the temperature cannot be decoded and falls back
///   to 0.0 degrees. This is an inherited ambiguity of the observed protocol,
///   not a deliberate design choice.
pub open spec fn temp_tenths_of(field: int) -> int {
    if 10 <= field < 1000 {
        field
    } else if 1000 <= field < 10000 {
        (field / 1000 + (field / 100) % 10) * 100 + field % 100
    } else {
        0
    }
}

/// Runtime form of [`temp_tenths_of`]. Public so that the fallback for digit
/// counts outside two to four can be exercised directly: a 12-bit field never
/// renders as five digits, but any one-digit field falls back to 0 the same
/// way.
pub fn temp_f_tenths(field: u16) -> (r: u16)
    ensures
        r == temp_tenths_of(field as int),
        r <= 1899,
{
    if 10 <= field && field < 1000 {
        field
    } else if 1000 <= field && field < 10000 {
        (field / 1000 + (field / 100) % 10) * 100 + field % 100
    } else {
        0
    }
}

/// Filters a raw-duration sequence down to its bit sequence, dropping every
/// entry that classifies as neither bit symbol.
pub fn classify_bits(cfg: &AppConfig, durations: &Vec<i64>) -> (bits: Vec<bool>)
    requires
        cfg.wf(),
    ensures
        bits@ == bits_of(*cfg, durations@),
{
    let mut bits: Vec<bool> = Vec::new();
    let mut i: usize = 0;
    while i < durations.len()
        invariant
            cfg.wf(),
            i <= durations@.len(),
            bits@ == bits_of(*cfg, durations@.subrange(0, i as int)),
        decreases durations@.len() - i,
    {
        let d = durations[i];
        match classify(cfg, d) {
            Symbol::Bit0 => bits.push(false),
            Symbol::Bit1 => bits.push(true),
            _ => {},
        }
        proof {
            let pre = durations@.subrange(0, i as int);
            let post = durations@.subrange(0, i + 1int);
            assert(post.drop_last() =~= pre);
            assert(post.last() == durations@[i as int]);
        }
        i = i + 1;
    }
    proof {
        assert(durations@.subrange(0, durations@.len() as int) =~= durations@);
    }
    bits
}

/// Reads bits `[lo, hi)` of `bits` as a big-endian unsigned integer.
fn be_field_u16(bits: &Vec<bool>, lo: usize, hi: usize) -> (r: u16)
    requires
        lo <= hi,
        hi <= bits@.len(),
        hi - lo <= 12,
    ensures
        r == be_val(bits@.subrange(lo as int, hi as int)),
        r < 4096,
{
    let mut r: u16 = 0;
    let mut i: usize = lo;
    while i < hi
        invariant
            lo <= i <= hi,
            hi <= bits@.len(),
            hi - lo <= 12,
            r == be_val(bits@.subrange(lo as int, i as int)),
        decreases hi - i,
    {
        proof {
            let pre = bits@.subrange(lo as int, i as int);
            lemma_be_val_bound(pre);
            lemma_two_to_monotone(pre.len() as nat, 11);
            assert(two_to(11) == 2048) by {
                reveal_with_fuel(two_to, 12);
            }
            let post = bits@.subrange(lo as int, i + 1int);
            assert(post.drop_last() =~= pre);
            assert(post.last() == bits@[i as int]);
        }
        r = 2 * r + (if bits[i] { 1 } else { 0 });
        i = i + 1;
    }
    proof {
        let all = bits@.subrange(lo as int, hi as int);
        lemma_be_val_bound(all);
        lemma_two_to_monotone(all.len() as nat, 12);
        assert(two_to(12) == 4096) by {
            reveal_with_fuel(two_to, 13);
        }
    }
    r
}

/// What a raw-duration sequence decodes to: nothing unless its bit sequence
/// has exactly the expected 40 bits; otherwise a reading whose temperature
/// field is bits `[16, 28)`, humidity digits bits `[28, 32)` and `[32, 36)`,
/// and channel bits `[36, 40)`, each read big-endian, stamped with the time
/// of the decode.
pub open spec fn spec_decode(cfg: AppConfig, durations: Seq<i64>, now_micros: i64) -> Option<
    WeatherReading,
> {
    let bits = bits_of(cfg, durations);
    if bits.len() == cfg.expected_bit_length {
        Some(
            WeatherReading {
                time: now_micros,
                humidity: (be_val(bits.subrange(28, 32)) * 10 + be_val(bits.subrange(32, 36))) as u8,
                temp_f_tenths: temp_tenths_of(be_val(bits.subrange(16, 28)) as int) as u16,
                channel: be_val(bits.subrange(36, 40)) as u8,
            },
        )
    } else {
        None
    }
}

/// A frame whose classified bit count misses the expected 40 — one bit
/// short, one bit long, or any other count — decodes to no reading.
pub proof fn lemma_wrong_bit_count_no_reading(
    cfg: AppConfig,
    durations: Seq<i64>,
    now_micros: i64,
)
    requires
        cfg.wf(),
        bits_of(cfg, durations).len() != 40,
    ensures
        spec_decode(cfg, durations, now_micros) is None,
{
}

/// A temperature field whose decimal rendering has five digits falls back to
/// 0.0 degrees, as does a one-digit field. A 12-bit field never reaches five
/// digits, so for frames the fallback shows up only through one-digit
/// fields; [`temp_f_tenths`] is public so the five-digit case can still be
/// exercised directly.
pub proof fn lemma_out_of_range_digit_count_falls_back(field: int)
    requires
        field < 10 || 10000 <= field,
    ensures
        temp_tenths_of(field) == 0,
{
}

/// Decodes one completed frame. Fails silently, returning nothing, rather
/// than raising an error: malformed frames are common under radio noise.
pub fn decode(cfg: &AppConfig, durations: &Vec<i64>, now_micros: i64) -> (r: Option<
    WeatherReading,
>)
    requires
        cfg.wf(),
        0 <= now_micros,
    ensures
        r == spec_decode(*cfg, durations@, now_micros),
        (r matches Some(w) ==> reading_wf(w) && w.time == now_micros),
{
    let bits = classify_bits(cfg, durations);
    if bits.len() != 40 {
        return None;
    }
    let temp_field = be_field_u16(&bits, 16, 28);
    let left_hum = be_field_u16(&bits, 28, 32);
    let right_hum = be_field_u16(&bits, 32, 36);
    let channel = be_field_u16(&bits, 36, 40);
    proof {
        lemma_be_val_bound(bits@.subrange(28, 32));
        lemma_be_val_bound(bits@.subrange(32, 36));
        lemma_be_val_bound(bits@.subrange(36, 40));
        assert(two_to(4) == 16) by {
            reveal_with_fuel(two_to, 5);
        }
    }
    let humidity = (left_hum * 10 + right_hum) as u8;
    let temp_f_tenths = temp_f_tenths(temp_field);
    Some(
        WeatherReading {
            time: now_micros,
            humidity,
            temp_f_tenths,
            channel: channel as u8,
        },
    )
}

} // verus!
