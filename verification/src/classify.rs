//! The edge classifier: maps a raw inter-edge duration to one of five
//! symbols, by the four configured pulse windows.

use vstd::prelude::*;

use crate::config::AppConfig;

verus! {

/// What a single inter-edge duration means.
#[derive(Clone, Copy, Debug, PartialEq, Eq, Structural)]
pub enum Symbol {
    /// A pulse carrying a 0 bit.
    Bit0,
    /// A pulse carrying a 1 bit.
    Bit1,
    /// The pulse that opens a frame.
    SyncStart,
    /// The pulse that closes a frame.
    SyncEnd,
    /// A duration matching no window; dropped during decode.
    Noise,
}

/// The classification rule: the sync-end window is checked first, the two bit
/// windows next, the sync-start window last, and anything else is noise. The
/// order matters only if the configured windows overlap, which is a
/// configuration error, not a runtime one.
pub open spec fn spec_classify(cfg: AppConfig, x: i64) -> Symbol {
    if cfg.in_window(cfg.last_sync_length_micros, x) {
        Symbol::SyncEnd
    } else if cfg.in_window(cfg.bit0_length_micros, x) {
        Symbol::Bit0
    } else if cfg.in_window(cfg.bit1_length_micros, x) {
        Symbol::Bit1
    } else if cfg.in_window(cfg.first_sync_length_micros, x) {
        Symbol::SyncStart
    } else {
        Symbol::Noise
    }
}

/// Classifies one raw duration. Pure, total: every duration gets exactly one
/// symbol, and a duration matching no window gets [`Symbol::Noise`].
pub fn classify(cfg: &AppConfig, duration_micros: i64) -> (s: Symbol)
    requires
        cfg.wf(),
    ensures
        s == spec_classify(*cfg, duration_micros),
{
    if in_window_check(cfg.last_sync_length_micros, cfg.signal_variance_micros, duration_micros) {
        Symbol::SyncEnd
    } else if in_window_check(cfg.bit0_length_micros, cfg.signal_variance_micros, duration_micros) {
        Symbol::Bit0
    } else if in_window_check(cfg.bit1_length_micros, cfg.signal_variance_micros, duration_micros) {
        Symbol::Bit1
    } else if in_window_check(cfg.first_sync_length_micros, cfg.signal_variance_micros, duration_micros) {
        Symbol::SyncStart
    } else {
        Symbol::Noise
    }
}

/// `length - variance < x < length + variance`, computed without overflow for
/// a non-negative length and variance whose sum fits in `i64`.
fn in_window_check(length: i64, variance: i64, x: i64) -> (r: bool)
    requires
        0 <= length,
        0 <= variance,
        length + variance <= i64::MAX,
    ensures
        r == (length - variance < x && x < length + variance),
{
    length - variance < x && x < length + variance
}

/// With disjoint windows the checking order in [`spec_classify`] is
/// irrelevant: a duration is classified as a given symbol exactly when it
/// lies in that symbol's window, and as noise exactly when it lies in none.
pub proof fn lemma_classify_unambiguous(cfg: AppConfig, x: i64)
    requires
        cfg.windows_disjoint(),
    ensures
        (spec_classify(cfg, x) == Symbol::Bit0) == cfg.in_window(cfg.bit0_length_micros, x),
        (spec_classify(cfg, x) == Symbol::Bit1) == cfg.in_window(cfg.bit1_length_micros, x),
        (spec_classify(cfg, x) == Symbol::SyncStart) == cfg.in_window(cfg.first_sync_length_micros, x),
        (spec_classify(cfg, x) == Symbol::SyncEnd) == cfg.in_window(cfg.last_sync_length_micros, x),
        (spec_classify(cfg, x) == Symbol::Noise) == (
            !cfg.in_window(cfg.bit0_length_micros, x)
            && !cfg.in_window(cfg.bit1_length_micros, x)
            && !cfg.in_window(cfg.first_sync_length_micros, x)
            && !cfg.in_window(cfg.last_sync_length_micros, x)
        ),
{
}

} // verus!
