//! The consensus filter: suppresses single noisy decodes by requiring
//! repeated agreement within a quiescence window before a reading is
//! surfaced.

use vstd::prelude::*;

use crate::reading::WeatherReading;
use crate::reading::equivalent;

verus! {

/// The quiescence window: a buffered reading this much older than "now"
/// makes its channel due for a consensus decision (5000 ms).
pub const STALENESS_MICROS: i64 = 5_000_000;

/// Whether `r` has aged past the staleness window relative to `now`.
pub open spec fn is_stale(r: WeatherReading, now: int) -> bool {
    now - r.time >= STALENESS_MICROS
}

/// Whether some buffered reading of a channel has aged past the window.
pub open spec fn has_stale(list: Seq<WeatherReading>, now: int) -> bool {
    exists|i: int| 0 <= i < list.len() && is_stale(list[i], now)
}

/// Whether a channel's buffered readings are pairwise equivalent.
pub open spec fn all_equivalent(list: Seq<WeatherReading>) -> bool {
    forall|i: int, j: int|
        0 <= i < list.len() && 0 <= j < list.len() ==> #[trigger] equivalent(list[i], list[j])
}

/// What a sweep emits for one channel: its first buffered reading, but only
/// when the channel is due (some entry is stale), holds more than one reading
/// and all of them agree. A single reading, or disagreeing readings, emit
/// nothing.
pub open spec fn channel_emission(list: Seq<WeatherReading>, now: int) -> Option<WeatherReading> {
    if list.len() > 1 && has_stale(list, now) && all_equivalent(list) {
        Some(list[0])
    } else {
        None
    }
}

/// What a sweep leaves buffered for one channel: a channel that is due is
/// cleared whether or not it emitted; any other channel is left untouched,
/// still accumulating evidence.
pub open spec fn channel_after_sweep(list: Seq<WeatherReading>, now: int) -> Seq<WeatherReading> {
    if has_stale(list, now) {
        Seq::empty()
    } else {
        list
    }
}

/// Everything a sweep over channels `0 .. n` emits, in channel order.
pub open spec fn emissions_upto(lists: Seq<Seq<WeatherReading>>, now: int, n: int) -> Seq<
    WeatherReading,
>
    decreases n,
{
    if n <= 0 {
        Seq::empty()
    } else {
        let rest = emissions_upto(lists, now, n - 1);
        match channel_emission(lists[n - 1], now) {
            Some(r) => rest.push(r),
            None => rest,
        }
    }
}

/// A sweep in which no channel is due changes nothing and emits nothing, no
/// matter how often it runs.
pub proof fn lemma_sweep_no_stale_unchanged(lists: Seq<Seq<WeatherReading>>, now: int)
    requires
        forall|c: int| 0 <= c < lists.len() ==> !has_stale(#[trigger] lists[c], now),
    ensures
        forall|c: int|
            0 <= c < lists.len() ==> channel_after_sweep(#[trigger] lists[c], now) == lists[c],
        emissions_upto(lists, now, lists.len() as int) == Seq::<WeatherReading>::empty(),
{
    lemma_emissions_empty_upto(lists, now, lists.len() as int);
}

proof fn lemma_emissions_empty_upto(lists: Seq<Seq<WeatherReading>>, now: int, n: int)
    requires
        n <= lists.len(),
        forall|c: int| 0 <= c < lists.len() ==> !has_stale(#[trigger] lists[c], now),
    ensures
        emissions_upto(lists, now, n) == Seq::<WeatherReading>::empty(),
    decreases n,
{
    if n > 0 {
        lemma_emissions_empty_upto(lists, now, n - 1);
    }
}

/// An isolated single-shot decode is never emitted alone: a channel holding
/// exactly one reading is cleared without emission once it is due.
pub proof fn lemma_singleton_never_emitted(list: Seq<WeatherReading>, now: int)
    requires
        list.len() == 1,
    ensures
        channel_emission(list, now) is None,
{
}

/// Runtime check of [`has_stale`].
pub fn has_stale_entry(list: &Vec<WeatherReading>, now_micros: i64) -> (b: bool)
    requires
        0 <= now_micros,
        forall|i: int| 0 <= i < list@.len() ==> 0 <= (#[trigger] list@[i]).time,
    ensures
        b == has_stale(list@, now_micros as int),
{
    let mut i: usize = 0;
    while i < list.len()
        invariant
            0 <= now_micros,
            i <= list@.len(),
            forall|k: int| 0 <= k < list@.len() ==> 0 <= (#[trigger] list@[k]).time,
            forall|k: int| 0 <= k < i ==> !is_stale(#[trigger] list@[k], now_micros as int),
        decreases list@.len() - i,
    {
        if now_micros - list[i].time >= STALENESS_MICROS {
            return true;
        }
        i = i + 1;
    }
    false
}

/// Runtime check of [`all_equivalent`].
pub fn all_equiv(list: &Vec<WeatherReading>) -> (b: bool)
    ensures
        b == all_equivalent(list@),
{
    let mut i: usize = 0;
    while i < list.len()
        invariant
            i <= list@.len(),
            forall|k: int, l: int|
                0 <= k < i && 0 <= l < list@.len() ==> #[trigger] equivalent(list@[k], list@[l]),
        decreases list@.len() - i,
    {
        let mut j: usize = 0;
        while j < list.len()
            invariant
                i < list@.len(),
                j <= list@.len(),
                forall|k: int, l: int|
                    0 <= k < i && 0 <= l < list@.len() ==> #[trigger] equivalent(list@[k], list@[l]),
                forall|l: int| 0 <= l < j ==> #[trigger] equivalent(list@[i as int], list@[l]),
            decreases list@.len() - j,
        {
            if !list[i].equivalent(&list[j]) {
                return false;
            }
            j = j + 1;
        }
        i = i + 1;
    }
    true
}

} // verus!
