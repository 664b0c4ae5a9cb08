//! The pipeline driver: owns the ingestion state and threads each edge
//! through classification, frame assembly, decoding and the consensus
//! filter, handing emitted readings back to the caller.

use vstd::prelude::*;

use crate::classify::Symbol;
use crate::classify::classify;
use crate::classify::spec_classify;
use crate::config::AppConfig;
use crate::consensus::all_equiv;
use crate::consensus::channel_after_sweep;
use crate::consensus::channel_emission;
use crate::consensus::emissions_upto;
use crate::consensus::has_stale;
use crate::consensus::has_stale_entry;
use crate::decode::decode;
use crate::decode::spec_decode;
use crate::reading::WeatherReading;
use crate::reading::reading_wf;

verus! {

/// A transmitter channel is a 4-bit tag, so per-channel buffering needs only
/// this many slots.
pub const CHANNEL_COUNT: usize = 16;

/// The runaway-capture guard: a frame buffer that reaches this many entries
/// is cleared immediately, without a decode attempt, to bound memory under a
/// stuck or malformed transmitter.
pub const FRAME_BUFFER_CAP: usize = 1024;

/// One frame-assembly step: what one classified duration does to the frame
/// buffer and the ingestion flag, and whether it completes a frame.
///
/// - A sync-start always restarts capture, discarding any partial frame;
///   this protects against missed sync-end pulses.
/// - A sync-end stops capture and hands the buffer as collected so far to
///   the decoder; the buffer is cleared whether or not the decode succeeds.
/// - While capturing, every other duration is recorded raw — noise included,
///   which the decoder drops later — unless that entry would bring the
///   buffer to its cap, in which case the buffer is cleared instead, with no
///   decode attempt.
/// - While idle, every other duration is ignored.
pub open spec fn spec_assemble(
    cfg: AppConfig,
    buf: Seq<i64>,
    ingesting: bool,
    duration: i64,
    now: i64,
) -> (Seq<i64>, bool, Option<WeatherReading>) {
    match spec_classify(cfg, duration) {
        Symbol::SyncEnd => (Seq::empty(), false, spec_decode(cfg, buf, now)),
        Symbol::SyncStart => (Seq::empty(), true, None),
        _ => {
            if ingesting {
                let grown = buf.push(duration);
                if grown.len() >= FRAME_BUFFER_CAP {
                    (Seq::empty(), true, None)
                } else {
                    (grown, true, None)
                }
            } else {
                (buf, false, None)
            }
        },
    }
}

/// One full pipeline step over the state's mathematical views: assemble (and
/// decode, on completion), buffer the decoded reading on its channel, then
/// run one consensus sweep. Returns the new frame buffer, the new ingestion
/// flag, the new per-channel buffers, and the emitted readings.
pub open spec fn spec_pipeline(
    cfg: AppConfig,
    buf: Seq<i64>,
    ingesting: bool,
    lists: Seq<Seq<WeatherReading>>,
    duration: i64,
    now: i64,
) -> (Seq<i64>, bool, Seq<Seq<WeatherReading>>, Seq<WeatherReading>) {
    let (new_buf, new_ingesting, decoded) = spec_assemble(cfg, buf, ingesting, duration, now);
    let buffered = match decoded {
        Some(r) => lists.update(r.channel as int, lists[r.channel as int].push(r)),
        None => lists,
    };
    let after = Seq::new(lists.len(), |c: int| channel_after_sweep(buffered[c], now as int));
    (new_buf, new_ingesting, after, emissions_upto(buffered, now as int, lists.len() as int))
}

/// Everything the pipeline carries between edges. One instance, owned by the
/// caller and passed by exclusive reference into each processing call.
pub struct IngestionState {
    /// Timestamp of the previous edge, in microseconds; the next raw duration
    /// is measured from it.
    pub last_time: i64,
    /// The frame buffer: raw durations collected since the last sync-start.
    pub ingestion_vec: Vec<i64>,
    /// True between a sync-start and the next sync-end.
    pub should_ingest: bool,
    /// Decoded readings awaiting consensus, indexed by channel.
    pub recent_readings: Vec<Vec<WeatherReading>>,
}

impl IngestionState {
    /// The per-channel buffers as a sequence of sequences, indexed by
    /// channel.
    pub open spec fn readings(self) -> Seq<Seq<WeatherReading>> {
        self.recent_readings@.map_values(|v: Vec<WeatherReading>| v@)
    }

    /// The state invariant, established by [`IngestionState::new`] and
    /// preserved by every processing call: the last edge timestamp is a
    /// valid time, the frame buffer is strictly under its cap, there is one
    /// buffer per channel, and every buffered reading sits under its own
    /// channel with a valid timestamp.
    pub open spec fn wf(self) -> bool {
        &&& 0 <= self.last_time
        &&& self.ingestion_vec@.len() < FRAME_BUFFER_CAP
        &&& self.readings().len() == CHANNEL_COUNT
        &&& forall|c: int, i: int|
            0 <= c < CHANNEL_COUNT && 0 <= i < self.readings()[c].len() ==> {
                &&& (#[trigger] self.readings()[c][i]).channel == c
                &&& 0 <= self.readings()[c][i].time
            }
    }

    /// A fresh state: not ingesting, an empty frame buffer, no buffered
    /// readings, and the given time as the previous edge.
    pub fn new(now_micros: i64) -> (s: IngestionState)
        requires
            0 <= now_micros,
        ensures
            s.wf(),
            s.last_time == now_micros,
            s.ingestion_vec@ == Seq::<i64>::empty(),
            s.should_ingest == false,
            forall|c: int|
                0 <= c < CHANNEL_COUNT ==> #[trigger] s.readings()[c] == Seq::<
                    WeatherReading,
                >::empty(),
    {
        let mut recent_readings: Vec<Vec<WeatherReading>> = Vec::new();
        let mut c: usize = 0;
        while c < CHANNEL_COUNT
            invariant
                c <= CHANNEL_COUNT,
                recent_readings@.len() == c,
                forall|k: int| 0 <= k < c ==> (#[trigger] recent_readings@[k])@.len() == 0,
            decreases CHANNEL_COUNT - c,
        {
            recent_readings.push(Vec::new());
            c = c + 1;
        }
        IngestionState {
            last_time: now_micros,
            ingestion_vec: Vec::new(),
            should_ingest: false,
            recent_readings,
        }
    }

    /// Buffers one decoded reading on its channel, creating no other change.
    pub fn on_decoded(&mut self, reading: WeatherReading)
        requires
            old(self).wf(),
            reading_wf(reading),
        ensures
            final(self).wf(),
            final(self).last_time == old(self).last_time,
            final(self).ingestion_vec@ == old(self).ingestion_vec@,
            final(self).should_ingest == old(self).should_ingest,
            final(self).readings() == old(self).readings().update(
                reading.channel as int,
                old(self).readings()[reading.channel as int].push(reading),
            ),
    {
        let ch = reading.channel as usize;
        let list = &mut self.recent_readings[ch];
        list.push(reading);
        proof {
            assert(self.readings() =~~= old(self).readings().update(
                reading.channel as int,
                old(self).readings()[reading.channel as int].push(reading),
            ));
        }
    }

    /// One consensus pass, run once per raw-duration event: every channel
    /// with a reading that has aged past the staleness window is decided —
    /// emitted if it holds several pairwise-equivalent readings, discarded
    /// otherwise — and every other channel is left untouched. Returns the
    /// emitted readings in channel order, for the caller to write to the
    /// sink.
    pub fn sweep(&mut self, now_micros: i64) -> (emitted: Vec<WeatherReading>)
        requires
            old(self).wf(),
            0 <= now_micros,
        ensures
            final(self).wf(),
            final(self).last_time == old(self).last_time,
            final(self).ingestion_vec@ == old(self).ingestion_vec@,
            final(self).should_ingest == old(self).should_ingest,
            forall|c: int|
                0 <= c < CHANNEL_COUNT ==> #[trigger] final(self).readings()[c]
                    == channel_after_sweep(old(self).readings()[c], now_micros as int),
            emitted@ == emissions_upto(
                old(self).readings(),
                now_micros as int,
                CHANNEL_COUNT as int,
            ),
    {
        let mut emitted: Vec<WeatherReading> = Vec::new();
        let mut ch: usize = 0;
        while ch < CHANNEL_COUNT
            invariant
                old(self).wf(),
                0 <= now_micros,
                ch <= CHANNEL_COUNT,
                self.last_time == old(self).last_time,
                self.ingestion_vec@ == old(self).ingestion_vec@,
                self.should_ingest == old(self).should_ingest,
                self.readings().len() == CHANNEL_COUNT,
                forall|c: int|
                    0 <= c < ch ==> #[trigger] self.readings()[c] == channel_after_sweep(
                        old(self).readings()[c],
                        now_micros as int,
                    ),
                forall|c: int|
                    ch <= c < CHANNEL_COUNT ==> #[trigger] self.readings()[c] == old(
                        self,
                    ).readings()[c],
                emitted@ == emissions_upto(old(self).readings(), now_micros as int, ch as int),
            decreases CHANNEL_COUNT - ch,
        {
            let ghost pre = *self;
            let ghost lists = old(self).readings();
            let ghost now = now_micros as int;
            proof {
                assert(pre.readings()[ch as int] == lists[ch as int]);
                assert(forall|i: int|
                    0 <= i < lists[ch as int].len() ==> 0 <= (#[trigger] lists[ch as int][i]).time);
            }
            let list_len = self.recent_readings[ch].len();
            let stale = has_stale_entry(&self.recent_readings[ch], now_micros);
            if stale {
                if list_len > 1 && all_equiv(&self.recent_readings[ch]) {
                    let list = &self.recent_readings[ch];
                    let first = list[0];
                    emitted.push(first);
                    proof {
                        assert(channel_emission(lists[ch as int], now) == Some(first));
                    }
                } else {
                    proof {
                        assert(channel_emission(lists[ch as int], now) is None);
                    }
                }
                let list = &mut self.recent_readings[ch];
                list.clear();
                proof {
                    assert(self.readings() =~~= pre.readings().update(
                        ch as int,
                        Seq::<WeatherReading>::empty(),
                    ));
                }
            } else {
                proof {
                    assert(channel_emission(lists[ch as int], now) is None);
                }
            }
            proof {
                assert(emitted@ == emissions_upto(lists, now, ch as int + 1));
            }
            ch = ch + 1;
        }
        emitted
    }

    /// The pipeline driver for one raw inter-edge duration: classify,
    /// assemble, decode on frame completion, buffer the decoded reading,
    /// then sweep the consensus filter — exactly [`spec_pipeline`] on the
    /// state's views. Returns the readings the sweep released, for the
    /// caller to write to the sink.
    pub fn handle_duration(
        &mut self,
        cfg: &AppConfig,
        duration_micros: i64,
        now_micros: i64,
    ) -> (emitted: Vec<WeatherReading>)
        requires
            cfg.wf(),
            old(self).wf(),
            0 <= now_micros,
        ensures
            final(self).wf(),
            final(self).last_time == old(self).last_time,
            ({
                let step = spec_pipeline(
                    *cfg,
                    old(self).ingestion_vec@,
                    old(self).should_ingest,
                    old(self).readings(),
                    duration_micros,
                    now_micros,
                );
                &&& final(self).ingestion_vec@ == step.0
                &&& final(self).should_ingest == step.1
                &&& final(self).readings() == step.2
                &&& emitted@ == step.3
            }),
    {
        let ghost step = spec_pipeline(
            *cfg,
            old(self).ingestion_vec@,
            old(self).should_ingest,
            old(self).readings(),
            duration_micros,
            now_micros,
        );
        match classify(cfg, duration_micros) {
            Symbol::SyncEnd => {
                self.should_ingest = false;
                let decoded = decode(cfg, &self.ingestion_vec, now_micros);
                self.ingestion_vec.clear();
                if let Some(r) = decoded {
                    self.on_decoded(r);
                }
            },
            Symbol::SyncStart => {
                self.ingestion_vec.clear();
                self.should_ingest = true;
            },
            _ => {
                if self.should_ingest {
                    self.ingestion_vec.push(duration_micros);
                    if self.ingestion_vec.len() >= FRAME_BUFFER_CAP {
                        self.ingestion_vec.clear();
                    }
                }
            },
        }
        let emitted = self.sweep(now_micros);
        proof {
            assert(self.readings() =~~= step.2);
        }
        emitted
    }

    /// The edge-interrupt entry point: derives the raw duration from the
    /// previous edge's timestamp, records this edge as the new previous one,
    /// and runs one full pipeline step on the duration.
    pub fn handle_interrupt(&mut self, cfg: &AppConfig, now_micros: i64) -> (emitted: Vec<
        WeatherReading,
    >)
        requires
            cfg.wf(),
            old(self).wf(),
            0 <= now_micros,
        ensures
            final(self).wf(),
            final(self).last_time == now_micros,
            ({
                let step = spec_pipeline(
                    *cfg,
                    old(self).ingestion_vec@,
                    old(self).should_ingest,
                    old(self).readings(),
                    (now_micros - old(self).last_time) as i64,
                    now_micros,
                );
                &&& final(self).ingestion_vec@ == step.0
                &&& final(self).should_ingest == step.1
                &&& final(self).readings() == step.2
                &&& emitted@ == step.3
            }),
    {
        let duration_micros = now_micros - self.last_time;
        self.last_time = now_micros;
        self.handle_duration(cfg, duration_micros, now_micros)
    }
}

} // verus!
