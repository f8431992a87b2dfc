//! The windowed FPS telemetry aggregator.
//!
//! Two independent timers drive it: a non-overlapping averaging window
//! (`WINDOW_DURATION_MS`) whose accumulators reset when it elapses, and
//! a display-refresh cadence (`DISPLAY_INTERVAL_MS`). A third cadence,
//! the periodic console report (`REPORT_INTERVAL_MS`), is tracked by the
//! simulation counters. FPS values are carried in milli-FPS.

use vstd::prelude::*;

use crate::config;
use crate::spawner::SimulationStats;
use crate::text_out;

verus! {

/// Rolling FPS statistics: the current window's accumulators, the
/// display-refresh bookkeeping, and a bounded history of recent samples
/// used as a fallback average source right after a window reset.
pub struct FpsWindow {
    /// Sum of the milli-FPS samples of the current window.
    pub rolling_sum: u64,
    /// Number of samples in the current window.
    pub sample_count: u32,
    /// Timestamp (ms) when the current window began.
    pub window_start_ms: u64,
    /// Timestamp (ms) of the last display refresh.
    pub last_display_ms: u64,
    /// The rounded FPS value last published to the display, if any.
    pub last_display_fps: Option<u64>,
    /// Most recent milli-FPS samples, oldest first, at most
    /// `HISTORY_CAPACITY` of them.
    pub history: Vec<u64>,
}

/// Sum of a sequence of samples.
pub open spec fn spec_seq_sum(s: Seq<u64>) -> int
    decreases s.len(),
{
    if s.len() == 0 {
        0
    } else {
        spec_seq_sum(s.drop_last()) + s.last()
    }
}

/// A sample sum is bounded by the sequence length times the largest
/// element bound.
pub proof fn lemma_seq_sum_bound(s: Seq<u64>, m: int)
    requires
        forall|i: int| 0 <= i < s.len() ==> #[trigger] s[i] <= m,
        m >= 0,
    ensures
        0 <= spec_seq_sum(s) <= s.len() * m,
    decreases s.len(),
{
    if s.len() == 0 {
    } else {
        lemma_seq_sum_bound(s.drop_last(), m);
        assert(s.last() <= m);
        assert((s.len() - 1) * m + m == s.len() * m) by (nonlinear_arith);
    }
}

impl FpsWindow {
    /// Well-formedness: the accumulators are consistent (the sum never
    /// exceeds what `sample_count` samples could contribute) and the
    /// history is bounded in length and element size.
    pub open spec fn wf(self) -> bool {
        &&& self.rolling_sum <= self.sample_count * config::FPS_SAMPLE_MAX
        &&& self.history@.len() <= config::HISTORY_CAPACITY
        &&& forall|i: int|
            0 <= i < self.history@.len() ==> #[trigger] self.history@[i]
                <= config::FPS_SAMPLE_MAX
    }

    /// The window has elapsed at time `now`.
    pub open spec fn spec_window_expired(self, now: int) -> bool {
        now - self.window_start_ms >= config::WINDOW_DURATION_MS
    }

    /// A display refresh is due at time `now`.
    pub open spec fn spec_display_due(self, now: int) -> bool {
        now - self.last_display_ms >= config::DISPLAY_INTERVAL_MS
    }

    /// Average of the current window, milli-FPS; read only when the
    /// window has samples.
    pub open spec fn spec_window_avg_milli(self) -> int {
        self.rolling_sum as int / self.sample_count as int
    }

    /// Average source for the periodic report: the current window when
    /// it has samples, else the bounded history, else zero.
    pub open spec fn spec_report_avg_milli(self) -> int {
        if self.sample_count > 0 {
            self.spec_window_avg_milli()
        } else if self.history@.len() > 0 {
            spec_seq_sum(self.history@) / self.history@.len() as int
        } else {
            0
        }
    }

    /// Rolling sum after a sample lands at time `now`: a fresh window
    /// starts at exactly the sample; otherwise it joins the current one
    /// (unless the sample counter is saturated).
    pub open spec fn spec_record_sum(self, now: int, fps: int) -> int {
        if self.spec_window_expired(now) {
            fps
        } else if self.sample_count < u32::MAX {
            self.rolling_sum + fps
        } else {
            self.rolling_sum as int
        }
    }

    /// Sample count after a sample lands at time `now`.
    pub open spec fn spec_record_count(self, now: int) -> int {
        if self.spec_window_expired(now) {
            1
        } else if self.sample_count < u32::MAX {
            self.sample_count + 1
        } else {
            self.sample_count as int
        }
    }

    /// Window start after a sample lands at time `now`.
    pub open spec fn spec_record_start(self, now: int) -> int {
        if self.spec_window_expired(now) {
            now
        } else {
            self.window_start_ms as int
        }
    }

    /// Telemetry state before the first frame.
    pub fn initial() -> (w: FpsWindow)
        ensures
            w.rolling_sum == 0,
            w.sample_count == 0,
            w.window_start_ms == 0,
            w.last_display_ms == 0,
            w.last_display_fps is None,
            w.history@ == Seq::<u64>::empty(),
            w.wf(),
    {
        FpsWindow {
            rolling_sum: 0,
            sample_count: 0,
            window_start_ms: 0,
            last_display_ms: 0,
            last_display_fps: None,
            history: Vec::new(),
        }
    }

    /// Feeds one frame's instantaneous FPS sample at time `now_ms`.
    ///
    /// If the current window has elapsed, the next sample starts a fresh
    /// window: the accumulators restart at exactly this sample and
    /// `window_start` moves to `now_ms`. Otherwise the sample joins the
    /// current window (unless the sample counter is saturated, which
    /// leaves the accumulators as they are). The sample also always
    /// enters the bounded history, evicting the oldest entry when full.
    pub fn record_sample(&mut self, now_ms: u64, fps_milli: u64)
        requires
            old(self).wf(),
            fps_milli <= config::FPS_SAMPLE_MAX,
        ensures
            final(self).wf(),
            final(self).rolling_sum == old(self).spec_record_sum(now_ms as int, fps_milli as int),
            final(self).sample_count == old(self).spec_record_count(now_ms as int),
            final(self).window_start_ms == old(self).spec_record_start(now_ms as int),
            final(self).history@ == spec_record_history(old(self).history@, fps_milli),
            final(self).last_display_ms == old(self).last_display_ms,
            final(self).last_display_fps == old(self).last_display_fps,
    {
        if now_ms >= self.window_start_ms && now_ms - self.window_start_ms
            >= config::WINDOW_DURATION_MS {
            self.rolling_sum = fps_milli;
            self.sample_count = 1;
            self.window_start_ms = now_ms;
        } else if self.sample_count < u32::MAX {
            proof {
                let sum = old(self).rolling_sum;
                let cnt = old(self).sample_count;
                assert(sum + fps_milli <= (cnt + 1) * config::FPS_SAMPLE_MAX) by (nonlinear_arith)
                    requires
                        sum <= cnt * config::FPS_SAMPLE_MAX,
                        fps_milli <= config::FPS_SAMPLE_MAX,
                ;
            }
            self.rolling_sum = self.rolling_sum + fps_milli;
            self.sample_count = self.sample_count + 1;
        }
        self.history.push(fps_milli);
        if self.history.len() > config::HISTORY_CAPACITY {
            self.history.remove(0);
            proof {
                assert(self.history@ =~= old(self).history@.drop_first().push(fps_milli));
            }
        }
        proof {
            assert forall|i: int| 0 <= i < self.history@.len() implies #[trigger] self.history@[i]
                <= config::FPS_SAMPLE_MAX by {
                if i < self.history@.len() - 1 {
                    if old(self).history@.len() < config::HISTORY_CAPACITY {
                        assert(self.history@[i] == old(self).history@[i]);
                    } else {
                        assert(self.history@[i] == old(self).history@[i + 1]);
                    }
                }
            }
        }
    }

    /// The display refresh: on its cadence, publishes the rounded
    /// window average as a fresh `"FPS: {n}"` string — but only when at
    /// least one sample exists (otherwise the previous text stands) and
    /// only when the rounded value actually differs from the one last
    /// published.
    pub fn display_refresh(&mut self, now_ms: u64) -> (r: Option<String>)
        requires
            old(self).wf(),
        ensures
            final(self).wf(),
            final(self).rolling_sum == old(self).rolling_sum,
            final(self).sample_count == old(self).sample_count,
            final(self).window_start_ms == old(self).window_start_ms,
            final(self).history@ == old(self).history@,
            final(self).last_display_ms == (if old(self).spec_display_due(now_ms as int) {
                now_ms
            } else {
                old(self).last_display_ms
            }),
            r is Some <==> (old(self).spec_display_due(now_ms as int) && old(self).sample_count > 0
                && old(self).last_display_fps != Some(
                spec_round_milli(old(self).spec_window_avg_milli()) as u64,
            )),
            r is Some ==> {
                &&& r->0@ == text_out::spec_fps_text(
                    spec_round_milli(old(self).spec_window_avg_milli()),
                )
                &&& final(self).last_display_fps == Some(
                    spec_round_milli(old(self).spec_window_avg_milli()) as u64,
                )
            },
            r is None ==> final(self).last_display_fps == old(self).last_display_fps,
    {
        if now_ms >= self.last_display_ms && now_ms - self.last_display_ms
            >= config::DISPLAY_INTERVAL_MS {
            self.last_display_ms = now_ms;
            if self.sample_count > 0 {
                let avg: u64 = self.rolling_sum / (self.sample_count as u64);
                let rounded: u64 = round_milli(avg);
                let changed: bool = match self.last_display_fps {
                    Some(prev) => prev != rounded,
                    None => true,
                };
                if changed {
                    self.last_display_fps = Some(rounded);
                    Some(text_out::fps_text(rounded))
                } else {
                    None
                }
            } else {
                None
            }
        } else {
            None
        }
    }
}

/// The bounded history after a sample lands: appended at the back, the
/// oldest entry evicted once the capacity is reached.
pub open spec fn spec_record_history(h: Seq<u64>, fps: u64) -> Seq<u64> {
    if h.len() < config::HISTORY_CAPACITY {
        h.push(fps)
    } else {
        h.drop_first().push(fps)
    }
}

/// Windowed reset law: once the elapsed time since `window_start`
/// reaches `WINDOW_DURATION_MS`, the next sample starts a fresh window
/// whose rolling sum is exactly that sample, whose sample count is 1,
/// and whose start is the sample's timestamp.
pub proof fn lemma_windowed_reset(w: FpsWindow, now: int, fps: int)
    requires
        w.spec_window_expired(now),
    ensures
        w.spec_record_sum(now, fps) == fps,
        w.spec_record_count(now) == 1,
        w.spec_record_start(now) == now,
{
}

/// Instantaneous FPS of a frame, milli-FPS: `1 / dt`, or 0 for a
/// degenerate (zero) time delta — never an infinity or an error.
pub open spec fn spec_inst_fps(dt_ms: int) -> int {
    if dt_ms <= 0 {
        0
    } else {
        1_000_000int / dt_ms
    }
}

/// Instantaneous FPS of a frame with elapsed time `dt_ms`.
pub fn instantaneous_fps_milli(dt_ms: u32) -> (r: u64)
    ensures
        r == spec_inst_fps(dt_ms as int),
        r <= config::FPS_SAMPLE_MAX,
{
    if dt_ms == 0 {
        0
    } else {
        1_000_000u64 / (dt_ms as u64)
    }
}

/// A milli-unit value rounded to whole units, nearest, half away from
/// zero.
pub open spec fn spec_round_milli(m: int) -> int {
    (m + 500) / 1000
}

/// A milli-unit value reduced to tenths of a unit, nearest, half away
/// from zero.
pub open spec fn spec_milli_to_tenths(m: int) -> int {
    (m + 50) / 100
}

fn round_milli(m: u64) -> (r: u64)
    ensures
        r == spec_round_milli(m as int),
{
    let wide: u128 = (m as u128) + 500;
    (wide / 1000) as u64
}

fn milli_to_tenths(m: u64) -> (r: u64)
    ensures
        r == spec_milli_to_tenths(m as int),
{
    let wide: u128 = (m as u128) + 50;
    (wide / 100) as u64
}

/// The periodic console report: on its cadence (tracked by
/// `stats.last_report_ms`), emits the line giving the elapsed time, the
/// entity total, and the recent average FPS — preferring the current
/// window, falling back to the bounded history when the window is
/// freshly reset, and reporting zero when both are empty.
pub fn periodic_report(w: &FpsWindow, stats: &mut SimulationStats, now_ms: u64) -> (r: Option<
    String,
>)
    requires
        w.wf(),
    ensures
        r is Some <==> now_ms - old(stats).last_report_ms >= config::REPORT_INTERVAL_MS,
        r is Some ==> {
            &&& *final(stats) == (SimulationStats { last_report_ms: now_ms, ..*old(stats) })
            &&& r->0@ == text_out::spec_report_line(
                spec_milli_to_tenths(now_ms as int),
                old(stats).total_entities as int,
                spec_milli_to_tenths(w.spec_report_avg_milli()),
            )
        },
        r is None ==> *final(stats) == *old(stats),
{
    if now_ms >= stats.last_report_ms && now_ms - stats.last_report_ms
        >= config::REPORT_INTERVAL_MS {
        let avg_milli: u64 = report_avg_milli(w);
        let elapsed_tenths: u64 = milli_to_tenths(now_ms);
        let line = text_out::report_line(
            elapsed_tenths,
            stats.total_entities as u64,
            milli_to_tenths(avg_milli),
        );
        stats.last_report_ms = now_ms;
        Some(line)
    } else {
        None
    }
}

/// The average the periodic report uses, milli-FPS.
fn report_avg_milli(w: &FpsWindow) -> (r: u64)
    requires
        w.wf(),
    ensures
        r == w.spec_report_avg_milli(),
{
    if w.sample_count > 0 {
        w.rolling_sum / (w.sample_count as u64)
    } else if w.history.len() > 0 {
        let n = w.history.len();
        let mut total: u64 = 0;
        let mut k: usize = 0;
        while k < n
            invariant
                n == w.history@.len(),
                n <= config::HISTORY_CAPACITY,
                k <= n,
                w.wf(),
                total == spec_seq_sum(w.history@.take(k as int)),
                total <= k * config::FPS_SAMPLE_MAX,
            decreases n - k,
        {
            proof {
                assert(w.history@.take(k as int + 1).drop_last() =~= w.history@.take(k as int));
                assert(w.history@.take(k as int + 1).last() == w.history@[k as int]);
                assert(k * config::FPS_SAMPLE_MAX + config::FPS_SAMPLE_MAX == (k + 1)
                    * config::FPS_SAMPLE_MAX) by (nonlinear_arith);
            }
            total = total + w.history[k];
            k = k + 1;
        }
        proof {
            assert(w.history@.take(n as int) =~= w.history@);
        }
        total / (n as u64)
    } else {
        0
    }
}

} // verus!
