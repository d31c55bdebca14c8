//! Progress sampling and stall detection for one upload attempt.
//!
//! While the transport drains the chunked source, a sampler reads the shared
//! bytes-sent counter at a fixed interval.  Each tick either reports a
//! strictly higher percentage to the observer, stays quiet, or — after a
//! bounded run of ticks without byte progress mid-transfer — aborts the
//! attempt as stalled.

use vstd::prelude::*;

verus! {

/// `floor(bytes * 100 / total)`, and zero for an empty payload.
pub open spec fn spec_percentage(bytes_sent: int, total: int) -> int {
    if total > 0 {
        (bytes_sent * 100) / total
    } else {
        0
    }
}

/// The percentage of a partial count never passes 100.
pub proof fn lemma_percentage_bounds(bytes_sent: int, total: int)
    requires
        0 <= bytes_sent <= total,
    ensures
        0 <= spec_percentage(bytes_sent, total) <= 100,
{
    if total > 0 {
        vstd::arithmetic::div_mod::lemma_div_pos_is_pos(bytes_sent * 100, total);
        vstd::arithmetic::mul::lemma_mul_inequality(bytes_sent, total, 100);
        vstd::arithmetic::div_mod::lemma_div_is_ordered(bytes_sent * 100, total * 100, total);
        vstd::arithmetic::div_mod::lemma_div_by_multiple(100, total);
        assert(total * 100 == 100 * total) by (nonlinear_arith);
    }
}

/// The percentage already flushed: `floor(bytes_sent / total * 100)` when
/// the payload is not empty, else 0.
pub fn percentage_of(bytes_sent: u64, total: u64) -> (p: u8)
    requires
        bytes_sent <= total,
    ensures
        p == spec_percentage(bytes_sent as int, total as int),
        p <= 100,
{
    proof {
        lemma_percentage_bounds(bytes_sent as int, total as int);
    }
    if total == 0 {
        0
    } else {
        (((bytes_sent as u128) * 100) / (total as u128)) as u8
    }
}

/// What the sampler does on one tick.
pub enum TickAction {
    /// The stall threshold was reached: the attempt ends as stalled.
    Abort,
    /// The percentage rose: the observer is told the new value.
    Report { percentage: u8, bytes: u64 },
    /// Nothing to tell.
    Quiet,
}

/// The sampler's state for one attempt: what it last saw and reported, and
/// how many ticks have passed without byte progress.
pub struct AttemptMonitor {
    /// Size of the whole payload.
    pub total_size: u64,
    /// How many progress-free ticks abort the attempt.
    pub stall_threshold: u32,
    /// The highest percentage reported so far.
    pub last_percentage: u8,
    /// The counter reading at the last tick that made progress.
    pub last_bytes_sent: u64,
    /// Ticks in a row without byte progress mid-transfer.
    pub stall_counter: u32,
}

/// The sampler's state at the start of an attempt.
pub open spec fn spec_fresh_monitor(total_size: u64, stall_threshold: u32) -> AttemptMonitor {
    AttemptMonitor {
        total_size,
        stall_threshold,
        last_percentage: 0,
        last_bytes_sent: 0,
        stall_counter: 0,
    }
}

/// One tick of the sampler on a counter reading of `current`: first the
/// stall check — an unchanged reading strictly between 0% and 100% raises
/// the stall counter, and reaching the threshold aborts; any other reading
/// resets the counter.  Then the report check: a percentage above the last
/// reported one is reported and remembered.
pub open spec fn spec_on_tick(m: AttemptMonitor, current: u64) -> (AttemptMonitor, TickAction) {
    let p = spec_percentage(current as int, m.total_size as int);
    let stalled = current == m.last_bytes_sent && 0 < p < 100;
    let counted = if stalled {
        AttemptMonitor { stall_counter: (m.stall_counter + 1) as u32, ..m }
    } else {
        AttemptMonitor { stall_counter: 0, last_bytes_sent: current, ..m }
    };
    if stalled && counted.stall_counter >= m.stall_threshold {
        (counted, TickAction::Abort)
    } else if p > m.last_percentage {
        (
            AttemptMonitor { last_percentage: p as u8, ..counted },
            TickAction::Report { percentage: p as u8, bytes: current },
        )
    } else {
        (counted, TickAction::Quiet)
    }
}

impl AttemptMonitor {
    /// The reported percentage never passes 100, the last progressing
    /// reading stays within the payload, and the stall counter is live:
    /// zero, or still under the threshold.
    pub open spec fn wf(&self) -> bool {
        &&& self.last_bytes_sent <= self.total_size
        &&& self.last_percentage <= 100
        &&& (self.stall_counter == 0 || self.stall_counter < self.stall_threshold)
    }

    /// A fresh sampler: nothing seen, nothing reported.
    pub fn new(total_size: u64, stall_threshold: u32) -> (m: Self)
        ensures
            m == spec_fresh_monitor(total_size, stall_threshold),
            m.wf(),
    {
        AttemptMonitor {
            total_size,
            stall_threshold,
            last_percentage: 0,
            last_bytes_sent: 0,
            stall_counter: 0,
        }
    }

    /// One sampling tick on the current counter reading.
    pub fn on_tick(&mut self, current: u64) -> (action: TickAction)
        requires
            old(self).wf(),
            current <= old(self).total_size,
        ensures
            (*final(self), action) == spec_on_tick(*old(self), current),
            !(action is Abort) ==> final(self).wf(),
            final(self).total_size == old(self).total_size,
            final(self).stall_threshold == old(self).stall_threshold,
    {
        let p = percentage_of(current, self.total_size);
        let stalled = current == self.last_bytes_sent && 0 < p && p < 100;
        if stalled {
            self.stall_counter = self.stall_counter + 1;
            if self.stall_counter >= self.stall_threshold {
                return TickAction::Abort;
            }
        } else {
            self.stall_counter = 0;
            self.last_bytes_sent = current;
        }
        if p > self.last_percentage {
            self.last_percentage = p;
            TickAction::Report { percentage: p, bytes: current }
        } else {
            TickAction::Quiet
        }
    }

    /// The closing report of a completed transfer: exactly 100%, unless the
    /// sampler already reported it.
    pub fn finish(&mut self) -> (r: Option<(u8, u64)>)
        requires
            old(self).wf(),
        ensures
            final(self).wf(),
            old(self).last_percentage < 100 ==> r == Some((100u8, old(self).total_size))
                && final(self).last_percentage == 100,
            old(self).last_percentage == 100 ==> r is None && *final(self) == *old(self),
            final(self).total_size == old(self).total_size,
    {
        if self.last_percentage < 100 {
            self.last_percentage = 100;
            Some((100, self.total_size))
        } else {
            None
        }
    }
}

/// Run the sampler over a whole attempt's counter readings: the final
/// state, the percentages reported along the way, and whether the attempt
/// was aborted as stalled (in which case no further reports follow).
pub open spec fn spec_run_ticks(m: AttemptMonitor, obs: Seq<u64>) -> (AttemptMonitor, Seq<u8>, bool)
    decreases obs.len(),
{
    if obs.len() == 0 {
        (m, Seq::empty(), false)
    } else {
        let (m1, a) = spec_on_tick(m, obs[0]);
        match a {
            TickAction::Abort => (m1, Seq::empty(), true),
            TickAction::Report { percentage, bytes } => {
                let (m2, reps, aborted) = spec_run_ticks(m1, obs.drop_first());
                (m2, seq![percentage].add(reps), aborted)
            },
            TickAction::Quiet => spec_run_ticks(m1, obs.drop_first()),
        }
    }
}

/// One tick never lowers the reported percentage, and a report is always a
/// strict rise that the state then remembers.
pub proof fn lemma_tick_monotone(m: AttemptMonitor, current: u64)
    requires
        m.wf(),
        current <= m.total_size,
    ensures
        ({
            let (m1, a) = spec_on_tick(m, current);
            &&& m.last_percentage <= m1.last_percentage <= 100
            &&& (a matches TickAction::Report { percentage, .. } ==> m.last_percentage
                < percentage && percentage == m1.last_percentage)
            &&& (a is Quiet ==> m1.last_percentage == m.last_percentage)
            &&& (!(a is Abort) ==> m1.wf())
            &&& m1.total_size == m.total_size
            &&& m1.stall_threshold == m.stall_threshold
        }),
{
    lemma_percentage_bounds(current as int, m.total_size as int);
}

/// Over any run of ticks the reported percentages strictly increase, all
/// above what was last reported before the run, and the state remembers
/// the highest one.
pub proof fn lemma_run_reports_monotone(m: AttemptMonitor, obs: Seq<u64>)
    requires
        m.wf(),
        forall|i: int| 0 <= i < obs.len() ==> #[trigger] obs[i] <= m.total_size,
    ensures
        ({
            let (m2, reps, aborted) = spec_run_ticks(m, obs);
            &&& forall|i: int, j: int| 0 <= i < j < reps.len() ==> reps[i] < reps[j]
            &&& forall|i: int| 0 <= i < reps.len() ==> m.last_percentage < #[trigger] reps[i]
                <= 100
            &&& m2.last_percentage == (if reps.len() > 0 {
                reps.last()
            } else {
                m.last_percentage
            })
            &&& m.last_percentage <= m2.last_percentage <= 100
            &&& (!aborted ==> m2.wf())
            &&& m2.total_size == m.total_size
        }),
    decreases obs.len(),
{
    if obs.len() > 0 {
        let (m1, a) = spec_on_tick(m, obs[0]);
        lemma_tick_monotone(m, obs[0]);
        if !(a is Abort) {
            lemma_run_reports_monotone(m1, obs.drop_first());
            let (m2, reps_rest, aborted) = spec_run_ticks(m1, obs.drop_first());
            match a {
                TickAction::Report { percentage, .. } => {
                    let reps = seq![percentage].add(reps_rest);
                    assert(reps[0] == percentage);
                    assert(forall|i: int|
                        1 <= i < reps.len() ==> reps[i] == #[trigger] reps_rest[i - 1]);
                    if reps_rest.len() > 0 {
                        assert(reps.last() == reps_rest.last());
                    }
                },
                _ => {},
            }
        }
    }
}

/// The percentages an observer sees over one attempt — the mandatory 0%
/// at the start, each sampled report, and the forced closing 100% of a
/// completed transfer — never decrease, and an attempt that was not
/// aborted as stalled ends at exactly 100.
pub proof fn lemma_attempt_observer_trail(total_size: u64, stall_threshold: u32, obs: Seq<u64>)
    requires
        forall|i: int| 0 <= i < obs.len() ==> #[trigger] obs[i] <= total_size,
    ensures
        ({
            let m0 = spec_fresh_monitor(total_size, stall_threshold);
            let (m2, reps, aborted) = spec_run_ticks(m0, obs);
            let trail = seq![0u8].add(reps).add(
                if !aborted && m2.last_percentage < 100 {
                    seq![100u8]
                } else {
                    Seq::empty()
                },
            );
            &&& forall|i: int, j: int| 0 <= i <= j < trail.len() ==> trail[i] <= trail[j]
            &&& (!aborted ==> trail.last() == 100)
        }),
{
    let m0 = spec_fresh_monitor(total_size, stall_threshold);
    lemma_run_reports_monotone(m0, obs);
    let (m2, reps, aborted) = spec_run_ticks(m0, obs);
    let closing: Seq<u8> = if !aborted && m2.last_percentage < 100 {
        seq![100u8]
    } else {
        Seq::empty()
    };
    let trail = seq![0u8].add(reps).add(closing);
    assert(trail[0] == 0);
    assert(forall|i: int| 1 <= i < 1 + reps.len() ==> trail[i] == #[trigger] reps[i - 1]);
    if closing.len() > 0 {
        assert(trail.last() == 100);
    }
    assert forall|i: int, j: int| 0 <= i <= j < trail.len() implies trail[i] <= trail[j] by {
        if 1 <= i < 1 + reps.len() {
            assert(trail[i] == reps[i - 1]);
        }
        if 1 <= j < 1 + reps.len() {
            assert(trail[j] == reps[j - 1]);
        }
    }
    if !aborted && m2.last_percentage == 100 {
        assert(reps.len() > 0);
        assert(trail.last() == reps.last());
    }
}

} // verus!
