//! Two independent cadences (render and tick) paced on one monotonic clock.
//!
//! All times are nanoseconds on the host's monotonic clock.
use vstd::prelude::*;

verus! {

/// Nanoseconds in one second.
pub const NANOS_PER_SEC: u64 = 1_000_000_000;

/// Whether a cadence that last fired at `last` with period `interval` is due at `now`.
pub open spec fn is_due(last: u64, interval: u64, now: u64) -> bool {
    now >= last + interval
}

/// Where a cadence stands after one stimulus at `now`: it advances by exactly
/// one interval when due, and never jumps to `now`.
pub open spec fn advanced(last: u64, interval: u64, now: u64) -> int {
    if is_due(last, interval, now) {
        last + interval
    } else {
        last as int
    }
}

/// What the host does after one stimulus.
#[derive(Clone, Copy, Debug, PartialEq, Eq, Structural)]
pub struct Decision {
    /// Ask the window for a redraw.
    pub redraw: bool,
    /// Advance the game state by one step.
    pub tick: bool,
    /// Sleep until this time, or until the next event, whichever comes first.
    pub deadline: u64,
}

/// The pacing state: two cadences and when each last fired.
#[derive(Clone, Copy, Debug, PartialEq, Eq, Structural)]
pub struct FrameScheduler {
    pub render_interval: u64,
    pub tick_interval: u64,
    pub last_render_at: u64,
    pub last_tick_at: u64,
}

impl FrameScheduler {
    /// Both intervals are positive and both next firing times fit the clock.
    pub open spec fn wf(&self) -> bool {
        &&& self.render_interval > 0
        &&& self.tick_interval > 0
        &&& self.last_render_at + self.render_interval <= u64::MAX
        &&& self.last_tick_at + self.tick_interval <= u64::MAX
    }

    /// The earliest time at which either cadence is next due.
    pub open spec fn deadline_spec(&self) -> int {
        let r = self.last_render_at + self.render_interval;
        let t = self.last_tick_at + self.tick_interval;
        if r <= t {
            r
        } else {
            t
        }
    }

    /// The state after a stimulus at `now`.
    pub open spec fn step_spec(&self, now: u64) -> FrameScheduler {
        FrameScheduler {
            render_interval: self.render_interval,
            tick_interval: self.tick_interval,
            last_render_at: advanced(self.last_render_at, self.render_interval, now) as u64,
            last_tick_at: advanced(self.last_tick_at, self.tick_interval, now) as u64,
        }
    }

    /// The decision made on a stimulus at `now`.
    pub open spec fn decision_spec(&self, now: u64) -> Decision {
        Decision {
            redraw: is_due(self.last_render_at, self.render_interval, now),
            tick: is_due(self.last_tick_at, self.tick_interval, now),
            deadline: self.step_spec(now).deadline_spec() as u64,
        }
    }

    /// Whether a stimulus at `now` keeps every next firing time inside the clock.
    pub open spec fn fits_clock(&self, now: u64) -> bool {
        &&& now + self.render_interval <= u64::MAX
        &&& now + self.tick_interval <= u64::MAX
    }

    /// A scheduler whose cadences both start at `start`.
    pub fn new(render_interval: u64, tick_interval: u64, start: u64) -> (r: FrameScheduler)
        requires
            render_interval > 0,
            tick_interval > 0,
            start + render_interval <= u64::MAX,
            start + tick_interval <= u64::MAX,
        ensures
            r.wf(),
            r.render_interval == render_interval,
            r.tick_interval == tick_interval,
            r.last_render_at == start,
            r.last_tick_at == start,
    {
        FrameScheduler { render_interval, tick_interval, last_render_at: start, last_tick_at: start }
    }

    /// The period of a cadence of `hz` events per second, in whole nanoseconds;
    /// `None` for a rate of zero or one faster than the clock can resolve.
    pub fn interval_for_rate(hz: u32) -> (r: Option<u64>)
        ensures
            (hz == 0 || hz > NANOS_PER_SEC) <==> r is None,
            r matches Some(i) ==> i == NANOS_PER_SEC / (hz as u64) && i > 0,
    {
        if hz == 0 || hz as u64 > NANOS_PER_SEC {
            None
        } else {
            proof {
                assert(NANOS_PER_SEC / (hz as u64) >= 1) by (nonlinear_arith)
                    requires 0 < hz <= NANOS_PER_SEC;
            }
            Some(NANOS_PER_SEC / (hz as u64))
        }
    }

    /// The next time at which either cadence is due.
    pub fn next_deadline(&self) -> (r: u64)
        requires
            self.wf(),
        ensures
            r == self.deadline_spec(),
    {
        let r = self.last_render_at + self.render_interval;
        let t = self.last_tick_at + self.tick_interval;
        if r <= t {
            r
        } else {
            t
        }
    }

    /// Handles one stimulus (an event or a wake-up) at `now`: each due cadence
    /// fires once and advances by its interval, and the next deadline is computed.
    pub fn on_stimulus(&mut self, now: u64) -> (d: Decision)
        requires
            old(self).wf(),
            old(self).fits_clock(now),
        ensures
            final(self).wf(),
            *final(self) == old(self).step_spec(now),
            d == old(self).decision_spec(now),
            d.deadline == final(self).deadline_spec(),
            d.deadline >= old(self).deadline_spec(),
            now < old(self).last_render_at + 2 * old(self).render_interval
                && now < old(self).last_tick_at + 2 * old(self).tick_interval ==> d.deadline > now,
    {
        let redraw = now >= self.last_render_at + self.render_interval;
        if redraw {
            self.last_render_at = self.last_render_at + self.render_interval;
        }
        let tick = now >= self.last_tick_at + self.tick_interval;
        if tick {
            self.last_tick_at = self.last_tick_at + self.tick_interval;
        }
        let deadline = self.next_deadline();
        Decision { redraw, tick, deadline }
    }
}

/// Deadline monotonicity: a stimulus never moves the next deadline backwards,
/// and, unless a cadence had fallen two whole intervals behind, leaves it
/// strictly after the stimulus.
pub proof fn lemma_deadline_monotone(s: FrameScheduler, now: u64)
    requires
        s.wf(),
        s.fits_clock(now),
    ensures
        s.step_spec(now).wf(),
        s.step_spec(now).deadline_spec() >= s.deadline_spec(),
        s.step_spec(now).last_render_at >= s.last_render_at,
        s.step_spec(now).last_tick_at >= s.last_tick_at,
        now < s.last_render_at + 2 * s.render_interval && now < s.last_tick_at + 2 * s.tick_interval
            ==> s.step_spec(now).deadline_spec() > now,
{
}

/// Runs the scheduler over stimuli at the times `ts`, in order; gives the final
/// state and the number of redraws signalled.
pub open spec fn run_spec(s: FrameScheduler, ts: Seq<u64>) -> (FrameScheduler, nat)
    decreases ts.len(),
{
    if ts.len() == 0 {
        (s, 0)
    } else {
        let prev = run_spec(s, ts.drop_last());
        let now = ts.last();
        let fired: nat = if is_due(prev.0.last_render_at, prev.0.render_interval, now) {
            1
        } else {
            0
        };
        (prev.0.step_spec(now), prev.1 + fired)
    }
}

/// Stimuli that never run backwards, never precede the scheduler's last render,
/// and leave room on the clock for the next firing times.
pub open spec fn valid_stimuli(s: FrameScheduler, ts: Seq<u64>) -> bool {
    &&& forall|i: int, j: int| 0 <= i <= j < ts.len() ==> ts[i] <= ts[j]
    &&& forall|i: int| 0 <= i < ts.len() ==> s.last_render_at <= #[trigger] ts[i] && s.fits_clock(ts[i])
}

/// Stimuli that arrive at least once per render interval, counting from the last render.
pub open spec fn dense_stimuli(s: FrameScheduler, ts: Seq<u64>) -> bool {
    &&& ts.len() > 0 ==> ts[0] <= s.last_render_at + s.render_interval
    &&& forall|i: int| 0 <= i < ts.len() - 1 ==> #[trigger] ts[i + 1] <= ts[i] + s.render_interval
}

proof fn lemma_run_invariant(s: FrameScheduler, ts: Seq<u64>)
    requires
        s.wf(),
        valid_stimuli(s, ts),
    ensures
        run_spec(s, ts).0.wf(),
        run_spec(s, ts).0.render_interval == s.render_interval,
        run_spec(s, ts).0.tick_interval == s.tick_interval,
        run_spec(s, ts).0.last_render_at == s.last_render_at + run_spec(s, ts).1 * s.render_interval,
        ts.len() > 0 ==> run_spec(s, ts).0.last_render_at <= ts.last(),
        ts.len() > 0 && dense_stimuli(s, ts) ==> ts.last() < run_spec(s, ts).0.last_render_at
            + s.render_interval,
    decreases ts.len(),
{
    if ts.len() > 0 {
        let pre = ts.drop_last();
        assert(valid_stimuli(s, pre)) by {
            assert forall|i: int| 0 <= i < pre.len() implies s.last_render_at <= #[trigger] pre[i]
                && s.fits_clock(pre[i]) by {
                assert(pre[i] == ts[i]);
            }
        }
        lemma_run_invariant(s, pre);
        let prev = run_spec(s, pre);
        let now = ts.last();
        assert(s.last_render_at <= ts[ts.len() - 1] && s.fits_clock(ts[ts.len() - 1]));
        if pre.len() > 0 {
            assert(pre.last() == ts[ts.len() - 2]);
            assert(ts[ts.len() - 2] <= ts[ts.len() - 1]);
        }
        assert(prev.1 * s.render_interval + s.render_interval == (prev.1 + 1) * s.render_interval)
            by (nonlinear_arith);
        if dense_stimuli(s, ts) && pre.len() > 0 {
            assert(dense_stimuli(s, pre)) by {
                assert forall|i: int| 0 <= i < pre.len() - 1 implies #[trigger] pre[i + 1] <= pre[i]
                    + s.render_interval by {
                    assert(pre[i + 1] == ts[i + 1] && pre[i] == ts[i]);
                    assert(ts[i + 1] <= ts[i] + s.render_interval);
                }
            }
            assert(ts[ts.len() - 2 + 1] <= ts[ts.len() - 2] + s.render_interval);
        }
    }
}

/// Drift-free pacing: over any valid run of stimuli, the last render time moves
/// by exactly one render interval per redraw signalled, so the redraws number
/// at most the whole intervals elapsed; when a stimulus arrives at least once
/// per interval they number exactly the whole intervals elapsed.
pub proof fn lemma_cadence_drift_free(s: FrameScheduler, ts: Seq<u64>)
    requires
        s.wf(),
        ts.len() > 0,
        valid_stimuli(s, ts),
    ensures
        run_spec(s, ts).0.last_render_at == s.last_render_at + run_spec(s, ts).1 * s.render_interval,
        run_spec(s, ts).1 <= (ts.last() - s.last_render_at) / (s.render_interval as int),
        dense_stimuli(s, ts) ==> run_spec(s, ts).1 == (ts.last() - s.last_render_at) / (
        s.render_interval as int),
{
    lemma_run_invariant(s, ts);
    let n = run_spec(s, ts).1;
    let span = ts.last() - s.last_render_at;
    let ri = s.render_interval as int;
    assert(n * ri <= span);
    assert(n <= span / ri) by (nonlinear_arith)
        requires
            n * ri <= span,
            ri > 0,
            n >= 0,
    ;
    if dense_stimuli(s, ts) {
        assert(span < n * ri + ri);
        assert(span / ri == n) by (nonlinear_arith)
            requires
                n * ri <= span,
                span < n * ri + ri,
                ri > 0,
                n >= 0,
        ;
    }
}

/// Stimuli that never come later than the deadline the scheduler last set:
/// the host wakes by each deadline, if no event woke it sooner.
pub open spec fn punctual_stimuli(s: FrameScheduler, ts: Seq<u64>) -> bool {
    &&& ts.len() > 0 ==> ts[0] <= s.deadline_spec()
    &&& forall|i: int|
        0 <= i < ts.len() - 1 ==> #[trigger] ts[i + 1] <= run_spec(s, ts.take(i + 1)).0.deadline_spec()
}

proof fn lemma_valid_prefix(s: FrameScheduler, ts: Seq<u64>, n: int)
    requires
        valid_stimuli(s, ts),
        0 <= n <= ts.len(),
    ensures
        valid_stimuli(s, ts.take(n)),
{
    let pre = ts.take(n);
    assert forall|i: int| 0 <= i < pre.len() implies s.last_render_at <= #[trigger] pre[i] && s.fits_clock(
        pre[i],
    ) by {
        assert(pre[i] == ts[i]);
    }
    assert forall|i: int, j: int| 0 <= i <= j < pre.len() implies pre[i] <= pre[j] by {
        assert(pre[i] == ts[i] && pre[j] == ts[j]);
    }
}

/// A host that wakes by every deadline it is given keeps the exact cadence:
/// the redraws signalled number the whole render intervals elapsed.
pub proof fn lemma_punctual_host_exact_cadence(s: FrameScheduler, ts: Seq<u64>)
    requires
        s.wf(),
        ts.len() > 0,
        valid_stimuli(s, ts),
        punctual_stimuli(s, ts),
    ensures
        run_spec(s, ts).1 == (ts.last() - s.last_render_at) / (s.render_interval as int),
{
    assert(dense_stimuli(s, ts)) by {
        assert forall|i: int| 0 <= i < ts.len() - 1 implies #[trigger] ts[i + 1] <= ts[i] + s.render_interval by {
            let pre = ts.take(i + 1);
            lemma_valid_prefix(s, ts, i + 1);
            lemma_run_invariant(s, pre);
            assert(pre.last() == ts[i]);
            assert(ts[i + 1] <= run_spec(s, pre).0.deadline_spec());
        }
    }
    lemma_cadence_drift_free(s, ts);
}

/// Stimuli that each come less than one render interval after the deadline
/// the scheduler last set: the host may wake late, but by less than an interval.
pub open spec fn timely_stimuli(s: FrameScheduler, ts: Seq<u64>) -> bool {
    &&& ts.len() > 0 ==> ts[0] < s.deadline_spec() + s.render_interval
    &&& forall|i: int|
        0 <= i < ts.len() - 1 ==> #[trigger] ts[i + 1] < run_spec(s, ts.take(i + 1)).0.deadline_spec()
            + s.render_interval
}

proof fn lemma_timely_keeps_up(s: FrameScheduler, ts: Seq<u64>)
    requires
        s.wf(),
        ts.len() > 0,
        valid_stimuli(s, ts),
        timely_stimuli(s, ts),
    ensures
        ts.last() < run_spec(s, ts).0.last_render_at + s.render_interval,
    decreases ts.len(),
{
    let n = ts.len() as int;
    let pre = ts.drop_last();
    lemma_valid_prefix(s, ts, n - 1);
    assert(pre =~= ts.take(n - 1));
    lemma_run_invariant(s, pre);
    let prev = run_spec(s, pre).0;
    if n > 1 {
        assert(timely_stimuli(s, pre)) by {
            assert forall|i: int| 0 <= i < pre.len() - 1 implies #[trigger] pre[i + 1] < run_spec(
                s,
                pre.take(i + 1),
            ).0.deadline_spec() + s.render_interval by {
                assert(pre.take(i + 1) =~= ts.take(i + 1));
                assert(pre[i + 1] == ts[i + 1]);
            }
        }
        lemma_timely_keeps_up(s, pre);
        assert(ts[n - 2 + 1] < run_spec(s, ts.take(n - 2 + 1)).0.deadline_spec() + s.render_interval);
    }
    assert(ts.last() < prev.last_render_at + 2 * s.render_interval);
}

/// A host that wakes less than one render interval after each deadline it is
/// given still keeps the exact cadence: the redraws signalled number the whole
/// render intervals elapsed.
pub proof fn lemma_timely_host_exact_cadence(s: FrameScheduler, ts: Seq<u64>)
    requires
        s.wf(),
        ts.len() > 0,
        valid_stimuli(s, ts),
        timely_stimuli(s, ts),
    ensures
        run_spec(s, ts).1 == (ts.last() - s.last_render_at) / (s.render_interval as int),
{
    lemma_run_invariant(s, ts);
    lemma_timely_keeps_up(s, ts);
    let n = run_spec(s, ts).1;
    let span = ts.last() - s.last_render_at;
    let ri = s.render_interval as int;
    assert(span / ri == n) by (nonlinear_arith)
        requires
            n * ri <= span,
            span < n * ri + ri,
            ri > 0,
            n >= 0,
    ;
}

} // verus!
