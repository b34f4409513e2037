use vstd::prelude::*;

use crate::scheduler::{BreakEvent, BreakKind, BreakScheduler, PendingBreak};
use crate::settings::BreakSettings;

verus! {

/// Seconds a tick at `now` credits when the previous baseline was `prev`:
/// the step forward, or nothing on a backward clock jump.
pub open spec fn clamp_step(prev: u64, now: u64) -> int {
    if now >= prev {
        now - prev
    } else {
        0
    }
}

/// Cumulative clamped elapsed time over a tick-timestamp sequence, starting
/// from the baseline `t0`.
pub open spec fn elapsed(t0: u64, nows: Seq<u64>) -> int
    decreases nows.len(),
{
    if nows.len() == 0 {
        0
    } else {
        clamp_step(t0, nows[0]) + elapsed(nows[0], nows.drop_first())
    }
}

/// The engine state after ticking once per timestamp in `nows`, in order,
/// under a fixed configuration.
pub open spec fn run_ticks(s: BreakScheduler, nows: Seq<u64>, cfg: BreakSettings) -> BreakScheduler
    decreases nows.len(),
{
    if nows.len() == 0 {
        s
    } else {
        run_ticks(s.spec_tick(nows[0], cfg), nows.drop_first(), cfg)
    }
}

/// How many Idle-to-Due transitions (due-break events generated) the run
/// performs.
pub open spec fn fires(s: BreakScheduler, nows: Seq<u64>, cfg: BreakSettings) -> int
    decreases nows.len(),
{
    if nows.len() == 0 {
        0
    } else {
        let s1 = s.spec_tick(nows[0], cfg);
        (if s.pending_break == PendingBreak::NotDue && s1.pending_break != PendingBreak::NotDue {
            1int
        } else {
            0int
        }) + fires(s1, nows.drop_first(), cfg)
    }
}

/// Elapsed time is never negative, however the clock jumps around.
pub proof fn lemma_elapsed_nonneg(t0: u64, nows: Seq<u64>)
    ensures
        elapsed(t0, nows) >= 0,
    decreases nows.len(),
{
    if nows.len() > 0 {
        lemma_elapsed_nonneg(nows[0], nows.drop_first());
    }
}

/// Peeling the first tick off a prefix of the run.
pub proof fn lemma_elapsed_take_front(t0: u64, nows: Seq<u64>, j: int)
    requires
        1 <= j <= nows.len(),
    ensures
        elapsed(t0, nows.take(j)) == clamp_step(t0, nows[0]) + elapsed(
            nows[0],
            nows.drop_first().take(j - 1),
        ),
{
    let pre = nows.take(j);
    assert(pre.len() == j);
    assert(pre[0] == nows[0]);
    assert(pre.drop_first() =~= nows.drop_first().take(j - 1));
}

/// A longer prefix never elapses less time.
pub proof fn lemma_elapsed_take_mono(t0: u64, nows: Seq<u64>, i: int, j: int)
    requires
        0 <= i <= j <= nows.len(),
    ensures
        elapsed(t0, nows.take(i)) <= elapsed(t0, nows.take(j)),
    decreases nows.len(),
{
    if i == 0 {
        assert(nows.take(0).len() == 0);
        lemma_elapsed_nonneg(t0, nows.take(j));
    } else {
        lemma_elapsed_take_front(t0, nows, i);
        lemma_elapsed_take_front(t0, nows, j);
        lemma_elapsed_take_mono(nows[0], nows.drop_first(), i - 1, j - 1);
    }
}

/// Sticky Due: once a break is outstanding, any number of further ticks
/// generates no new event, leaves the due break and both accumulators
/// untouched, and keeps any undelivered event waiting. Only `acknowledge`
/// moves the engine on.
pub proof fn lemma_due_is_sticky(s: BreakScheduler, nows: Seq<u64>, cfg: BreakSettings)
    requires
        s.pending_break != PendingBreak::NotDue,
    ensures
        fires(s, nows, cfg) == 0,
        run_ticks(s, nows, cfg).pending_break == s.pending_break,
        run_ticks(s, nows, cfg).event_ready == s.event_ready,
        run_ticks(s, nows, cfg).microbreak_accumulated == s.microbreak_accumulated,
        run_ticks(s, nows, cfg).break_accumulated == s.break_accumulated,
    decreases nows.len(),
{
    if nows.len() > 0 {
        lemma_due_is_sticky(s.spec_tick(nows[0], cfg), nows.drop_first(), cfg);
    }
}

/// Exactly one micro-break per cycle: starting from an active engine with
/// nothing due, if the cumulative active time first reaches the micro-break
/// interval at tick `k` while the full-break interval has not yet elapsed,
/// then the whole run of ticks generates exactly one due-break event — the
/// micro-break — and no further event can fire before an `acknowledge`.
/// (Should the full-break interval elapse within the same tick instead, the
/// full break fires alone: see `lemma_full_break_dominates`.)
pub proof fn lemma_one_microbreak_per_cycle(
    s: BreakScheduler,
    nows: Seq<u64>,
    cfg: BreakSettings,
    k: int,
)
    requires
        s.started,
        !s.suspended,
        s.pending_break == PendingBreak::NotDue,
        !s.event_ready,
        0 <= k < nows.len(),
        // tick k is the first at which the micro-break interval has elapsed
        s.microbreak_accumulated + elapsed(s.last_tick_at, nows.take(k + 1))
            >= cfg.microbreak_interval_seconds(),
        s.microbreak_accumulated + elapsed(s.last_tick_at, nows.take(k))
            < cfg.microbreak_interval_seconds(),
        // and the full-break interval has not elapsed by then
        s.break_accumulated + elapsed(s.last_tick_at, nows.take(k + 1))
            < cfg.break_interval_seconds(),
    ensures
        fires(s, nows, cfg) == 1,
        run_ticks(s, nows, cfg).pending_break == PendingBreak::MicroBreakDue,
        run_ticks(s, nows, cfg).event_ready,
        // the one event the delivery loop can pull is the micro-break
        run_ticks(s, nows, cfg).spec_pending_event() == Some(
            (BreakEvent { kind: BreakKind::MicroBreak, due_at: run_ticks(s, nows, cfg).due_at }),
        ),
    decreases nows.len(),
{
    let now0 = nows[0];
    let rest = nows.drop_first();
    let d0 = clamp_step(s.last_tick_at, now0);
    let s1 = s.spec_tick(now0, cfg);
    lemma_elapsed_take_front(s.last_tick_at, nows, k + 1);
    if k == 0 {
        assert(rest.take(0).len() == 0);
        assert(elapsed(s.last_tick_at, nows.take(1)) == d0);
        // the first tick crosses the micro-break threshold but not the
        // full-break one, so it fires the micro-break
        assert(s1.pending_break == PendingBreak::MicroBreakDue);
        assert(s1.event_ready);
        lemma_due_is_sticky(s1, rest, cfg);
    } else {
        lemma_elapsed_take_front(s.last_tick_at, nows, k);
        lemma_elapsed_nonneg(now0, rest.take(k - 1));
        lemma_elapsed_take_mono(now0, rest, k - 1, k);
        // the cumulative time is still short of both intervals, so the
        // first tick does not fire and merely advances the accumulators
        assert(s.microbreak_accumulated + d0 < cfg.microbreak_interval_seconds());
        assert(s.break_accumulated + d0 < cfg.break_interval_seconds());
        assert(s1.pending_break == PendingBreak::NotDue);
        assert(s1.microbreak_accumulated == s.microbreak_accumulated + d0);
        assert(s1.break_accumulated == s.break_accumulated + d0);
        assert(s1.last_tick_at == now0);
        lemma_one_microbreak_per_cycle(s1, rest, cfg, k - 1);
    }
}

/// Full-break precedence: when both intervals elapse within the same tick,
/// that tick raises exactly the full break; the simultaneous micro-break is
/// suppressed, since a full break already satisfies the micro-break need.
pub proof fn lemma_full_break_dominates(s: BreakScheduler, now: u64, cfg: BreakSettings)
    requires
        !s.suspended,
        s.pending_break == PendingBreak::NotDue,
        s.microbreak_accumulated + s.spec_delta(now) >= cfg.microbreak_interval_seconds(),
        s.break_accumulated + s.spec_delta(now) >= cfg.break_interval_seconds(),
    ensures
        s.spec_tick(now, cfg).pending_break == PendingBreak::BreakDue,
        s.spec_tick(now, cfg).event_ready,
{
}

/// Suspend with `pause_on_suspend` freezes accounting outright: however
/// many ticks arrive while suspended and however much wall time passes,
/// resuming leaves the accumulators, the due state and any undelivered
/// event exactly as they were, with the tick baseline moved to the resume
/// time so the gap is never credited afterwards.
pub proof fn lemma_suspend_freezes_accounting(
    s: BreakScheduler,
    nows: Seq<u64>,
    resume_at: u64,
    cfg: BreakSettings,
)
    requires
        cfg.pause_on_suspend,
    ensures
        ({
            let after = run_ticks(s.spec_on_suspend(cfg), nows, cfg).spec_on_resume(resume_at);
            &&& after.microbreak_accumulated == s.microbreak_accumulated
            &&& after.break_accumulated == s.break_accumulated
            &&& after.pending_break == s.pending_break
            &&& after.event_ready == s.event_ready
            &&& !after.suspended
            &&& after.last_tick_at == resume_at
        }),
{
    lemma_suspended_run_is_noop(s.spec_on_suspend(cfg), nows, cfg);
}

/// A backward clock jump is a zero-elapsed tick: it never decreases an
/// accumulator, and apart from the moved baseline it leaves the engine in
/// the same state as a tick that found no time elapsed at all, so no break
/// fires earlier or later than it would under forward time.
pub proof fn lemma_backward_jump_is_zero_elapsed(s: BreakScheduler, now: u64, cfg: BreakSettings)
    requires
        s.started,
        now <= s.last_tick_at,
    ensures
        s.spec_tick(now, cfg).microbreak_accumulated == s.microbreak_accumulated,
        s.spec_tick(now, cfg).break_accumulated == s.break_accumulated,
        s.spec_tick(now, cfg).pending_break == s.spec_tick(s.last_tick_at, cfg).pending_break,
        s.spec_tick(now, cfg).event_ready == s.spec_tick(s.last_tick_at, cfg).event_ready,
        !s.suspended ==> s.spec_tick(now, cfg).last_tick_at == now,
{
}

/// Validating settings at the store boundary is transparent to the engine:
/// a tick under the sanitized settings moves the engine exactly as a tick
/// under the raw ones, because the engine applies the same per-field
/// fallback itself.
pub proof fn lemma_sanitized_settings_equivalent(
    s: BreakScheduler,
    now: u64,
    cfg: BreakSettings,
)
    ensures
        s.spec_tick(now, cfg.spec_sanitized()) == s.spec_tick(now, cfg),
{
    assert(cfg.spec_sanitized().microbreak_interval_seconds()
        == cfg.microbreak_interval_seconds());
    assert(cfg.spec_sanitized().break_interval_seconds() == cfg.break_interval_seconds());
}

/// A suspended engine ignores every tick.
pub proof fn lemma_suspended_run_is_noop(s: BreakScheduler, nows: Seq<u64>, cfg: BreakSettings)
    requires
        s.suspended,
    ensures
        run_ticks(s, nows, cfg) == s,
        fires(s, nows, cfg) == 0,
    decreases nows.len(),
{
    if nows.len() > 0 {
        lemma_suspended_run_is_noop(s.spec_tick(nows[0], cfg), nows.drop_first(), cfg);
    }
}

} // verus!
