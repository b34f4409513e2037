use break_scheduler::scheduler::{BreakKind, BreakScheduler, PendingBreak};
use break_scheduler::settings::BreakSettings;

fn defaults() -> BreakSettings {
    BreakSettings::defaults()
}

#[test]
fn default_settings_match_builtins() {
    let s = defaults();
    assert_eq!(s.microbreak_duration, 20);
    assert_eq!(s.break_duration, 5);
    assert_eq!(s.microbreak_interval, 20);
    assert_eq!(s.break_interval, 34);
    assert!(s.enable_notifications);
    assert!(s.enable_sounds);
    assert!(!s.start_on_boot);
    assert!(s.pause_on_suspend);
}

#[test]
fn sanitized_replaces_zero_fields_only() {
    let mut s = defaults();
    s.microbreak_duration = 0;
    s.break_duration = 0;
    s.microbreak_interval = 0;
    s.break_interval = 0;
    let t = s.sanitized();
    assert_eq!(t.microbreak_duration, 20);
    assert_eq!(t.break_duration, 5);
    assert_eq!(t.microbreak_interval, 20);
    assert_eq!(t.break_interval, 34);

    let mut s = defaults();
    s.microbreak_interval = 7;
    s.break_interval = 0;
    s.enable_sounds = false;
    let t = s.sanitized();
    assert_eq!(t.microbreak_interval, 7);
    assert_eq!(t.break_interval, 34);
    assert!(!t.enable_sounds);
}

/// Defaults scenario: micro-break at minute 20, acknowledged at once;
/// nothing more until minute 34, where the full break becomes due.
#[test]
fn default_intervals_scenario() {
    let cfg = defaults();
    let mut sched = BreakScheduler::new();
    sched.tick(0, &cfg);
    for minute in 1..=19u64 {
        sched.tick(minute * 60, &cfg);
        assert_eq!(sched.poll_due(), None);
    }
    sched.tick(20 * 60, &cfg);
    let ev = sched.poll_due().expect("micro-break due at minute 20");
    assert_eq!(ev.kind, BreakKind::MicroBreak);
    assert_eq!(ev.due_at, 20 * 60);
    sched.acknowledge(BreakKind::MicroBreak);
    for minute in 21..=33u64 {
        sched.tick(minute * 60, &cfg);
        assert_eq!(sched.poll_due(), None);
    }
    sched.tick(34 * 60, &cfg);
    let ev = sched.poll_due().expect("full break due at minute 34");
    assert_eq!(ev.kind, BreakKind::Break);
    assert_eq!(ev.due_at, 34 * 60);
}

/// Exactly one micro-break event per cycle, however often the delivery
/// loop polls or the timer ticks, until the break is acknowledged.
#[test]
fn micro_break_fires_exactly_once_per_cycle() {
    let cfg = defaults();
    let mut sched = BreakScheduler::new();
    sched.tick(0, &cfg);
    sched.tick(1200, &cfg);
    assert_eq!(sched.pending_break, PendingBreak::MicroBreakDue);
    let ev = sched.poll_due().expect("one event");
    assert_eq!(ev.kind, BreakKind::MicroBreak);
    assert_eq!(sched.poll_due(), None);
    // further ticks while due: sticky, no re-fire, no accumulation
    sched.tick(1500, &cfg);
    sched.tick(4000, &cfg);
    assert_eq!(sched.poll_due(), None);
    assert_eq!(sched.microbreak_accumulated, 1200);
    assert_eq!(sched.pending_break, PendingBreak::MicroBreakDue);
    // after acknowledgement a completely fresh cycle fires again
    sched.acknowledge(BreakKind::MicroBreak);
    sched.acknowledge(BreakKind::Break);
    sched.tick(4100, &cfg);
    sched.tick(4100 + 1200, &cfg);
    let ev = sched.poll_due().expect("next cycle fires again");
    assert_eq!(ev.kind, BreakKind::MicroBreak);
}

/// Acknowledging a full break resets both accumulators; acknowledging a
/// micro-break resets only the micro-break one.
#[test]
fn acknowledge_resets_the_right_accumulators() {
    let cfg = defaults();
    let mut sched = BreakScheduler::new();
    sched.tick(0, &cfg);
    sched.tick(600, &cfg);
    assert_eq!(sched.microbreak_accumulated, 600);
    assert_eq!(sched.break_accumulated, 600);
    sched.acknowledge(BreakKind::MicroBreak);
    assert_eq!(sched.microbreak_accumulated, 0);
    assert_eq!(sched.break_accumulated, 600);
    sched.tick(900, &cfg);
    assert_eq!(sched.microbreak_accumulated, 300);
    assert_eq!(sched.break_accumulated, 900);
    sched.acknowledge(BreakKind::Break);
    assert_eq!(sched.microbreak_accumulated, 0);
    assert_eq!(sched.break_accumulated, 0);
}

/// When both intervals elapse within one tick, only the full break fires;
/// the micro-break is suppressed for that cycle.
#[test]
fn full_break_dominates_simultaneous_micro_break() {
    let cfg = defaults();
    let mut sched = BreakScheduler::new();
    sched.tick(0, &cfg);
    sched.tick(34 * 60, &cfg);
    assert_eq!(sched.pending_break, PendingBreak::BreakDue);
    let ev = sched.poll_due().expect("full break due");
    assert_eq!(ev.kind, BreakKind::Break);
    assert_eq!(sched.poll_due(), None);
    // no micro-break sneaks out while the full break is outstanding
    sched.tick(35 * 60, &cfg);
    assert_eq!(sched.poll_due(), None);
    assert_eq!(sched.pending_break, PendingBreak::BreakDue);
    // acknowledging it restarts both cycles from zero; the next minute of
    // work is the only time counted
    sched.acknowledge(BreakKind::Break);
    assert_eq!(sched.microbreak_accumulated, 0);
    assert_eq!(sched.break_accumulated, 0);
    sched.tick(36 * 60, &cfg);
    assert_eq!(sched.microbreak_accumulated, 60);
    assert_eq!(sched.break_accumulated, 60);
}

/// Suspend with pause_on_suspend freezes the accounting; the suspended
/// wall-clock gap is never credited.
#[test]
fn suspend_freezes_accounting() {
    let cfg = defaults();
    assert!(cfg.pause_on_suspend);
    let mut sched = BreakScheduler::new();
    sched.tick(0, &cfg);
    sched.tick(600, &cfg);
    sched.on_suspend(600, &cfg);
    assert!(sched.suspended);
    // ticks while suspended change nothing
    sched.tick(5_000, &cfg);
    sched.tick(90_000, &cfg);
    assert_eq!(sched.microbreak_accumulated, 600);
    assert_eq!(sched.break_accumulated, 600);
    sched.on_resume(100_000);
    assert!(!sched.suspended);
    assert_eq!(sched.microbreak_accumulated, 600);
    // accounting resumes from the resume time, not from before the gap
    sched.tick(100_060, &cfg);
    assert_eq!(sched.microbreak_accumulated, 660);
    assert_eq!(sched.break_accumulated, 660);
    assert_eq!(sched.poll_due(), None);
}

/// Without pause_on_suspend, suspend is a no-op and the next tick's delta
/// covers the suspended wall time.
#[test]
fn suspend_is_noop_when_disabled() {
    let mut cfg = defaults();
    cfg.pause_on_suspend = false;
    let mut sched = BreakScheduler::new();
    sched.tick(0, &cfg);
    sched.tick(300, &cfg);
    sched.on_suspend(300, &cfg);
    assert!(!sched.suspended);
    sched.tick(900, &cfg);
    assert_eq!(sched.microbreak_accumulated, 900);
    assert_eq!(sched.break_accumulated, 900);
}

/// A backward clock jump counts as zero elapsed time and never decreases
/// an accumulator; forward progress then resumes from the new baseline.
#[test]
fn backward_clock_jump_is_zero_elapsed() {
    let cfg = defaults();
    let mut sched = BreakScheduler::new();
    sched.tick(1_000, &cfg);
    sched.tick(1_600, &cfg);
    assert_eq!(sched.microbreak_accumulated, 600);
    sched.tick(100, &cfg);
    assert_eq!(sched.microbreak_accumulated, 600);
    assert_eq!(sched.break_accumulated, 600);
    assert_eq!(sched.poll_due(), None);
    sched.tick(160, &cfg);
    assert_eq!(sched.microbreak_accumulated, 660);
    assert_eq!(sched.break_accumulated, 660);
}

/// A live settings change takes effect at the next tick: an interval
/// shortened below the accumulated time fires immediately, with no grace
/// period.
#[test]
fn shortened_interval_fires_on_next_tick() {
    let cfg = defaults();
    let mut sched = BreakScheduler::new();
    sched.tick(0, &cfg);
    sched.tick(600, &cfg);
    assert_eq!(sched.poll_due(), None);
    let mut shorter = cfg;
    shorter.microbreak_interval = 5; // 300 s, already exceeded
    sched.tick(601, &cfg);
    assert_eq!(sched.poll_due(), None);
    sched.tick(602, &shorter);
    let ev = sched.poll_due().expect("shortened interval is already elapsed");
    assert_eq!(ev.kind, BreakKind::MicroBreak);
    assert_eq!(ev.due_at, 602);
}

/// Zero-valued settings fall back to the built-in defaults inside the
/// engine too, so a broken store cannot make breaks fire instantly.
#[test]
fn zero_intervals_fall_back_to_defaults_in_tick() {
    let mut cfg = defaults();
    cfg.microbreak_interval = 0;
    cfg.break_interval = 0;
    let mut sched = BreakScheduler::new();
    sched.tick(0, &cfg);
    sched.tick(60, &cfg);
    assert_eq!(sched.poll_due(), None);
    sched.tick(20 * 60, &cfg);
    let ev = sched.poll_due().expect("default micro-break interval applies");
    assert_eq!(ev.kind, BreakKind::MicroBreak);
}

/// poll_due is idempotent between due events and a fresh engine owes
/// nothing.
#[test]
fn poll_is_idempotent_with_nothing_due() {
    let cfg = defaults();
    let mut sched = BreakScheduler::new();
    assert_eq!(sched.poll_due(), None);
    assert_eq!(sched.poll_due(), None);
    sched.tick(0, &cfg);
    sched.tick(59, &cfg);
    assert_eq!(sched.poll_due(), None);
    assert_eq!(sched.poll_due(), None);
}

/// The Due state outlives its delivered event: polling clears only the
/// event, acknowledgement clears the state.
#[test]
fn due_state_survives_delivery_until_acknowledged() {
    let cfg = defaults();
    let mut sched = BreakScheduler::new();
    sched.tick(0, &cfg);
    sched.tick(1200, &cfg);
    assert!(sched.event_ready);
    let _ = sched.poll_due().expect("event delivered once");
    assert!(!sched.event_ready);
    assert_eq!(sched.pending_break, PendingBreak::MicroBreakDue);
    sched.acknowledge(BreakKind::MicroBreak);
    assert_eq!(sched.pending_break, PendingBreak::NotDue);
}

/// Acknowledging the kind that is not due clears nothing but its own
/// accumulator.
#[test]
fn acknowledge_other_kind_leaves_due_state() {
    let cfg = defaults();
    let mut sched = BreakScheduler::new();
    sched.tick(0, &cfg);
    sched.tick(1200, &cfg);
    assert_eq!(sched.pending_break, PendingBreak::MicroBreakDue);
    sched.acknowledge(BreakKind::Break);
    // the micro-break is still owed; its event is still deliverable
    assert_eq!(sched.pending_break, PendingBreak::MicroBreakDue);
    let ev = sched.poll_due().expect("micro-break still pending");
    assert_eq!(ev.kind, BreakKind::MicroBreak);
}
