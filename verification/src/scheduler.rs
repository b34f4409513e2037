use vstd::prelude::*;

use crate::settings::BreakSettings;

verus! {

/// The two kinds of reminder the engine raises.
#[derive(Clone, Copy, Debug, PartialEq, Eq, Structural)]
pub enum BreakKind {
    MicroBreak,
    Break,
}

/// The outstanding due break, if any. A single slot: a full break subsumes
/// the need for a micro-break, so the engine never owes both at once.
#[derive(Clone, Copy, Debug, PartialEq, Eq, Structural)]
pub enum PendingBreak {
    NotDue,
    MicroBreakDue,
    BreakDue,
}

/// A due-break notification, generated at most once per Idle-to-Due
/// transition and handed to the delivery loop by `poll_due`.
#[derive(Clone, Copy, Debug, PartialEq, Eq, Structural)]
pub struct BreakEvent {
    pub kind: BreakKind,
    /// The tick timestamp (seconds) at which the break became due.
    pub due_at: u64,
}

/// The break-scheduling engine. Driven by `tick` on a short cadence, it
/// accumulates active work time in seconds, raises a due break when an
/// interval elapses, and freezes accounting while a break is outstanding
/// or while the system is suspended with `pause_on_suspend`.
///
/// Timestamps are whole seconds from an arbitrary epoch. A backward clock
/// jump is treated as a zero-elapsed tick, never as negative work time.
#[derive(Clone, Copy, Debug)]
pub struct BreakScheduler {
    /// Seconds of active work since the last micro-break or full-break reset.
    pub microbreak_accumulated: u64,
    /// Seconds of active work since the last full-break reset.
    pub break_accumulated: u64,
    /// The outstanding due break; cleared only by `acknowledge`, never by
    /// the passage of time.
    pub pending_break: PendingBreak,
    /// True while a generated event awaits delivery through `poll_due`.
    pub event_ready: bool,
    /// Timestamp of the Idle-to-Due transition behind `event_ready`.
    pub due_at: u64,
    /// True while accounting is frozen by a suspend (`pause_on_suspend`).
    pub suspended: bool,
    /// False until a first tick or a resume fixes a baseline timestamp.
    pub started: bool,
    /// Baseline for the next tick's elapsed-time delta.
    pub last_tick_at: u64,
}

impl BreakScheduler {
    /// An undelivered event always belongs to an outstanding due break.
    pub open spec fn wf(self) -> bool {
        self.event_ready ==> self.pending_break != PendingBreak::NotDue
    }

    /// The state of a freshly constructed engine: nothing accumulated,
    /// nothing due, not suspended, no tick baseline yet.
    pub open spec fn spec_new() -> BreakScheduler {
        BreakScheduler {
            microbreak_accumulated: 0,
            break_accumulated: 0,
            pending_break: PendingBreak::NotDue,
            event_ready: false,
            due_at: 0,
            suspended: false,
            started: false,
            last_tick_at: 0,
        }
    }

    /// Seconds credited by a tick at `now`: the step since the previous
    /// baseline, clamped at zero so a backward clock jump counts as no
    /// elapsed time. The very first tick only fixes the baseline.
    pub open spec fn spec_delta(self, now: u64) -> int {
        if !self.started {
            0
        } else if now >= self.last_tick_at {
            now - self.last_tick_at
        } else {
            0
        }
    }

    /// Accumulation saturates instead of wrapping: a pathological timestamp
    /// jump can never panic the engine or roll an accumulator over.
    pub open spec fn spec_accumulate(acc: u64, delta: int) -> u64 {
        if acc + delta <= u64::MAX {
            (acc + delta) as u64
        } else {
            u64::MAX
        }
    }

    /// One accounting step at `now` under `cfg`:
    /// - a suspended engine ignores the tick entirely;
    /// - while a break is outstanding, work is considered paused: only the
    ///   tick baseline moves, so nothing re-fires and nothing accumulates;
    /// - otherwise both accumulators grow by the clamped delta, and if an
    ///   interval has elapsed the engine moves to Due, the full break
    ///   taking precedence over a simultaneous micro-break.
    pub open spec fn spec_tick(self, now: u64, cfg: BreakSettings) -> BreakScheduler {
        if self.suspended {
            self
        } else {
            let advanced = BreakScheduler { started: true, last_tick_at: now, ..self };
            if self.pending_break != PendingBreak::NotDue {
                advanced
            } else {
                let delta = self.spec_delta(now);
                let micro = Self::spec_accumulate(self.microbreak_accumulated, delta);
                let full = Self::spec_accumulate(self.break_accumulated, delta);
                let grown = BreakScheduler {
                    microbreak_accumulated: micro,
                    break_accumulated: full,
                    ..advanced
                };
                if full >= cfg.break_interval_seconds() {
                    BreakScheduler {
                        pending_break: PendingBreak::BreakDue,
                        event_ready: true,
                        due_at: now,
                        ..grown
                    }
                } else if micro >= cfg.microbreak_interval_seconds() {
                    BreakScheduler {
                        pending_break: PendingBreak::MicroBreakDue,
                        event_ready: true,
                        due_at: now,
                        ..grown
                    }
                } else {
                    grown
                }
            }
        }
    }

    /// A suspend freezes accounting only when the policy asks for it;
    /// otherwise it is a no-op and the next tick's delta will include the
    /// suspended wall time.
    pub open spec fn spec_on_suspend(self, cfg: BreakSettings) -> BreakScheduler {
        if cfg.pause_on_suspend {
            BreakScheduler { suspended: true, ..self }
        } else {
            self
        }
    }

    /// A resume clears the frozen flag and re-baselines the tick delta at
    /// `now`, so no suspended wall time is ever credited retroactively.
    pub open spec fn spec_on_resume(self, now: u64) -> BreakScheduler {
        if self.suspended {
            BreakScheduler { suspended: false, started: true, last_tick_at: now, ..self }
        } else {
            self
        }
    }

    /// Acknowledging a micro-break resets only the micro-break accumulator;
    /// acknowledging a full break resets both, since a full break subsumes
    /// the need for a micro-break. The pending slot and its undelivered
    /// event are cleared only when they belong to the acknowledged kind.
    pub open spec fn spec_acknowledge(self, kind: BreakKind) -> BreakScheduler {
        match kind {
            BreakKind::MicroBreak => BreakScheduler {
                microbreak_accumulated: 0,
                pending_break: if self.pending_break == PendingBreak::MicroBreakDue {
                    PendingBreak::NotDue
                } else {
                    self.pending_break
                },
                event_ready: if self.pending_break == PendingBreak::MicroBreakDue {
                    false
                } else {
                    self.event_ready
                },
                ..self
            },
            BreakKind::Break => BreakScheduler {
                microbreak_accumulated: 0,
                break_accumulated: 0,
                pending_break: if self.pending_break == PendingBreak::BreakDue {
                    PendingBreak::NotDue
                } else {
                    self.pending_break
                },
                event_ready: if self.pending_break == PendingBreak::BreakDue {
                    false
                } else {
                    self.event_ready
                },
                ..self
            },
        }
    }

    /// The event `poll_due` would deliver right now, if any.
    pub open spec fn spec_pending_event(self) -> Option<BreakEvent> {
        if self.event_ready && self.pending_break == PendingBreak::MicroBreakDue {
            Some(BreakEvent { kind: BreakKind::MicroBreak, due_at: self.due_at })
        } else if self.event_ready && self.pending_break == PendingBreak::BreakDue {
            Some(BreakEvent { kind: BreakKind::Break, due_at: self.due_at })
        } else {
            None
        }
    }

    /// A fresh engine: nothing accumulated, nothing due.
    pub fn new() -> (s: BreakScheduler)
        ensures
            s == BreakScheduler::spec_new(),
            s.wf(),
    {
        BreakScheduler {
            microbreak_accumulated: 0,
            break_accumulated: 0,
            pending_break: PendingBreak::NotDue,
            event_ready: false,
            due_at: 0,
            suspended: false,
            started: false,
            last_tick_at: 0,
        }
    }

    /// Advance the accounting by the wall-clock delta since the previous
    /// tick. Settings are read afresh on every evaluation, so a live
    /// settings change takes effect at the next tick; an interval shortened
    /// below the accumulated time makes that tick fire immediately.
    pub fn tick(&mut self, now: u64, cfg: &BreakSettings)
        ensures
            *final(self) == old(self).spec_tick(now, *cfg),
            old(self).wf() ==> final(self).wf(),
            // accounting never runs backward, whatever `now` does
            final(self).microbreak_accumulated >= old(self).microbreak_accumulated,
            final(self).break_accumulated >= old(self).break_accumulated,
            // a suspended engine ignores the tick
            old(self).suspended ==> *final(self) == *old(self),
            // sticky Due: an outstanding break never re-fires, never
            // accumulates, and is never cleared by the passage of time
            old(self).pending_break != PendingBreak::NotDue ==> {
                &&& final(self).pending_break == old(self).pending_break
                &&& final(self).event_ready == old(self).event_ready
                &&& final(self).microbreak_accumulated == old(self).microbreak_accumulated
                &&& final(self).break_accumulated == old(self).break_accumulated
            },
            // a micro-break fires only when the full break did not
            old(self).pending_break == PendingBreak::NotDue
                && final(self).pending_break == PendingBreak::MicroBreakDue
                ==> final(self).break_accumulated < cfg.break_interval_seconds(),
    {
        if self.suspended {
            return;
        }
        let delta: u64 = if !self.started {
            0
        } else if now >= self.last_tick_at {
            now - self.last_tick_at
        } else {
            0
        };
        self.started = true;
        self.last_tick_at = now;
        if self.pending_break != PendingBreak::NotDue {
            return;
        }
        self.microbreak_accumulated = if delta <= u64::MAX - self.microbreak_accumulated {
            self.microbreak_accumulated + delta
        } else {
            u64::MAX
        };
        self.break_accumulated = if delta <= u64::MAX - self.break_accumulated {
            self.break_accumulated + delta
        } else {
            u64::MAX
        };
        let micro_minutes: u32 = if cfg.microbreak_interval == 0 {
            crate::settings::DEFAULT_MICROBREAK_INTERVAL
        } else {
            cfg.microbreak_interval
        };
        let full_minutes: u32 = if cfg.break_interval == 0 {
            crate::settings::DEFAULT_BREAK_INTERVAL
        } else {
            cfg.break_interval
        };
        let micro_target: u64 = (micro_minutes as u64) * 60;
        let full_target: u64 = (full_minutes as u64) * 60;
        if self.break_accumulated >= full_target {
            self.pending_break = PendingBreak::BreakDue;
            self.event_ready = true;
            self.due_at = now;
        } else if self.microbreak_accumulated >= micro_target {
            self.pending_break = PendingBreak::MicroBreakDue;
            self.event_ready = true;
            self.due_at = now;
        }
    }

    /// System-suspend notification. With `pause_on_suspend` the engine
    /// freezes; otherwise suspend is a no-op for accounting and the next
    /// tick's delta will cover the suspended wall time.
    #[allow(unused_variables)]
    pub fn on_suspend(&mut self, now: u64, cfg: &BreakSettings)
        ensures
            *final(self) == old(self).spec_on_suspend(*cfg),
            old(self).wf() ==> final(self).wf(),
            cfg.pause_on_suspend ==> final(self).suspended,
            !cfg.pause_on_suspend ==> *final(self) == *old(self),
            final(self).microbreak_accumulated == old(self).microbreak_accumulated,
            final(self).break_accumulated == old(self).break_accumulated,
            final(self).pending_break == old(self).pending_break,
            final(self).event_ready == old(self).event_ready,
    {
        if cfg.pause_on_suspend {
            self.suspended = true;
        }
    }

    /// System-resume notification: unfreezes the engine and re-baselines
    /// the tick delta at `now`; suspended wall time is never credited.
    pub fn on_resume(&mut self, now: u64)
        ensures
            *final(self) == old(self).spec_on_resume(now),
            old(self).wf() ==> final(self).wf(),
            !final(self).suspended,
            !old(self).suspended ==> *final(self) == *old(self),
            old(self).suspended ==> final(self).last_tick_at == now,
            final(self).microbreak_accumulated == old(self).microbreak_accumulated,
            final(self).break_accumulated == old(self).break_accumulated,
            final(self).pending_break == old(self).pending_break,
            final(self).event_ready == old(self).event_ready,
    {
        if self.suspended {
            self.suspended = false;
            self.started = true;
            self.last_tick_at = now;
        }
    }

    /// The user completed or dismissed a break of the given kind.
    /// Acknowledging the full break resets both accumulators; acknowledging
    /// the micro-break resets only the micro-break accumulator, leaving the
    /// full-break accumulator unchanged.
    pub fn acknowledge(&mut self, kind: BreakKind)
        ensures
            *final(self) == old(self).spec_acknowledge(kind),
            old(self).wf() ==> final(self).wf(),
            final(self).microbreak_accumulated == 0,
            kind == BreakKind::Break ==> final(self).break_accumulated == 0,
            kind == BreakKind::MicroBreak
                ==> final(self).break_accumulated == old(self).break_accumulated,
            kind == BreakKind::MicroBreak && old(self).pending_break == PendingBreak::MicroBreakDue
                ==> final(self).pending_break == PendingBreak::NotDue,
            kind == BreakKind::Break && old(self).pending_break == PendingBreak::BreakDue
                ==> final(self).pending_break == PendingBreak::NotDue,
            final(self).suspended == old(self).suspended,
            final(self).last_tick_at == old(self).last_tick_at,
    {
        match kind {
            BreakKind::MicroBreak => {
                self.microbreak_accumulated = 0;
                if self.pending_break == PendingBreak::MicroBreakDue {
                    self.pending_break = PendingBreak::NotDue;
                    self.event_ready = false;
                }
            }
            BreakKind::Break => {
                self.microbreak_accumulated = 0;
                self.break_accumulated = 0;
                if self.pending_break == PendingBreak::BreakDue {
                    self.pending_break = PendingBreak::NotDue;
                    self.event_ready = false;
                }
            }
        }
    }

    /// Return and clear the next undelivered due event, if any. Idempotent
    /// between due transitions: with nothing generated it returns `None`
    /// every time and never fabricates a duplicate delivery. The Due state
    /// itself survives until `acknowledge`.
    pub fn poll_due(&mut self) -> (ev: Option<BreakEvent>)
        ensures
            ev == old(self).spec_pending_event(),
            *final(self) == (BreakScheduler { event_ready: false, ..*old(self) }),
            final(self).wf(),
    {
        let ev: Option<BreakEvent> = if self.event_ready {
            match self.pending_break {
                PendingBreak::MicroBreakDue => Some(
                    BreakEvent { kind: BreakKind::MicroBreak, due_at: self.due_at },
                ),
                PendingBreak::BreakDue => Some(
                    BreakEvent { kind: BreakKind::Break, due_at: self.due_at },
                ),
                PendingBreak::NotDue => None,
            }
        } else {
            None
        };
        self.event_ready = false;
        ev
    }
}

} // verus!
