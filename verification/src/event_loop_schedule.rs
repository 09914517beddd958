//! Explicit wake/work state machine for the window event loop.
//!
//! Times are monotonic instants and durations in nanoseconds, measured from an
//! origin fixed by the caller. Expired playback deadlines are never discarded:
//! they become due work. Only strictly future instants are handed back as wake
//! targets.

use vstd::prelude::*;

verus! {

/// Selected blocking mode for the event loop.
#[derive(Debug, Clone, Copy, PartialEq, Eq, Structural)]
pub enum ControlFlowAction {
    /// Sleep until the given future instant.
    WaitUntil(u64),
    /// Sleep until the next external event.
    Wait,
}

/// Abstract value of an [`EventLoopSchedule`].
pub struct ScheduleV {
    pub playback_deadline: Option<u64>,
    pub egui_deadline: Option<u64>,
    pub playback_due: bool,
    pub ui_redraw_due: bool,
    pub surface_redraw_due: bool,
    pub redraw_requested: bool,
    pub outstanding_egui_redraw_request: bool,
}

/// Explicit schedule separating playback, UI repaint, and surface/resize redraw work.
#[derive(Debug, Clone, PartialEq, Eq)]
pub struct EventLoopSchedule {
    playback_deadline: Option<u64>,
    egui_deadline: Option<u64>,
    playback_due: bool,
    ui_redraw_due: bool,
    surface_redraw_due: bool,
    redraw_requested: bool,
    outstanding_egui_redraw_request: bool,
}

impl View for EventLoopSchedule {
    type V = ScheduleV;

    closed spec fn view(&self) -> ScheduleV {
        ScheduleV {
            playback_deadline: self.playback_deadline,
            egui_deadline: self.egui_deadline,
            playback_due: self.playback_due,
            ui_redraw_due: self.ui_redraw_due,
            surface_redraw_due: self.surface_redraw_due,
            redraw_requested: self.redraw_requested,
            outstanding_egui_redraw_request: self.outstanding_egui_redraw_request,
        }
    }
}

/// An empty schedule: no deadline and no due work.
pub open spec fn idle_schedule() -> ScheduleV {
    ScheduleV {
        playback_deadline: None,
        egui_deadline: None,
        playback_due: false,
        ui_redraw_due: false,
        surface_redraw_due: false,
        redraw_requested: false,
        outstanding_egui_redraw_request: false,
    }
}

/// A deadline that has been reached at `now`.
pub open spec fn expired(deadline: Option<u64>, now: u64) -> bool {
    deadline matches Some(d) && d <= now
}

/// The deadline if it still lies strictly in the future of `now`.
pub open spec fn future_of(deadline: Option<u64>, now: u64) -> Option<u64> {
    match deadline {
        Some(d) => if d > now {
            Some(d)
        } else {
            None
        },
        None => None,
    }
}

/// Sleep until the earlier of the two future deadlines, or wait for an event.
pub open spec fn wake_target(playback: Option<u64>, egui: Option<u64>) -> ControlFlowAction {
    match (playback, egui) {
        (Some(a), Some(b)) => ControlFlowAction::WaitUntil(
            if a <= b {
                a
            } else {
                b
            },
        ),
        (Some(a), None) => ControlFlowAction::WaitUntil(a),
        (None, Some(b)) => ControlFlowAction::WaitUntil(b),
        (None, None) => ControlFlowAction::Wait,
    }
}

/// The wake target is the earliest of the deadlines given: a timed wait for
/// one of them that is no later than any of them, and an untimed wait only
/// when there is none.
pub proof fn law_wake_target_is_earliest(playback: Option<u64>, egui: Option<u64>)
    ensures
        wake_target(playback, egui) matches ControlFlowAction::WaitUntil(t) ==> (playback == Some(
            t,
        ) || egui == Some(t)) && (playback matches Some(a) ==> t <= a) && (egui matches Some(b)
            ==> t <= b),
        wake_target(playback, egui) == ControlFlowAction::Wait <==> playback is None && egui is None,
{
}

/// Signed distance from `now` to `deadline` in whole milliseconds, truncated
/// toward zero; negative once the deadline has passed.
pub open spec fn relative_ms(deadline: Option<u64>, now: u64) -> Option<i64> {
    match deadline {
        Some(d) => Some(
            if d > now {
                ((d - now) / 1_000_000) as i64
            } else {
                (-((now - d) / 1_000_000)) as i64
            },
        ),
        None => None,
    }
}

impl Default for EventLoopSchedule {
    fn default() -> (r: EventLoopSchedule)
        ensures
            r@ == idle_schedule(),
    {
        EventLoopSchedule {
            playback_deadline: None,
            egui_deadline: None,
            playback_due: false,
            ui_redraw_due: false,
            surface_redraw_due: false,
            redraw_requested: false,
            outstanding_egui_redraw_request: false,
        }
    }
}

impl EventLoopSchedule {
    /// Clears the playback deadline and due flag.
    pub fn clear_playback(&mut self)
        ensures
            final(self)@ == (ScheduleV {
                playback_deadline: None,
                playback_due: false,
                ..old(self)@
            }),
    {
        self.playback_deadline = None;
        self.playback_due = false;
    }

    /// Updates the playback wakeup instant and due flag from pipeline state.
    pub fn sync_playback(&mut self, deadline: Option<u64>, frame_due: bool, now: u64)
        ensures
            final(self)@ == (ScheduleV {
                playback_deadline: deadline,
                playback_due: old(self)@.playback_due || frame_due || expired(deadline, now),
                ..old(self)@
            }),
    {
        self.playback_deadline = deadline;
        if frame_due {
            self.playback_due = true;
        } else if let Some(instant) = deadline {
            if instant <= now {
                self.playback_due = true;
            }
        }
    }

    /// Records an egui repaint delay. A zero delay becomes one UI redraw due now;
    /// otherwise the deadline is `now + delay`, dropped if that overflows.
    pub fn note_egui_repaint_delay(&mut self, delay: u64, now: u64)
        ensures
            delay == 0 ==> final(self)@ == (ScheduleV {
                ui_redraw_due: true,
                egui_deadline: None,
                ..old(self)@
            }),
            delay != 0 ==> final(self)@ == (ScheduleV {
                egui_deadline: if now + delay <= u64::MAX {
                    Some((now + delay) as u64)
                } else {
                    None
                },
                ..old(self)@
            }),
    {
        if delay == 0 {
            self.ui_redraw_due = true;
            self.egui_deadline = None;
        } else {
            self.egui_deadline = now.checked_add(delay);
        }
    }

    /// Clears a previously recorded non-zero egui repaint delay.
    pub fn clear_egui_deadline(&mut self)
        ensures
            final(self)@ == (ScheduleV { egui_deadline: None, ..old(self)@ }),
    {
        self.egui_deadline = None;
    }

    pub fn mark_surface_redraw_due(&mut self)
        ensures
            final(self)@ == (ScheduleV { surface_redraw_due: true, ..old(self)@ }),
    {
        self.surface_redraw_due = true;
    }

    pub fn clear_surface_redraw_due(&mut self)
        ensures
            final(self)@ == (ScheduleV { surface_redraw_due: false, ..old(self)@ }),
    {
        self.surface_redraw_due = false;
    }

    /// Requests a platform redraw. Returns `false`, changing nothing, when an
    /// egui request is already outstanding and this one is coalesced into it.
    pub fn request_redraw(&mut self, coalesce_egui: bool) -> (r: bool)
        ensures
            r == !(coalesce_egui && old(self)@.outstanding_egui_redraw_request),
            !r ==> final(self)@ == old(self)@,
            r ==> final(self)@ == (ScheduleV {
                redraw_requested: true,
                outstanding_egui_redraw_request: old(self)@.outstanding_egui_redraw_request
                    || coalesce_egui,
                ..old(self)@
            }),
    {
        if coalesce_egui {
            if self.outstanding_egui_redraw_request {
                return false;
            }
            self.outstanding_egui_redraw_request = true;
        }
        self.redraw_requested = true;
        true
    }

    /// Called when the platform delivers the requested redraw event.
    pub fn on_redraw_requested_event(&mut self)
        ensures
            final(self)@ == (ScheduleV { outstanding_egui_redraw_request: false, ..old(self)@ }),
    {
        self.outstanding_egui_redraw_request = false;
    }

    pub fn clear_redraw_request(&mut self)
        ensures
            final(self)@ == (ScheduleV { redraw_requested: false, ..old(self)@ }),
    {
        self.redraw_requested = false;
    }

    pub fn clear_ui_redraw_due(&mut self)
        ensures
            final(self)@ == (ScheduleV { ui_redraw_due: false, ..old(self)@ }),
    {
        self.ui_redraw_due = false;
    }

    /// Promotes expired deadlines into due flags without discarding the work
    /// they stand for.
    pub fn refresh(&mut self, now: u64)
        ensures
            final(self)@ == (ScheduleV {
                playback_due: old(self)@.playback_due || expired(
                    old(self)@.playback_deadline,
                    now,
                ),
                ui_redraw_due: old(self)@.ui_redraw_due || expired(old(self)@.egui_deadline, now),
                egui_deadline: if expired(old(self)@.egui_deadline, now) {
                    None
                } else {
                    old(self)@.egui_deadline
                },
                ..old(self)@
            }),
    {
        if let Some(deadline) = self.playback_deadline {
            if deadline <= now {
                self.playback_due = true;
            }
        }
        if let Some(deadline) = self.egui_deadline {
            if deadline <= now {
                self.ui_redraw_due = true;
                self.egui_deadline = None;
            }
        }
    }

    pub fn playback_due(&self) -> (r: bool)
        ensures
            r == self@.playback_due,
    {
        self.playback_due
    }

    /// Returns the playback due flag and clears it.
    pub fn consume_playback_due(&mut self) -> (r: bool)
        ensures
            r == old(self)@.playback_due,
            final(self)@ == (ScheduleV { playback_due: false, ..old(self)@ }),
    {
        let due = self.playback_due;
        self.playback_due = false;
        due
    }

    pub fn surface_redraw_due(&self) -> (r: bool)
        ensures
            r == self@.surface_redraw_due,
    {
        self.surface_redraw_due
    }

    pub fn ui_redraw_due(&self) -> (r: bool)
        ensures
            r == self@.ui_redraw_due,
    {
        self.ui_redraw_due
    }

    pub fn redraw_requested(&self) -> (r: bool)
        ensures
            r == self@.redraw_requested,
    {
        self.redraw_requested
    }

    /// The pending playback wakeup instant, if any.
    pub fn playback_deadline(&self) -> (r: Option<u64>)
        ensures
            r == self@.playback_deadline,
    {
        self.playback_deadline
    }

    /// The pending egui repaint instant, if any.
    pub fn egui_deadline(&self) -> (r: Option<u64>)
        ensures
            r == self@.egui_deadline,
    {
        self.egui_deadline
    }

    /// Returns whether any immediate work should run before sleeping.
    pub fn has_immediate_work(&self, playing: bool) -> (r: bool)
        ensures
            r == ((playing && self@.playback_due) || self@.surface_redraw_due
                || self@.ui_redraw_due || self@.redraw_requested),
    {
        if playing && self.playback_due {
            return true;
        }
        if self.surface_redraw_due {
            return true;
        }
        if self.ui_redraw_due || self.redraw_requested {
            return true;
        }
        false
    }

    /// Selects the next sleep target: the earliest deadline strictly after
    /// `now`, or an untimed wait. Never returns an expired instant.
    pub fn control_flow(&self, now: u64) -> (r: ControlFlowAction)
        ensures
            r == wake_target(
                future_of(self@.playback_deadline, now),
                future_of(self@.egui_deadline, now),
            ),
            r matches ControlFlowAction::WaitUntil(t) ==> t > now,
            r matches ControlFlowAction::WaitUntil(t) ==> self@.playback_deadline == Some(t)
                || self@.egui_deadline == Some(t),
            forall|d: u64|
                (self@.playback_deadline == Some(d) || self@.egui_deadline == Some(d)) && d > now
                    ==> (r matches ControlFlowAction::WaitUntil(t) && t <= d),
            r == ControlFlowAction::Wait <==> !(self@.playback_deadline matches Some(a) && a > now)
                && !(self@.egui_deadline matches Some(b) && b > now),
    {
        let future_playback = match self.playback_deadline {
            Some(d) => if d > now {
                Some(d)
            } else {
                None
            },
            None => None,
        };
        let future_egui = match self.egui_deadline {
            Some(d) => if d > now {
                Some(d)
            } else {
                None
            },
            None => None,
        };
        match (future_playback, future_egui) {
            (Some(a), Some(b)) => ControlFlowAction::WaitUntil(
                if a <= b {
                    a
                } else {
                    b
                },
            ),
            (Some(a), None) => ControlFlowAction::WaitUntil(a),
            (None, Some(b)) => ControlFlowAction::WaitUntil(b),
            (None, None) => ControlFlowAction::Wait,
        }
    }

    /// Snapshot for diagnostics: both deadlines relative to `now` in
    /// milliseconds, then the five flags.
    pub fn diagnostic_fields(&self, now: u64) -> (r: (
        Option<i64>,
        Option<i64>,
        bool,
        bool,
        bool,
        bool,
        bool,
    ))
        ensures
            r == (
                relative_ms(self@.playback_deadline, now),
                relative_ms(self@.egui_deadline, now),
                self@.playback_due,
                self@.ui_redraw_due,
                self@.surface_redraw_due,
                self@.redraw_requested,
                self@.outstanding_egui_redraw_request,
            ),
    {
        (
            deadline_relative_ms(self.playback_deadline, now),
            deadline_relative_ms(self.egui_deadline, now),
            self.playback_due,
            self.ui_redraw_due,
            self.surface_redraw_due,
            self.redraw_requested,
            self.outstanding_egui_redraw_request,
        )
    }
}

/// Signed distance from `now` to `deadline` in whole milliseconds.
pub fn deadline_relative_ms(deadline: Option<u64>, now: u64) -> (r: Option<i64>)
    ensures
        r == relative_ms(deadline, now),
{
    match deadline {
        Some(instant) => {
            if instant > now {
                let ms: u64 = (instant - now) / 1_000_000;
                Some(ms as i64)
            } else {
                let ms: u64 = (now - instant) / 1_000_000;
                let signed: i64 = ms as i64;
                Some(-signed)
            }
        },
        None => None,
    }
}

/// Returns whether an egui repaint delay schedules a one-shot redraw request.
pub fn egui_delay_requests_immediate_redraw(delay: u64) -> (r: bool)
    ensures
        r == (delay == 0),
{
    delay == 0
}

/// `Duration::MAX` in nanoseconds: the delay egui reports when no repaint is needed.
pub const NEVER_REPAINT_NS: u128 = 18_446_744_073_709_551_615_999_999_999;

/// Smallest element of a non-empty sequence.
pub open spec fn seq_min(s: Seq<u128>) -> u128
    decreases s.len(),
{
    if s.len() <= 1 {
        s[0]
    } else if s.last() < seq_min(s.drop_last()) {
        s.last()
    } else {
        seq_min(s.drop_last())
    }
}

/// The repaint delay (nanoseconds) requested for a finished UI frame: the
/// smallest delay over the frame's viewports, none when there are no viewports
/// or when even the smallest means "never".
pub fn repaint_delay_from_viewport_delays(delays: &[u128]) -> (r: Option<u128>)
    ensures
        delays@.len() == 0 ==> r is None,
        delays@.len() > 0 ==> r == if seq_min(delays@) == NEVER_REPAINT_NS {
            None
        } else {
            Some(seq_min(delays@))
        },
{
    if delays.len() == 0 {
        return None;
    }
    let mut least: u128 = delays[0];
    let mut i: usize = 1;
    while i < delays.len()
        invariant
            1 <= i <= delays.len(),
            least == seq_min(delays@.take(i as int)),
        decreases delays.len() - i,
    {
        proof {
            let t = delays@.take(i + 1);
            assert(t.drop_last() =~= delays@.take(i as int));
            assert(t.last() == delays@[i as int]);
        }
        if delays[i] < least {
            least = delays[i];
        }
        i += 1;
    }
    assert(delays@.take(delays.len() as int) =~= delays@);
    if least == NEVER_REPAINT_NS {
        None
    } else {
        Some(least)
    }
}

} // verus!
