//! Decisions of the interactive resize diagnostic log.

use vstd::prelude::*;
use vstd::string::StringExecFns;

use crate::event_loop_schedule::ControlFlowAction;
use crate::text::{append_decimal, decimal, str_eq};

verus! {

/// Where the resize diagnostic log is written, relative to the working directory.
pub open spec fn log_path_spec() -> Seq<char> {
    "target/dvs-resize-diagnostic.log"@
}

/// Returns the path of the resize diagnostic log.
pub fn log_path() -> (r: String)
    ensures
        r@ == log_path_spec(),
{
    "target/dvs-resize-diagnostic.log".to_owned()
}

/// Event kinds that are still logged once the entry cap has been reached.
pub open spec fn critical_kind(kind: Seq<char>) -> bool {
    ||| kind == "state_transition"@
    ||| kind == "playback_started"@
    ||| kind == "eof_reached"@
    ||| kind == "surface_acquire_error"@
    ||| kind == "scheduler_fatal"@
    ||| kind == "deadline_promoted"@
    ||| kind == "stall_snapshot_f8"@
    ||| kind == "initialization_complete"@
    ||| kind == "diagnostic_startup"@
    ||| kind == "diagnostic_cap_reached"@
}

/// Returns whether an event kind is preserved when the entry cap is reached.
pub fn is_critical_kind(kind: &str) -> (r: bool)
    ensures
        r == critical_kind(kind@),
{
    str_eq(kind, "state_transition") || str_eq(kind, "playback_started") || str_eq(
        kind,
        "eof_reached",
    ) || str_eq(kind, "surface_acquire_error") || str_eq(kind, "scheduler_fatal") || str_eq(
        kind,
        "deadline_promoted",
    ) || str_eq(kind, "stall_snapshot_f8") || str_eq(kind, "initialization_complete") || str_eq(
        kind,
        "diagnostic_startup",
    ) || str_eq(kind, "diagnostic_cap_reached")
}

/// Whole milliseconds from `now` until `deadline`, zero once it has passed.
pub open spec fn millis_until(deadline: u64, now: u64) -> nat {
    if deadline >= now {
        ((deadline - now) / 1_000_000) as nat
    } else {
        0
    }
}

/// Text of a control-flow decision as logged.
pub open spec fn control_flow_label(action: ControlFlowAction, now: u64) -> Seq<char> {
    match action {
        ControlFlowAction::Wait => "Wait"@,
        ControlFlowAction::WaitUntil(t) => "WaitUntil(+"@ + decimal(millis_until(t, now))
            + "ms)"@,
    }
}

/// Returns the log text of a control-flow decision taken at `now`.
pub fn control_flow_action_label(action: ControlFlowAction, now: u64) -> (r: String)
    ensures
        r@ == control_flow_label(action, now),
{
    match action {
        ControlFlowAction::Wait => "Wait".to_owned(),
        ControlFlowAction::WaitUntil(instant) => {
            let ms: u64 = if instant >= now {
                (instant - now) / 1_000_000
            } else {
                0
            };
            let mut label = "WaitUntil(+".to_owned();
            append_decimal(&mut label, ms);
            label.append("ms)");
            label
        },
    }
}

/// Why the event loop woke up, with the times involved already measured by
/// the host (whole milliseconds).
#[derive(Debug, Clone, Copy, PartialEq, Eq, Structural)]
pub enum StartCauseInfo {
    /// A timed wait ended: time since the wait began and since the requested
    /// resume instant.
    ResumeTimeReached { start_elapsed_ms: u64, requested_elapsed_ms: u64 },
    /// A wait was interrupted: time since it began and, when a resume instant
    /// was requested, the time still left until it (zero once passed).
    WaitCancelled { start_elapsed_ms: u64, resume_in_ms: Option<u64> },
    /// The loop polls continuously.
    Poll,
    /// The loop's first iteration.
    Init,
}

/// Text of a wake-up cause as logged.
pub open spec fn start_cause_text(cause: StartCauseInfo) -> Seq<char> {
    match cause {
        StartCauseInfo::ResumeTimeReached { start_elapsed_ms, requested_elapsed_ms } =>
            "ResumeTimeReached(start+"@ + decimal(start_elapsed_ms as nat) + "ms req+"@ + decimal(
            requested_elapsed_ms as nat,
        ) + "ms)"@,
        StartCauseInfo::WaitCancelled { start_elapsed_ms, resume_in_ms } => "WaitCancelled(start+"@
            + decimal(start_elapsed_ms as nat) + "ms resume="@ + match resume_in_ms {
            Some(ms) => decimal(ms as nat),
            None => "-"@,
        } + ")"@,
        StartCauseInfo::Poll => "Poll"@,
        StartCauseInfo::Init => "Init"@,
    }
}

/// Returns the log text of a wake-up cause.
pub fn start_cause_label(cause: StartCauseInfo) -> (r: String)
    ensures
        r@ == start_cause_text(cause),
{
    match cause {
        StartCauseInfo::ResumeTimeReached { start_elapsed_ms, requested_elapsed_ms } => {
            let mut label = "ResumeTimeReached(start+".to_owned();
            append_decimal(&mut label, start_elapsed_ms);
            label.append("ms req+");
            append_decimal(&mut label, requested_elapsed_ms);
            label.append("ms)");
            label
        },
        StartCauseInfo::WaitCancelled { start_elapsed_ms, resume_in_ms } => {
            let mut label = "WaitCancelled(start+".to_owned();
            append_decimal(&mut label, start_elapsed_ms);
            label.append("ms resume=");
            match resume_in_ms {
                Some(ms) => append_decimal(&mut label, ms),
                None => label.append("-"),
            }
            label.append(")");
            label
        },
        StartCauseInfo::Poll => "Poll".to_owned(),
        StartCauseInfo::Init => "Init".to_owned(),
    }
}

// ---------------------------------------------------------------------------
// The bounded, collapsing diagnostic log.

/// Number of entries after which only critical kinds are still logged.
pub const MAX_ENTRIES: u64 = 4096;

/// One write the log asks for.
#[derive(Debug, Clone, PartialEq, Eq)]
pub enum LogWrite {
    /// A raw line of text.
    Line(String),
    /// The snapshot at hand, formatted as entry number `seq`.
    Entry { seq: u64 },
}

/// Abstract value of a [`LogWrite`].
pub enum LogWriteV {
    Line(Seq<char>),
    Entry { seq: u64 },
}

impl View for LogWrite {
    type V = LogWriteV;

    open spec fn view(&self) -> LogWriteV {
        match self {
            LogWrite::Line(l) => LogWriteV::Line(l@),
            LogWrite::Entry { seq } => LogWriteV::Entry { seq: *seq },
        }
    }
}

pub open spec fn writes_view(v: Seq<LogWrite>) -> Seq<LogWriteV> {
    v.map_values(|w: LogWrite| w@)
}

/// Abstract value of a [`DiagnosticLog`].
pub struct DiagnosticLogV {
    pub seq: u64,
    pub entries: u64,
    pub cap_reached: bool,
    pub last_key: Option<Seq<char>>,
    pub repeat_count: u64,
    pub display_only_redraw_count: u64,
    pub last_scheduler_decision: Seq<char>,
    pub last_surface_acquire: Seq<char>,
    pub last_submit_ms: Option<u64>,
    pub last_present_ms: Option<u64>,
    pub process_work_depth: u32,
}

/// Bookkeeping of the resize diagnostic log: entry numbering, the entry cap,
/// and collapsing of repeated entries. The host formats and writes the lines.
#[derive(Debug, Clone, PartialEq, Eq)]
pub struct DiagnosticLog {
    seq: u64,
    entries: u64,
    cap_reached: bool,
    last_key: Option<String>,
    repeat_count: u64,
    display_only_redraw_count: u64,
    last_scheduler_decision: String,
    last_surface_acquire: String,
    last_submit_ms: Option<u64>,
    last_present_ms: Option<u64>,
    process_work_depth: u32,
}

impl View for DiagnosticLog {
    type V = DiagnosticLogV;

    closed spec fn view(&self) -> DiagnosticLogV {
        DiagnosticLogV {
            seq: self.seq,
            entries: self.entries,
            cap_reached: self.cap_reached,
            last_key: match self.last_key {
                Some(k) => Some(k@),
                None => None,
            },
            repeat_count: self.repeat_count,
            display_only_redraw_count: self.display_only_redraw_count,
            last_scheduler_decision: self.last_scheduler_decision@,
            last_surface_acquire: self.last_surface_acquire@,
            last_submit_ms: self.last_submit_ms,
            last_present_ms: self.last_present_ms,
            process_work_depth: self.process_work_depth,
        }
    }
}

/// Saturating increment.
pub open spec fn inc(x: u64) -> u64 {
    if x < u64::MAX {
        (x + 1) as u64
    } else {
        x
    }
}

/// First line of a log.
pub open spec fn startup_line() -> Seq<char> {
    "=== dvs-app resize diagnostic startup ==="@
}

/// Last line of a log.
pub open spec fn shutdown_line() -> Seq<char> {
    "=== dvs-app resize diagnostic shutdown ==="@
}

/// Line written once when the entry cap is reached.
pub open spec fn cap_line() -> Seq<char> {
    "=== diagnostic entry cap reached; preserving critical entries only ==="@
}

/// An empty log.
pub open spec fn fresh_log() -> DiagnosticLogV {
    DiagnosticLogV {
        seq: 0,
        entries: 0,
        cap_reached: false,
        last_key: None,
        repeat_count: 0,
        display_only_redraw_count: 0,
        last_scheduler_decision: "-"@,
        last_surface_acquire: "-"@,
        last_submit_ms: None,
        last_present_ms: None,
        process_work_depth: 0,
    }
}

/// Reports pending repeats of the last entry, then forgets them.
pub open spec fn flushed(s: DiagnosticLogV) -> (DiagnosticLogV, Seq<LogWriteV>) {
    if s.repeat_count > 1 {
        (
            DiagnosticLogV { repeat_count: 0, ..s },
            seq![LogWriteV::Line("REPEATED x"@ + decimal(s.repeat_count as nat))],
        )
    } else {
        (DiagnosticLogV { repeat_count: 0, ..s }, Seq::empty())
    }
}

/// Numbers and writes one entry of kind `kind`, minding the cap.
pub open spec fn entry_written(s: DiagnosticLogV, kind: Seq<char>) -> (DiagnosticLogV, Seq<LogWriteV>) {
    let (s1, w1) = if s.entries >= MAX_ENTRIES && !s.cap_reached {
        (
            DiagnosticLogV { cap_reached: true, ..s },
            seq![LogWriteV::Line(cap_line()), LogWriteV::Line("diagnostic_cap_reached"@)],
        )
    } else {
        (s, Seq::<LogWriteV>::empty())
    };
    if s.entries >= MAX_ENTRIES && !critical_kind(kind) {
        (s1, w1)
    } else {
        (
            DiagnosticLogV { seq: inc(s1.seq), entries: inc(s1.entries), ..s1 },
            w1.push(LogWriteV::Entry { seq: inc(s1.seq) }),
        )
    }
}

/// Logging a snapshot of kind `kind` whose collapse key is `key`: dropped once
/// the cap is reached unless critical, counted as a repeat when the key is the
/// last one, and otherwise written after the pending repeats.
pub open spec fn snapshot_logged(s: DiagnosticLogV, kind: Seq<char>, key: Seq<char>) -> (
    DiagnosticLogV,
    Seq<LogWriteV>,
) {
    if s.cap_reached && !critical_kind(kind) {
        (s, Seq::empty())
    } else if s.last_key == Some(key) {
        (DiagnosticLogV { repeat_count: inc(s.repeat_count), ..s }, Seq::empty())
    } else {
        let (s1, w1) = flushed(s);
        let (s2, w2) = entry_written(DiagnosticLogV { last_key: Some(key), ..s1 }, kind);
        (s2, w1 + w2)
    }
}

fn push_writes(writes: &mut Vec<LogWrite>, w: LogWrite)
    ensures
        writes_view(final(writes)@) == writes_view(old(writes)@).push(w@),
{
    writes.push(w);
    assert(writes_view(final(writes)@) =~= writes_view(old(writes)@).push(w@));
}

impl DiagnosticLog {
    /// An empty log.
    pub fn new() -> (r: DiagnosticLog)
        ensures
            r@ == fresh_log(),
    {
        DiagnosticLog {
            seq: 0,
            entries: 0,
            cap_reached: false,
            last_key: None,
            repeat_count: 0,
            display_only_redraw_count: 0,
            last_scheduler_decision: "-".to_owned(),
            last_surface_acquire: "-".to_owned(),
            last_submit_ms: None,
            last_present_ms: None,
            process_work_depth: 0,
        }
    }

    /// The line that opens a log.
    pub fn startup_line() -> (r: String)
        ensures
            r@ == startup_line(),
    {
        "=== dvs-app resize diagnostic startup ===".to_owned()
    }

    fn flush_repeat(&mut self, writes: &mut Vec<LogWrite>)
        ensures
            final(self)@ == flushed(old(self)@).0,
            writes_view(final(writes)@) == writes_view(old(writes)@) + flushed(old(self)@).1,
    {
        if self.repeat_count > 1 {
            let mut line = "REPEATED x".to_owned();
            append_decimal(&mut line, self.repeat_count);
            push_writes(writes, LogWrite::Line(line));
            self.repeat_count = 0;
        } else {
            self.repeat_count = 0;
            assert(writes_view(writes@) =~= writes_view(old(writes)@) + Seq::<LogWriteV>::empty());
        }
    }

    fn write_entry(&mut self, kind: &str, writes: &mut Vec<LogWrite>)
        ensures
            final(self)@ == entry_written(old(self)@, kind@).0,
            writes_view(final(writes)@) == writes_view(old(writes)@) + entry_written(
                old(self)@,
                kind@,
            ).1,
    {
        let ghost w0 = writes_view(writes@);
        let over = self.entries >= MAX_ENTRIES;
        if over {
            if !self.cap_reached {
                self.cap_reached = true;
                push_writes(
                    writes,
                    LogWrite::Line(
                        "=== diagnostic entry cap reached; preserving critical entries only ===".to_owned(),
                    ),
                );
                push_writes(writes, LogWrite::Line("diagnostic_cap_reached".to_owned()));
            }
            if !is_critical_kind(kind) {
                assert(writes_view(writes@) =~= w0 + entry_written(old(self)@, kind@).1);
                return;
            }
        }
        self.seq = self.seq.saturating_add(1);
        self.entries = self.entries.saturating_add(1);
        push_writes(writes, LogWrite::Entry { seq: self.seq });
        assert(writes_view(writes@) =~= w0 + entry_written(old(self)@, kind@).1);
    }

    /// Logs a snapshot of kind `kind` whose collapse key is `key`; returns the
    /// writes to make, in order.
    pub fn log_snapshot(&mut self, kind: &str, key: String) -> (r: Vec<LogWrite>)
        ensures
            (final(self)@, writes_view(r@)) == snapshot_logged(old(self)@, kind@, key@),
    {
        let mut writes = Vec::new();
        if self.cap_reached && !is_critical_kind(kind) {
            assert(writes_view(writes@) =~= Seq::<LogWriteV>::empty());
            return writes;
        }
        let same = match &self.last_key {
            Some(last) => str_eq(last.as_str(), key.as_str()),
            None => false,
        };
        if same {
            self.repeat_count = self.repeat_count.saturating_add(1);
            assert(writes_view(writes@) =~= Seq::<LogWriteV>::empty());
            return writes;
        }
        assert(writes_view(writes@) =~= Seq::<LogWriteV>::empty());
        self.flush_repeat(&mut writes);
        self.last_key = Some(key);
        self.write_entry(kind, &mut writes);
        writes
    }

    /// Writes a manual stall snapshot (F8) regardless of repeats.
    pub fn write_stall_snapshot(&mut self) -> (r: Vec<LogWrite>)
        ensures
            ({
                let (s1, w1) = flushed(old(self)@);
                let (s2, w2) = entry_written(s1, "stall_snapshot_f8"@);
                final(self)@ == s2 && writes_view(r@) == w1 + w2
            }),
    {
        let mut writes = Vec::new();
        assert(writes_view(writes@) =~= Seq::<LogWriteV>::empty());
        self.flush_repeat(&mut writes);
        self.write_entry("stall_snapshot_f8", &mut writes);
        writes
    }

    /// Closes the log: pending repeats, then the closing line.
    pub fn finish(&mut self) -> (r: Vec<LogWrite>)
        ensures
            final(self)@ == flushed(old(self)@).0,
            writes_view(r@) == flushed(old(self)@).1.push(LogWriteV::Line(shutdown_line())),
    {
        let mut writes = Vec::new();
        assert(writes_view(writes@) =~= Seq::<LogWriteV>::empty());
        self.flush_repeat(&mut writes);
        push_writes(&mut writes, LogWrite::Line("=== dvs-app resize diagnostic shutdown ===".to_owned()));
        writes
    }

    pub fn display_only_redraw_count(&self) -> (r: u64)
        ensures
            r == self@.display_only_redraw_count,
    {
        self.display_only_redraw_count
    }

    pub fn record_display_only_redraw(&mut self)
        ensures
            final(self)@ == (DiagnosticLogV {
                display_only_redraw_count: inc(old(self)@.display_only_redraw_count),
                ..old(self)@
            }),
    {
        self.display_only_redraw_count = self.display_only_redraw_count.saturating_add(1);
    }

    pub fn set_scheduler_decision(&mut self, decision: String)
        ensures
            final(self)@ == (DiagnosticLogV { last_scheduler_decision: decision@, ..old(self)@ }),
    {
        self.last_scheduler_decision = decision;
    }

    pub fn set_surface_acquire(&mut self, result: String)
        ensures
            final(self)@ == (DiagnosticLogV { last_surface_acquire: result@, ..old(self)@ }),
    {
        self.last_surface_acquire = result;
    }

    /// Notes a queue submission at `elapsed_ms` since the log was opened.
    pub fn record_queue_submit(&mut self, elapsed_ms: u64)
        ensures
            final(self)@ == (DiagnosticLogV { last_submit_ms: Some(elapsed_ms), ..old(self)@ }),
    {
        self.last_submit_ms = Some(elapsed_ms);
    }

    /// Notes a surface present at `elapsed_ms` since the log was opened.
    pub fn record_surface_present(&mut self, elapsed_ms: u64)
        ensures
            final(self)@ == (DiagnosticLogV { last_present_ms: Some(elapsed_ms), ..old(self)@ }),
    {
        self.last_present_ms = Some(elapsed_ms);
    }

    pub fn last_scheduler_decision(&self) -> (r: &str)
        ensures
            r@ == self@.last_scheduler_decision,
    {
        self.last_scheduler_decision.as_str()
    }

    pub fn last_surface_acquire(&self) -> (r: &str)
        ensures
            r@ == self@.last_surface_acquire,
    {
        self.last_surface_acquire.as_str()
    }

    pub fn last_submit_ms(&self) -> (r: Option<u64>)
        ensures
            r == self@.last_submit_ms,
    {
        self.last_submit_ms
    }

    pub fn last_present_ms(&self) -> (r: Option<u64>)
        ensures
            r == self@.last_present_ms,
    {
        self.last_present_ms
    }

    pub fn process_work_depth(&self) -> (r: u32)
        ensures
            r == self@.process_work_depth,
    {
        self.process_work_depth
    }

    /// Enters a nested round of work processing.
    pub fn process_work_enter(&mut self)
        ensures
            final(self)@ == (DiagnosticLogV {
                process_work_depth: if old(self)@.process_work_depth < u32::MAX {
                    (old(self)@.process_work_depth + 1) as u32
                } else {
                    old(self)@.process_work_depth
                },
                ..old(self)@
            }),
    {
        self.process_work_depth = self.process_work_depth.saturating_add(1);
    }

    /// Leaves a round of work processing; never goes below zero.
    pub fn process_work_exit(&mut self)
        ensures
            final(self)@ == (DiagnosticLogV {
                process_work_depth: if old(self)@.process_work_depth > 0 {
                    (old(self)@.process_work_depth - 1) as u32
                } else {
                    0
                },
                ..old(self)@
            }),
    {
        self.process_work_depth = self.process_work_depth.saturating_sub(1);
    }
}

/// Once the cap is reached, a snapshot of a kind that is not critical is
/// dropped: nothing is written and nothing changes.
pub proof fn law_cap_keeps_only_critical(s: DiagnosticLogV, kind: Seq<char>, key: Seq<char>)
    requires
        s.cap_reached,
        !critical_kind(kind),
    ensures
        snapshot_logged(s, kind, key) == (s, Seq::<LogWriteV>::empty()),
{
}

/// Logging the same snapshot twice in a row writes nothing the second time;
/// the repeat is reported with the next different entry or at the end.
pub proof fn law_repeats_collapse(s: DiagnosticLogV, kind: Seq<char>, key: Seq<char>)
    requires
        !(s.cap_reached && !critical_kind(kind)),
    ensures
        snapshot_logged(snapshot_logged(s, kind, key).0, kind, key).1 == Seq::<LogWriteV>::empty(),
{
}

} // verus!
