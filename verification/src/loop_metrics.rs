//! Event-loop instrumentation counters for smoke playback.

use vstd::prelude::*;
use vstd::string::StringExecFns;

use crate::text::{append_decimal, decimal};

verus! {

/// Source of a redraw request.
#[derive(Debug, Clone, Copy, PartialEq, Eq, Hash, Structural)]
pub enum RedrawRequestSource {
    EguiEventResponse,
    EguiZeroRepaintDelay,
    Resize,
    SurfaceRetry,
    Initialization,
    PostEof,
    SmokePlayingResize,
}

/// Saturating increment of a counter.
pub open spec fn bumped(x: u64) -> u64 {
    if x < u64::MAX {
        (x + 1) as u64
    } else {
        x
    }
}

/// Bounded counters for diagnosing event-loop scheduling during smoke playback.
#[derive(Debug, Clone, PartialEq, Eq)]
pub struct LoopMetrics {
    pub total_window_events: u64,
    pub about_to_wait_calls: u64,
    pub redraw_requested_events: u64,
    pub request_redraw_calls: u64,
    pub request_redraw_egui_event_response: u64,
    pub request_redraw_egui_zero_delay: u64,
    pub request_redraw_resize: u64,
    pub request_redraw_surface_retry: u64,
    pub request_redraw_initialization: u64,
    pub request_redraw_post_eof: u64,
    pub request_redraw_smoke_playing_resize: u64,
    pub scheduler_evaluations: u64,
    pub scheduler_early_waits: u64,
    pub control_flow_wait_until_future: u64,
    pub control_flow_wait_until_expired: u64,
    pub control_flow_wait: u64,
    pub queue_submissions: u64,
    pub surface_presents: u64,
    pub zero_egui_repaint_delays: u64,
    pub non_zero_egui_repaint_delays: u64,
}

/// All counters at zero.
pub open spec fn zero_metrics() -> LoopMetrics {
    LoopMetrics {
        total_window_events: 0,
        about_to_wait_calls: 0,
        redraw_requested_events: 0,
        request_redraw_calls: 0,
        request_redraw_egui_event_response: 0,
        request_redraw_egui_zero_delay: 0,
        request_redraw_resize: 0,
        request_redraw_surface_retry: 0,
        request_redraw_initialization: 0,
        request_redraw_post_eof: 0,
        request_redraw_smoke_playing_resize: 0,
        scheduler_evaluations: 0,
        scheduler_early_waits: 0,
        control_flow_wait_until_future: 0,
        control_flow_wait_until_expired: 0,
        control_flow_wait: 0,
        queue_submissions: 0,
        surface_presents: 0,
        zero_egui_repaint_delays: 0,
        non_zero_egui_repaint_delays: 0,
    }
}

/// The counters after one redraw request from `source`: the total and the
/// counter of that source each go up by one.
pub open spec fn after_request(m: LoopMetrics, source: RedrawRequestSource) -> LoopMetrics {
    let m = LoopMetrics { request_redraw_calls: bumped(m.request_redraw_calls), ..m };
    match source {
        RedrawRequestSource::EguiEventResponse => LoopMetrics {
            request_redraw_egui_event_response: bumped(m.request_redraw_egui_event_response),
            ..m
        },
        RedrawRequestSource::EguiZeroRepaintDelay => LoopMetrics {
            request_redraw_egui_zero_delay: bumped(m.request_redraw_egui_zero_delay),
            ..m
        },
        RedrawRequestSource::Resize => LoopMetrics {
            request_redraw_resize: bumped(m.request_redraw_resize),
            ..m
        },
        RedrawRequestSource::SurfaceRetry => LoopMetrics {
            request_redraw_surface_retry: bumped(m.request_redraw_surface_retry),
            ..m
        },
        RedrawRequestSource::Initialization => LoopMetrics {
            request_redraw_initialization: bumped(m.request_redraw_initialization),
            ..m
        },
        RedrawRequestSource::PostEof => LoopMetrics {
            request_redraw_post_eof: bumped(m.request_redraw_post_eof),
            ..m
        },
        RedrawRequestSource::SmokePlayingResize => LoopMetrics {
            request_redraw_smoke_playing_resize: bumped(m.request_redraw_smoke_playing_resize),
            ..m
        },
    }
}

impl Default for LoopMetrics {
    fn default() -> (r: LoopMetrics)
        ensures
            r == zero_metrics(),
    {
        LoopMetrics {
            total_window_events: 0,
            about_to_wait_calls: 0,
            redraw_requested_events: 0,
            request_redraw_calls: 0,
            request_redraw_egui_event_response: 0,
            request_redraw_egui_zero_delay: 0,
            request_redraw_resize: 0,
            request_redraw_surface_retry: 0,
            request_redraw_initialization: 0,
            request_redraw_post_eof: 0,
            request_redraw_smoke_playing_resize: 0,
            scheduler_evaluations: 0,
            scheduler_early_waits: 0,
            control_flow_wait_until_future: 0,
            control_flow_wait_until_expired: 0,
            control_flow_wait: 0,
            queue_submissions: 0,
            surface_presents: 0,
            zero_egui_repaint_delays: 0,
            non_zero_egui_repaint_delays: 0,
        }
    }
}

impl LoopMetrics {
    pub fn record_window_event(&mut self)
        ensures
            *final(self) == (LoopMetrics {
                total_window_events: bumped(old(self).total_window_events),
                ..*old(self)
            }),
    {
        self.total_window_events = self.total_window_events.saturating_add(1);
    }

    pub fn record_about_to_wait(&mut self)
        ensures
            *final(self) == (LoopMetrics {
                about_to_wait_calls: bumped(old(self).about_to_wait_calls),
                ..*old(self)
            }),
    {
        self.about_to_wait_calls = self.about_to_wait_calls.saturating_add(1);
    }

    pub fn record_redraw_requested_event(&mut self)
        ensures
            *final(self) == (LoopMetrics {
                redraw_requested_events: bumped(old(self).redraw_requested_events),
                ..*old(self)
            }),
    {
        self.redraw_requested_events = self.redraw_requested_events.saturating_add(1);
    }

    /// Counts one redraw request, in total and by source.
    pub fn record_request_redraw(&mut self, source: RedrawRequestSource)
        ensures
            *final(self) == after_request(*old(self), source),
    {
        self.request_redraw_calls = self.request_redraw_calls.saturating_add(1);
        match source {
            RedrawRequestSource::EguiEventResponse => {
                self.request_redraw_egui_event_response =
                    self.request_redraw_egui_event_response.saturating_add(1);
            },
            RedrawRequestSource::EguiZeroRepaintDelay => {
                self.request_redraw_egui_zero_delay =
                    self.request_redraw_egui_zero_delay.saturating_add(1);
            },
            RedrawRequestSource::Resize => {
                self.request_redraw_resize = self.request_redraw_resize.saturating_add(1);
            },
            RedrawRequestSource::SurfaceRetry => {
                self.request_redraw_surface_retry =
                    self.request_redraw_surface_retry.saturating_add(1);
            },
            RedrawRequestSource::Initialization => {
                self.request_redraw_initialization =
                    self.request_redraw_initialization.saturating_add(1);
            },
            RedrawRequestSource::PostEof => {
                self.request_redraw_post_eof = self.request_redraw_post_eof.saturating_add(1);
            },
            RedrawRequestSource::SmokePlayingResize => {
                self.request_redraw_smoke_playing_resize =
                    self.request_redraw_smoke_playing_resize.saturating_add(1);
            },
        }
    }

    /// Counts one scheduler evaluation, and one early wait when `early_wait`.
    pub fn record_scheduler_evaluation(&mut self, early_wait: bool)
        ensures
            *final(self) == (LoopMetrics {
                scheduler_evaluations: bumped(old(self).scheduler_evaluations),
                scheduler_early_waits: if early_wait {
                    bumped(old(self).scheduler_early_waits)
                } else {
                    old(self).scheduler_early_waits
                },
                ..*old(self)
            }),
    {
        self.scheduler_evaluations = self.scheduler_evaluations.saturating_add(1);
        if early_wait {
            self.scheduler_early_waits = self.scheduler_early_waits.saturating_add(1);
        }
    }

    /// Counts a timed wait, as future when `deadline` is after `now` and as
    /// expired otherwise.
    pub fn record_control_flow_wait_until(&mut self, deadline: u64, now: u64)
        ensures
            deadline > now ==> *final(self) == (LoopMetrics {
                control_flow_wait_until_future: bumped(old(self).control_flow_wait_until_future),
                ..*old(self)
            }),
            deadline <= now ==> *final(self) == (LoopMetrics {
                control_flow_wait_until_expired: bumped(old(self).control_flow_wait_until_expired),
                ..*old(self)
            }),
    {
        if deadline > now {
            self.control_flow_wait_until_future =
                self.control_flow_wait_until_future.saturating_add(1);
        } else {
            self.control_flow_wait_until_expired =
                self.control_flow_wait_until_expired.saturating_add(1);
        }
    }

    pub fn record_control_flow_wait(&mut self)
        ensures
            *final(self) == (LoopMetrics {
                control_flow_wait: bumped(old(self).control_flow_wait),
                ..*old(self)
            }),
    {
        self.control_flow_wait = self.control_flow_wait.saturating_add(1);
    }

    pub fn record_queue_submission(&mut self)
        ensures
            *final(self) == (LoopMetrics {
                queue_submissions: bumped(old(self).queue_submissions),
                ..*old(self)
            }),
    {
        self.queue_submissions = self.queue_submissions.saturating_add(1);
    }

    pub fn record_surface_present(&mut self)
        ensures
            *final(self) == (LoopMetrics {
                surface_presents: bumped(old(self).surface_presents),
                ..*old(self)
            }),
    {
        self.surface_presents = self.surface_presents.saturating_add(1);
    }

    /// Counts an egui repaint delay (nanoseconds) as zero or non-zero.
    pub fn record_egui_repaint_delay(&mut self, delay: u64)
        ensures
            delay == 0 ==> *final(self) == (LoopMetrics {
                zero_egui_repaint_delays: bumped(old(self).zero_egui_repaint_delays),
                ..*old(self)
            }),
            delay != 0 ==> *final(self) == (LoopMetrics {
                non_zero_egui_repaint_delays: bumped(old(self).non_zero_egui_repaint_delays),
                ..*old(self)
            }),
    {
        if delay == 0 {
            self.zero_egui_repaint_delays = self.zero_egui_repaint_delays.saturating_add(1);
        } else {
            self.non_zero_egui_repaint_delays = self.non_zero_egui_repaint_delays.saturating_add(1);
        }
    }
}

/// The lines of the loop-metrics summary, in order.
pub open spec fn summary_lines(m: LoopMetrics) -> Seq<Seq<char>> {
    seq![
        "=== Integration 8A loop metrics ==="@,
        "total_window_events: "@ + decimal(m.total_window_events as nat),
        "about_to_wait_calls: "@ + decimal(m.about_to_wait_calls as nat),
        "redraw_requested_events: "@ + decimal(m.redraw_requested_events as nat),
        "request_redraw_calls: "@ + decimal(m.request_redraw_calls as nat),
        "request_redraw_sources: egui_event="@ + decimal(m.request_redraw_egui_event_response as nat)
            + " egui_zero="@ + decimal(m.request_redraw_egui_zero_delay as nat) + " resize="@
            + decimal(m.request_redraw_resize as nat) + " surface_retry="@ + decimal(
            m.request_redraw_surface_retry as nat,
        ) + " init="@ + decimal(m.request_redraw_initialization as nat) + " post_eof="@ + decimal(
            m.request_redraw_post_eof as nat,
        ) + " smoke_resize="@ + decimal(m.request_redraw_smoke_playing_resize as nat),
        "scheduler_evaluations: "@ + decimal(m.scheduler_evaluations as nat),
        "scheduler_early_waits: "@ + decimal(m.scheduler_early_waits as nat),
        "control_flow: wait_until_future="@ + decimal(m.control_flow_wait_until_future as nat)
            + " wait_until_expired="@ + decimal(m.control_flow_wait_until_expired as nat)
            + " wait="@ + decimal(m.control_flow_wait as nat),
        "queue_submissions: "@ + decimal(m.queue_submissions as nat),
        "surface_presents: "@ + decimal(m.surface_presents as nat),
        "egui_repaint_delay: zero="@ + decimal(m.zero_egui_repaint_delays as nat) + " non_zero="@
            + decimal(m.non_zero_egui_repaint_delays as nat),
    ]
}

/// `label` followed by the decimal notation of `n`.
fn labelled(label: &str, n: u64) -> (r: String)
    ensures
        r@ == label@ + decimal(n as nat),
{
    let mut s = label.to_owned();
    append_decimal(&mut s, n);
    s
}

impl LoopMetrics {
    /// The summary of the counters, one line per entry, for printing.
    pub fn summary_lines(&self) -> (r: Vec<String>)
        ensures
            r@.map_values(|l: String| l@) == summary_lines(*self),
    {
        let mut lines: Vec<String> = Vec::new();
        lines.push("=== Integration 8A loop metrics ===".to_owned());
        lines.push(labelled("total_window_events: ", self.total_window_events));
        lines.push(labelled("about_to_wait_calls: ", self.about_to_wait_calls));
        lines.push(labelled("redraw_requested_events: ", self.redraw_requested_events));
        lines.push(labelled("request_redraw_calls: ", self.request_redraw_calls));
        let mut sources = labelled(
            "request_redraw_sources: egui_event=",
            self.request_redraw_egui_event_response,
        );
        sources.append(" egui_zero=");
        append_decimal(&mut sources, self.request_redraw_egui_zero_delay);
        sources.append(" resize=");
        append_decimal(&mut sources, self.request_redraw_resize);
        sources.append(" surface_retry=");
        append_decimal(&mut sources, self.request_redraw_surface_retry);
        sources.append(" init=");
        append_decimal(&mut sources, self.request_redraw_initialization);
        sources.append(" post_eof=");
        append_decimal(&mut sources, self.request_redraw_post_eof);
        sources.append(" smoke_resize=");
        append_decimal(&mut sources, self.request_redraw_smoke_playing_resize);
        lines.push(sources);
        lines.push(labelled("scheduler_evaluations: ", self.scheduler_evaluations));
        lines.push(labelled("scheduler_early_waits: ", self.scheduler_early_waits));
        let mut flow = labelled(
            "control_flow: wait_until_future=",
            self.control_flow_wait_until_future,
        );
        flow.append(" wait_until_expired=");
        append_decimal(&mut flow, self.control_flow_wait_until_expired);
        flow.append(" wait=");
        append_decimal(&mut flow, self.control_flow_wait);
        lines.push(flow);
        lines.push(labelled("queue_submissions: ", self.queue_submissions));
        lines.push(labelled("surface_presents: ", self.surface_presents));
        let mut delays = labelled("egui_repaint_delay: zero=", self.zero_egui_repaint_delays);
        delays.append(" non_zero=");
        append_decimal(&mut delays, self.non_zero_egui_repaint_delays);
        lines.push(delays);
        assert(lines@.map_values(|l: String| l@) =~= summary_lines(*self));
        lines
    }
}

} // verus!
