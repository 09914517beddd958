//! Playback metrics summary text for diagnostics.

use vstd::prelude::*;
use vstd::string::StringExecFns;

use crate::text::{append_decimal, decimal};

verus! {

/// Playback metrics as the summary reports them.
#[derive(Debug, Clone, PartialEq, Eq)]
pub struct MetricsSummary {
    /// Expected media duration of what was played, in microseconds.
    pub media_duration_us: Option<i64>,
    /// Measured monotonic wall-clock duration, in microseconds.
    pub wall_duration_us: Option<i64>,
    pub decoded: u64,
    pub presented: u64,
    pub late_drops: u64,
    pub early_waits: u64,
    pub max_lateness_us: i64,
    pub average_lateness_us: i64,
    /// Identities of the first and last presented frames.
    pub frame_id_range: Option<(u64, u64)>,
    pub eof_reached: bool,
    pub surface_reconfigurations: u64,
}

/// Decimal notation of a signed integer.
pub open spec fn signed_decimal(n: int) -> Seq<char> {
    if n < 0 {
        "-"@ + decimal((-n) as nat)
    } else {
        decimal(n as nat)
    }
}

pub open spec fn bool_text(b: bool) -> Seq<char> {
    if b {
        "true"@
    } else {
        "false"@
    }
}

/// The lines of the summary, in order.
pub open spec fn summary_lines(m: MetricsSummary, time_base: Option<Seq<char>>) -> Seq<Seq<char>> {
    let a = seq!["=== Do Vale Studio 4 playback summary ==="@];
    let b = match time_base {
        Some(tb) => a.push("fixture_time_base: "@ + tb),
        None => a,
    };
    let c = match m.media_duration_us {
        Some(d) => b.push("expected_media_duration_us: "@ + signed_decimal(d as int)),
        None => b,
    };
    let d = match m.wall_duration_us {
        Some(w) => c.push("measured_monotonic_duration_us: "@ + signed_decimal(w as int)),
        None => c,
    };
    let e = d + seq![
        "decoded: "@ + decimal(m.decoded as nat),
        "presented: "@ + decimal(m.presented as nat),
        "late_drops: "@ + decimal(m.late_drops as nat),
        "early_waits: "@ + decimal(m.early_waits as nat),
        "max_lateness_us: "@ + signed_decimal(m.max_lateness_us as int),
        "average_lateness_us: "@ + signed_decimal(m.average_lateness_us as int),
    ];
    let f = match m.frame_id_range {
        Some((first, last)) => e.push(
            "frame_id_range: "@ + decimal(first as nat) + "..="@ + decimal(last as nat),
        ),
        None => e,
    };
    f + seq![
        "eof_reached: "@ + bool_text(m.eof_reached),
        "surface_reconfigurations: "@ + decimal(m.surface_reconfigurations as nat),
    ]
}

/// The summary never exceeds sixteen lines, whatever the metrics.
pub proof fn law_summary_is_bounded(m: MetricsSummary, time_base: Option<Seq<char>>)
    ensures
        summary_lines(m, time_base).len() <= 16,
{
}

/// Lines joined by newlines, without a trailing newline.
pub open spec fn joined_lines(lines: Seq<Seq<char>>) -> Seq<char>
    decreases lines.len(),
{
    if lines.len() == 0 {
        Seq::empty()
    } else if lines.len() == 1 {
        lines[0]
    } else {
        joined_lines(lines.drop_last()) + "\n"@ + lines.last()
    }
}

/// Appends the decimal notation of a signed integer.
pub fn append_signed(s: &mut String, n: i64)
    ensures
        final(s)@ == old(s)@ + signed_decimal(n as int),
{
    if n < 0 {
        s.append("-");
        let magnitude: u64 = if n == i64::MIN {
            9_223_372_036_854_775_808u64
        } else {
            (-n) as u64
        };
        append_decimal(s, magnitude);
    } else {
        append_decimal(s, n as u64);
    }
}

fn push_line(lines: &mut Vec<String>, line: String)
    ensures
        final(lines)@.map_values(|l: String| l@) == old(lines)@.map_values(|l: String| l@).push(
            line@,
        ),
{
    lines.push(line);
    assert(final(lines)@.map_values(|l: String| l@) =~= old(lines)@.map_values(|l: String| l@).push(
        line@,
    ));
}

/// Formats the playback summary: a header line, then one line per metric.
pub fn format_metrics_summary(metrics: &MetricsSummary, time_base: Option<&str>) -> (r: String)
    ensures
        r@ == joined_lines(
            summary_lines(
                *metrics,
                match time_base {
                    Some(tb) => Some(tb@),
                    None => None,
                },
            ),
        ),
{
    let mut lines: Vec<String> = Vec::new();
    push_line(&mut lines, "=== Do Vale Studio 4 playback summary ===".to_owned());
    if let Some(tb) = time_base {
        let mut l = "fixture_time_base: ".to_owned();
        l.append(tb);
        push_line(&mut lines, l);
    }
    if let Some(d) = metrics.media_duration_us {
        let mut l = "expected_media_duration_us: ".to_owned();
        append_signed(&mut l, d);
        push_line(&mut lines, l);
    }
    if let Some(w) = metrics.wall_duration_us {
        let mut l = "measured_monotonic_duration_us: ".to_owned();
        append_signed(&mut l, w);
        push_line(&mut lines, l);
    }
    let mut l = "decoded: ".to_owned();
    append_decimal(&mut l, metrics.decoded);
    push_line(&mut lines, l);
    let mut l = "presented: ".to_owned();
    append_decimal(&mut l, metrics.presented);
    push_line(&mut lines, l);
    let mut l = "late_drops: ".to_owned();
    append_decimal(&mut l, metrics.late_drops);
    push_line(&mut lines, l);
    let mut l = "early_waits: ".to_owned();
    append_decimal(&mut l, metrics.early_waits);
    push_line(&mut lines, l);
    let mut l = "max_lateness_us: ".to_owned();
    append_signed(&mut l, metrics.max_lateness_us);
    push_line(&mut lines, l);
    let mut l = "average_lateness_us: ".to_owned();
    append_signed(&mut l, metrics.average_lateness_us);
    push_line(&mut lines, l);
    if let Some((first, last)) = metrics.frame_id_range {
        let mut l = "frame_id_range: ".to_owned();
        append_decimal(&mut l, first);
        l.append("..=");
        append_decimal(&mut l, last);
        push_line(&mut lines, l);
    }
    let mut l = "eof_reached: ".to_owned();
    if metrics.eof_reached {
        l.append("true");
    } else {
        l.append("false");
    }
    push_line(&mut lines, l);
    let mut l = "surface_reconfigurations: ".to_owned();
    append_decimal(&mut l, metrics.surface_reconfigurations);
    push_line(&mut lines, l);
    let ghost views = lines@.map_values(|l: String| l@);
    assert(views =~= summary_lines(
        *metrics,
        match time_base {
            Some(tb) => Some(tb@),
            None => None,
        },
    ));
    join_lines(&lines)
}

/// Joins lines with newlines.
pub fn join_lines(lines: &Vec<String>) -> (r: String)
    ensures
        r@ == joined_lines(lines@.map_values(|l: String| l@)),
{
    let ghost views = lines@.map_values(|l: String| l@);
    let mut text = String::new();
    let mut i: usize = 0;
    while i < lines.len()
        invariant
            i <= lines.len(),
            views == lines@.map_values(|l: String| l@),
            text@ == joined_lines(views.take(i as int)),
        decreases lines.len() - i,
    {
        if i > 0 {
            text.append("\n");
        }
        text.append(lines[i].as_str());
        proof {
            let t = views.take(i + 1);
            assert(t.drop_last() =~= views.take(i as int));
            assert(t.last() == views[i as int]);
            if i == 0 {
                assert(joined_lines(views.take(0)) =~= Seq::<char>::empty());
                assert(text@ =~= t[0]);
            }
        }
        i += 1;
    }
    assert(views.take(lines.len() as int) =~= views);
    text
}

} // verus!
