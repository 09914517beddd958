//! The smoke run's closing report: the lines printed after the playback
//! metrics, from plain values the host reads off the pipeline and renderer.

use vstd::prelude::*;
use vstd::string::StringExecFns;

use crate::metrics_summary::{append_signed, bool_text, join_lines, joined_lines, signed_decimal};
use crate::text::{append_decimal, decimal};

verus! {

/// Where the renderer fitted the video in the window, in physical pixels.
#[derive(Debug, Clone, Copy, PartialEq, Eq, Structural)]
pub struct FitRect {
    pub x: u32,
    pub y: u32,
    pub width: u32,
    pub height: u32,
}

/// A window size reached after the end of the stream, and the fit rendered there.
#[derive(Debug, Clone, Copy, PartialEq, Eq, Structural)]
pub struct ResizeFit {
    pub window_width: u32,
    pub window_height: u32,
    pub fit: FitRect,
}

/// What the smoke run reports after the playback metrics.
#[derive(Debug, Clone, PartialEq, Eq)]
pub struct SmokeDetails {
    /// Timestamp of the first decoded frame, if any.
    pub first_pts: Option<i64>,
    /// Timestamp of the last decoded frame, if any.
    pub last_pts: Option<i64>,
    pub playback_started: bool,
    pub eof: bool,
    /// Whether a display frame is held for redraws.
    pub held_display_frame: bool,
    /// Identity of the held display frame, if its metadata is kept.
    pub held_frame_id: Option<u64>,
    pub decode_calls_after_eof: u64,
    /// How often the interop bridge opened shared texture and fence handles.
    pub bridge_texture_opens: u32,
    pub bridge_fence_opens: u32,
    /// GPU objects the renderer created.
    pub shader_modules: u64,
    pub render_pipelines: u64,
    pub bind_groups: u64,
    pub samplers: u64,
    /// The window sizes reached after the end of the stream, in order.
    pub post_eof_resizes: Vec<ResizeFit>,
}

/// `(x,y wxh)` of a fitted rectangle.
pub open spec fn rect_text(f: FitRect) -> Seq<char> {
    "("@ + decimal(f.x as nat) + ","@ + decimal(f.y as nat) + " "@ + decimal(f.width as nat) + "x"@
        + decimal(f.height as nat) + ")"@
}

/// The line for the `index`-th resize after the end of the stream; the
/// viewport and the scissor are both the fitted rectangle.
pub open spec fn resize_line(index: nat, r: ResizeFit) -> Seq<char> {
    "post_eof_resize_"@ + decimal(index) + ": window="@ + decimal(r.window_width as nat) + "x"@
        + decimal(r.window_height as nat) + " viewport="@ + rect_text(r.fit) + " scissor="@
        + rect_text(r.fit)
}

/// The reported identity of the held frame: its own, or `u64::MAX` when none is kept.
pub open spec fn held_id(d: SmokeDetails) -> u64 {
    match d.held_frame_id {
        Some(id) => id,
        None => u64::MAX,
    }
}

/// The report's lines, in order.
pub open spec fn smoke_detail_lines(d: SmokeDetails) -> Seq<Seq<char>> {
    let a = match d.first_pts {
        Some(p) => seq!["first_pts: "@ + signed_decimal(p as int)],
        None => Seq::empty(),
    };
    let b = match d.last_pts {
        Some(p) => a.push("last_pts: "@ + signed_decimal(p as int)),
        None => a,
    };
    let c = b + seq![
        "playback_started: "@ + bool_text(d.playback_started),
        "eof: "@ + bool_text(d.eof),
        "held_display_frame: "@ + bool_text(d.held_display_frame) + " (frame_id="@ + decimal(
            held_id(d) as nat,
        ) + ")"@,
        "decode_calls_after_eof: "@ + decimal(d.decode_calls_after_eof as nat),
        "bridge_handle_opens: texture="@ + decimal(d.bridge_texture_opens as nat) + ", fence="@
            + decimal(d.bridge_fence_opens as nat),
        "renderer_resources: shader_modules="@ + decimal(d.shader_modules as nat)
            + ", render_pipelines="@ + decimal(d.render_pipelines as nat) + ", bind_groups="@
            + decimal(d.bind_groups as nat) + ", samplers="@ + decimal(d.samplers as nat),
    ];
    c + Seq::new(
        d.post_eof_resizes@.len(),
        |i: int| resize_line(i as nat, d.post_eof_resizes@[i]),
    )
}

fn push_text(lines: &mut Vec<String>, line: String)
    ensures
        final(lines)@.map_values(|l: String| l@) == old(lines)@.map_values(|l: String| l@).push(
            line@,
        ),
{
    lines.push(line);
    assert(final(lines)@.map_values(|l: String| l@) =~= old(lines)@.map_values(|l: String| l@).push(
        line@,
    ));
}

fn append_bool(s: &mut String, b: bool)
    ensures
        final(s)@ == old(s)@ + bool_text(b),
{
    if b {
        s.append("true");
    } else {
        s.append("false");
    }
}

fn append_rect(s: &mut String, f: FitRect)
    ensures
        final(s)@ == old(s)@ + rect_text(f),
{
    let ghost start = s@;
    s.append("(");
    append_decimal(s, f.x as u64);
    s.append(",");
    append_decimal(s, f.y as u64);
    s.append(" ");
    append_decimal(s, f.width as u64);
    s.append("x");
    append_decimal(s, f.height as u64);
    s.append(")");
    assert(s@ =~= start + rect_text(f));
}

fn format_resize(index: usize, r: ResizeFit) -> (line: String)
    ensures
        line@ == resize_line(index as nat, r),
{
    let mut line = "post_eof_resize_".to_owned();
    append_decimal(&mut line, index as u64);
    line.append(": window=");
    append_decimal(&mut line, r.window_width as u64);
    line.append("x");
    append_decimal(&mut line, r.window_height as u64);
    line.append(" viewport=");
    append_rect(&mut line, r.fit);
    line.append(" scissor=");
    append_rect(&mut line, r.fit);
    line
}

/// Formats the smoke run's closing report, one line per fact, joined by newlines.
pub fn format_smoke_details(d: &SmokeDetails) -> (r: String)
    ensures
        r@ == joined_lines(smoke_detail_lines(*d)),
{
    let mut lines: Vec<String> = Vec::new();
    if let Some(p) = d.first_pts {
        let mut l = "first_pts: ".to_owned();
        append_signed(&mut l, p);
        push_text(&mut lines, l);
    }
    if let Some(p) = d.last_pts {
        let mut l = "last_pts: ".to_owned();
        append_signed(&mut l, p);
        push_text(&mut lines, l);
    }
    let mut l = "playback_started: ".to_owned();
    append_bool(&mut l, d.playback_started);
    push_text(&mut lines, l);
    let mut l = "eof: ".to_owned();
    append_bool(&mut l, d.eof);
    push_text(&mut lines, l);
    let mut l = "held_display_frame: ".to_owned();
    append_bool(&mut l, d.held_display_frame);
    l.append(" (frame_id=");
    let id: u64 = match d.held_frame_id {
        Some(id) => id,
        None => u64::MAX,
    };
    append_decimal(&mut l, id);
    l.append(")");
    push_text(&mut lines, l);
    let mut l = "decode_calls_after_eof: ".to_owned();
    append_decimal(&mut l, d.decode_calls_after_eof);
    push_text(&mut lines, l);
    let mut l = "bridge_handle_opens: texture=".to_owned();
    append_decimal(&mut l, d.bridge_texture_opens as u64);
    l.append(", fence=");
    append_decimal(&mut l, d.bridge_fence_opens as u64);
    push_text(&mut lines, l);
    let mut l = "renderer_resources: shader_modules=".to_owned();
    append_decimal(&mut l, d.shader_modules);
    l.append(", render_pipelines=");
    append_decimal(&mut l, d.render_pipelines);
    l.append(", bind_groups=");
    append_decimal(&mut l, d.bind_groups);
    l.append(", samplers=");
    append_decimal(&mut l, d.samplers);
    push_text(&mut lines, l);
    let ghost head = lines@.map_values(|l: String| l@);
    let ghost resizes = d.post_eof_resizes@;
    let mut i: usize = 0;
    while i < d.post_eof_resizes.len()
        invariant
            i <= resizes.len(),
            resizes == d.post_eof_resizes@,
            lines@.map_values(|l: String| l@) == head + Seq::new(
                i as nat,
                |k: int| resize_line(k as nat, resizes[k]),
            ),
        decreases resizes.len() - i,
    {
        let ghost before = lines@.map_values(|l: String| l@);
        push_text(&mut lines, format_resize(i, d.post_eof_resizes[i]));
        assert(head + Seq::new((i + 1) as nat, |k: int| resize_line(k as nat, resizes[k]))
            =~= before.push(resize_line(i as nat, resizes[i as int])));
        i += 1;
    }
    assert(lines@.map_values(|l: String| l@) =~= smoke_detail_lines(*d));
    join_lines(&lines)
}

} // verus!
