//! Validation of a decoded frame's raw geometry, colour fields and timestamp.

use vstd::prelude::*;

verus! {

/// Error of the decoder layer.
#[derive(Debug, Clone, PartialEq, Eq)]
pub enum DecoderError {
    /// The decoder handed back a frame or state that cannot be used.
    InvalidDecoderState { detail: String },
}

/// Raw fields of a decoded frame, with the visible rectangle worked out.
#[derive(Debug, Clone, Copy, PartialEq, Eq, Structural)]
pub struct FrameFields {
    pub pts: i64,
    pub visible_x: u32,
    pub visible_y: u32,
    pub visible_width: u32,
    pub visible_height: u32,
    pub color_range: i32,
    pub colorspace: i32,
    pub color_primaries: i32,
    pub color_trc: i32,
}

/// The visible rectangle `(x, y, width, height)` of a coded frame after
/// cropping, or the reason it is unusable, checked in this order: negative
/// coded size, a crop too large for 32 bits, crops wider or taller than the
/// frame, an empty visible area.
pub open spec fn visible_rect(
    width: i32,
    height: i32,
    crop_left: usize,
    crop_top: usize,
    crop_right: usize,
    crop_bottom: usize,
) -> Result<(u32, u32, u32, u32), Seq<char>> {
    if width < 0 {
        Err("frame width is negative"@)
    } else if height < 0 {
        Err("frame height is negative"@)
    } else if crop_left > u32::MAX {
        Err("crop_left is negative"@)
    } else if crop_top > u32::MAX {
        Err("crop_top is negative"@)
    } else if crop_right > u32::MAX {
        Err("crop_right is negative"@)
    } else if crop_bottom > u32::MAX {
        Err("crop_bottom is negative"@)
    } else if crop_left + crop_right > width {
        Err("visible width underflow"@)
    } else if crop_top + crop_bottom > height {
        Err("visible height underflow"@)
    } else if width - crop_left - crop_right == 0 || height - crop_top - crop_bottom == 0 {
        Err("visible dimensions are zero"@)
    } else {
        Ok(
            (
                crop_left as u32,
                crop_top as u32,
                (width - crop_left - crop_right) as u32,
                (height - crop_top - crop_bottom) as u32,
            ),
        )
    }
}

fn invalid(detail: &str) -> (r: DecoderError)
    ensures
        r == (DecoderError::InvalidDecoderState { detail: r->detail }),
        r->detail@ == detail@,
{
    DecoderError::InvalidDecoderState { detail: detail.to_owned() }
}

/// Validates a decoded frame's raw fields and works out its visible
/// rectangle; the timestamp and colour codes are passed through.
pub fn frame_fields_from_raw(
    width: i32,
    height: i32,
    crop_left: usize,
    crop_top: usize,
    crop_right: usize,
    crop_bottom: usize,
    pts: i64,
    color_range: i32,
    colorspace: i32,
    color_primaries: i32,
    color_trc: i32,
) -> (r: Result<FrameFields, DecoderError>)
    ensures
        match visible_rect(width, height, crop_left, crop_top, crop_right, crop_bottom) {
            Err(detail) => r matches Err(DecoderError::InvalidDecoderState { detail: d })
                && d@ == detail,
            Ok((x, y, w, h)) => r == Ok::<FrameFields, DecoderError>(
                FrameFields {
                    pts,
                    visible_x: x,
                    visible_y: y,
                    visible_width: w,
                    visible_height: h,
                    color_range,
                    colorspace,
                    color_primaries,
                    color_trc,
                },
            ),
        },
{
    if width < 0 {
        return Err(invalid("frame width is negative"));
    }
    if height < 0 {
        return Err(invalid("frame height is negative"));
    }
    if crop_left > 4294967295usize {
        return Err(invalid("crop_left is negative"));
    }
    if crop_top > 4294967295usize {
        return Err(invalid("crop_top is negative"));
    }
    if crop_right > 4294967295usize {
        return Err(invalid("crop_right is negative"));
    }
    if crop_bottom > 4294967295usize {
        return Err(invalid("crop_bottom is negative"));
    }
    let coded_width = width as u32;
    let coded_height = height as u32;
    let left = crop_left as u32;
    let top = crop_top as u32;
    let right = crop_right as u32;
    let bottom = crop_bottom as u32;
    if left > coded_width || right > coded_width - left {
        return Err(invalid("visible width underflow"));
    }
    if top > coded_height || bottom > coded_height - top {
        return Err(invalid("visible height underflow"));
    }
    let visible_width = coded_width - left - right;
    let visible_height = coded_height - top - bottom;
    if visible_width == 0 || visible_height == 0 {
        return Err(invalid("visible dimensions are zero"));
    }
    Ok(
        FrameFields {
            pts,
            visible_x: left,
            visible_y: top,
            visible_width,
            visible_height,
            color_range,
            colorspace,
            color_primaries,
            color_trc,
        },
    )
}

/// FFmpeg's marker for a frame without a presentation timestamp.
pub const AV_NOPTS_VALUE: i64 = i64::MIN;

/// A stream time base: one tick lasts `numerator / denominator` seconds.
#[derive(Debug, Clone, Copy, PartialEq, Eq, Structural)]
pub struct TimeBase {
    pub numerator: u32,
    pub denominator: u32,
}

impl TimeBase {
    /// Seconds per tick, numerator.
    pub fn numerator(&self) -> (r: u32)
        ensures
            r == self.numerator,
    {
        self.numerator
    }

    /// Seconds per tick, denominator.
    pub fn denominator(&self) -> (r: u32)
        ensures
            r == self.denominator,
    {
        self.denominator
    }
}

/// A presentation timestamp in ticks of its stream's time base.
#[derive(Debug, Clone, Copy, PartialEq, Eq, Structural)]
pub struct MediaTimestamp {
    pub pts: i64,
    pub time_base: TimeBase,
}

impl MediaTimestamp {
    /// The timestamp in ticks.
    pub fn pts(&self) -> (r: i64)
        ensures
            r == self.pts,
    {
        self.pts
    }

    /// The stream time base the ticks are counted in.
    pub fn time_base(&self) -> (r: TimeBase)
        ensures
            r == self.time_base,
    {
        self.time_base
    }
}

/// Converts a frame's presentation timestamp and its stream's time base:
/// no timestamp for the absent marker, an error for a time base whose
/// numerator or denominator is not positive.
pub fn pts_to_timestamp(pts: i64, time_base_num: i32, time_base_den: i32) -> (r: Result<
    Option<MediaTimestamp>,
    DecoderError,
>)
    ensures
        pts == AV_NOPTS_VALUE ==> r == Ok::<Option<MediaTimestamp>, DecoderError>(None),
        pts != AV_NOPTS_VALUE && (time_base_num <= 0 || time_base_den <= 0) ==> (r matches Err(
            DecoderError::InvalidDecoderState { detail: d },
        ) && d@ == "stream time base is invalid"@),
        pts != AV_NOPTS_VALUE && time_base_num > 0 && time_base_den > 0 ==> r == Ok::<
            Option<MediaTimestamp>,
            DecoderError,
        >(
            Some(
                (MediaTimestamp {
                    pts,
                    time_base: (TimeBase {
                        numerator: time_base_num as u32,
                        denominator: time_base_den as u32,
                    }),
                }),
            ),
        ),
{
    if pts == AV_NOPTS_VALUE {
        return Ok(None);
    }
    if time_base_num <= 0 || time_base_den <= 0 {
        return Err(invalid("stream time base is invalid"));
    }
    let time_base = TimeBase { numerator: time_base_num as u32, denominator: time_base_den as u32 };
    Ok(Some(MediaTimestamp { pts, time_base }))
}

} // verus!
