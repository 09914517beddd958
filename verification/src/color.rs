//! Mapping of the decoder's colour description codes to the media model.

use vstd::prelude::*;

verus! {

/// FFmpeg `AVCOL_RANGE_MPEG` (limited/studio swing).
pub const AVCOL_RANGE_MPEG: i32 = 1;
/// FFmpeg `AVCOL_RANGE_JPEG` (full range).
pub const AVCOL_RANGE_JPEG: i32 = 2;
/// FFmpeg `AVCOL_SPC_BT709`.
pub const AVCOL_SPC_BT709: i32 = 1;
/// FFmpeg `AVCOL_SPC_BT470BG`.
pub const AVCOL_SPC_BT470BG: i32 = 5;
/// FFmpeg `AVCOL_SPC_SMPTE170M`.
pub const AVCOL_SPC_SMPTE170M: i32 = 6;
/// FFmpeg `AVCOL_SPC_BT2020_NCL`.
pub const AVCOL_SPC_BT2020_NCL: i32 = 9;
/// FFmpeg `AVCOL_PRI_BT709`.
pub const AVCOL_PRI_BT709: i32 = 1;
/// FFmpeg `AVCOL_PRI_BT2020`.
pub const AVCOL_PRI_BT2020: i32 = 9;
/// FFmpeg `AVCOL_TRC_BT709`.
pub const AVCOL_TRC_BT709: i32 = 1;
/// FFmpeg `AVCOL_TRC_IEC61966_2_1` (sRGB).
pub const AVCOL_TRC_IEC61966_2_1: i32 = 13;
/// FFmpeg `AVCOL_TRC_SMPTE2084` (PQ).
pub const AVCOL_TRC_SMPTE2084: i32 = 16;
/// FFmpeg `AVCOL_TRC_ARIB_STD_B67` (HLG).
pub const AVCOL_TRC_ARIB_STD_B67: i32 = 18;

#[derive(Debug, Clone, Copy, PartialEq, Eq, Structural)]
pub enum ColorRange {
    Limited,
    Full,
    Unspecified,
}

#[derive(Debug, Clone, Copy, PartialEq, Eq, Structural)]
pub enum ColorMatrix {
    Bt709,
    Bt601,
    Bt2020NonConstantLuminance,
    Unspecified,
}

#[derive(Debug, Clone, Copy, PartialEq, Eq, Structural)]
pub enum ColorPrimaries {
    Bt709,
    Bt2020,
    Unspecified,
}

#[derive(Debug, Clone, Copy, PartialEq, Eq, Structural)]
pub enum TransferCharacteristic {
    Bt709,
    Srgb,
    Pq,
    Hlg,
    Unspecified,
}

/// Colour description of a decoded frame.
#[derive(Debug, Clone, Copy, PartialEq, Eq, Structural)]
pub struct VideoColorInfo {
    pub range: ColorRange,
    pub matrix: ColorMatrix,
    pub primaries: ColorPrimaries,
    pub transfer: TransferCharacteristic,
}

pub open spec fn range_of(value: i32) -> ColorRange {
    if value == AVCOL_RANGE_MPEG {
        ColorRange::Limited
    } else if value == AVCOL_RANGE_JPEG {
        ColorRange::Full
    } else {
        ColorRange::Unspecified
    }
}

pub open spec fn matrix_of(value: i32) -> ColorMatrix {
    if value == AVCOL_SPC_BT709 {
        ColorMatrix::Bt709
    } else if value == AVCOL_SPC_BT470BG || value == AVCOL_SPC_SMPTE170M {
        ColorMatrix::Bt601
    } else if value == AVCOL_SPC_BT2020_NCL {
        ColorMatrix::Bt2020NonConstantLuminance
    } else {
        ColorMatrix::Unspecified
    }
}

pub open spec fn primaries_of(value: i32) -> ColorPrimaries {
    if value == AVCOL_PRI_BT709 {
        ColorPrimaries::Bt709
    } else if value == AVCOL_PRI_BT2020 {
        ColorPrimaries::Bt2020
    } else {
        ColorPrimaries::Unspecified
    }
}

pub open spec fn transfer_of(value: i32) -> TransferCharacteristic {
    if value == AVCOL_TRC_BT709 {
        TransferCharacteristic::Bt709
    } else if value == AVCOL_TRC_IEC61966_2_1 {
        TransferCharacteristic::Srgb
    } else if value == AVCOL_TRC_SMPTE2084 {
        TransferCharacteristic::Pq
    } else if value == AVCOL_TRC_ARIB_STD_B67 {
        TransferCharacteristic::Hlg
    } else {
        TransferCharacteristic::Unspecified
    }
}

/// Maps an FFmpeg colour range code.
pub fn map_color_range(value: i32) -> (r: ColorRange)
    ensures
        r == range_of(value),
{
    if value == AVCOL_RANGE_MPEG {
        ColorRange::Limited
    } else if value == AVCOL_RANGE_JPEG {
        ColorRange::Full
    } else {
        ColorRange::Unspecified
    }
}

/// Maps an FFmpeg colour space code to a colour matrix.
pub fn map_color_matrix(value: i32) -> (r: ColorMatrix)
    ensures
        r == matrix_of(value),
{
    if value == AVCOL_SPC_BT709 {
        ColorMatrix::Bt709
    } else if value == AVCOL_SPC_BT470BG || value == AVCOL_SPC_SMPTE170M {
        ColorMatrix::Bt601
    } else if value == AVCOL_SPC_BT2020_NCL {
        ColorMatrix::Bt2020NonConstantLuminance
    } else {
        ColorMatrix::Unspecified
    }
}

/// Maps an FFmpeg colour primaries code.
pub fn map_color_primaries(value: i32) -> (r: ColorPrimaries)
    ensures
        r == primaries_of(value),
{
    if value == AVCOL_PRI_BT709 {
        ColorPrimaries::Bt709
    } else if value == AVCOL_PRI_BT2020 {
        ColorPrimaries::Bt2020
    } else {
        ColorPrimaries::Unspecified
    }
}

/// Maps an FFmpeg transfer characteristic code.
pub fn map_transfer_characteristic(value: i32) -> (r: TransferCharacteristic)
    ensures
        r == transfer_of(value),
{
    if value == AVCOL_TRC_BT709 {
        TransferCharacteristic::Bt709
    } else if value == AVCOL_TRC_IEC61966_2_1 {
        TransferCharacteristic::Srgb
    } else if value == AVCOL_TRC_SMPTE2084 {
        TransferCharacteristic::Pq
    } else if value == AVCOL_TRC_ARIB_STD_B67 {
        TransferCharacteristic::Hlg
    } else {
        TransferCharacteristic::Unspecified
    }
}

/// Builds the colour description from a frame's four FFmpeg colour codes.
pub fn color_info_from_ffmpeg(
    color_range: i32,
    colorspace: i32,
    color_primaries: i32,
    color_trc: i32,
) -> (r: VideoColorInfo)
    ensures
        r == (VideoColorInfo {
            range: range_of(color_range),
            matrix: matrix_of(colorspace),
            primaries: primaries_of(color_primaries),
            transfer: transfer_of(color_trc),
        }),
{
    VideoColorInfo {
        range: map_color_range(color_range),
        matrix: map_color_matrix(colorspace),
        primaries: map_color_primaries(color_primaries),
        transfer: map_transfer_characteristic(color_trc),
    }
}

} // verus!
