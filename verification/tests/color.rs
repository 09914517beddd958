use dvs_studio::color::{
    color_info_from_ffmpeg, map_color_matrix, map_color_primaries, map_color_range,
    map_transfer_characteristic, ColorMatrix, ColorPrimaries, ColorRange, TransferCharacteristic,
    VideoColorInfo, AVCOL_RANGE_JPEG, AVCOL_RANGE_MPEG, AVCOL_SPC_BT470BG, AVCOL_SPC_BT709,
    AVCOL_TRC_SMPTE2084,
};

#[test]
fn color_range_mapping() {
    assert_eq!(map_color_range(AVCOL_RANGE_MPEG), ColorRange::Limited);
    assert_eq!(map_color_range(AVCOL_RANGE_JPEG), ColorRange::Full);
    assert_eq!(map_color_range(0), ColorRange::Unspecified);
}

#[test]
fn color_matrix_mapping() {
    assert_eq!(map_color_matrix(AVCOL_SPC_BT709), ColorMatrix::Bt709);
    assert_eq!(map_color_matrix(AVCOL_SPC_BT470BG), ColorMatrix::Bt601);
    assert_eq!(map_color_matrix(-1), ColorMatrix::Unspecified);
}

#[test]
fn transfer_characteristic_mapping() {
    assert_eq!(
        map_transfer_characteristic(AVCOL_TRC_SMPTE2084),
        TransferCharacteristic::Pq
    );
    assert_eq!(
        map_transfer_characteristic(99),
        TransferCharacteristic::Unspecified
    );
}

#[test]
fn color_info_combines_the_four_codes() {
    assert_eq!(
        color_info_from_ffmpeg(2, 9, 9, 18),
        VideoColorInfo {
            range: ColorRange::Full,
            matrix: ColorMatrix::Bt2020NonConstantLuminance,
            primaries: ColorPrimaries::Bt2020,
            transfer: TransferCharacteristic::Hlg,
        }
    );
    assert_eq!(map_color_matrix(6), ColorMatrix::Bt601);
    assert_eq!(map_color_primaries(1), ColorPrimaries::Bt709);
    assert_eq!(map_color_primaries(2), ColorPrimaries::Unspecified);
    assert_eq!(map_transfer_characteristic(13), TransferCharacteristic::Srgb);
    assert_eq!(map_transfer_characteristic(1), TransferCharacteristic::Bt709);
}
