use dvs_studio::frame_fields::{
    frame_fields_from_raw, pts_to_timestamp, DecoderError, FrameFields, AV_NOPTS_VALUE,
};
use dvs_studio::pipeline::decode_gate;

fn err(detail: &str) -> Result<FrameFields, DecoderError> {
    Err(DecoderError::InvalidDecoderState {
        detail: detail.to_string(),
    })
}

#[test]
fn cropped_frame_gives_visible_rect() {
    assert_eq!(
        frame_fields_from_raw(1920, 1088, 0, 0, 0, 8, 3003, 1, 1, 1, 1),
        Ok(FrameFields {
            pts: 3003,
            visible_x: 0,
            visible_y: 0,
            visible_width: 1920,
            visible_height: 1080,
            color_range: 1,
            colorspace: 1,
            color_primaries: 1,
            color_trc: 1,
        })
    );
    let f = frame_fields_from_raw(100, 50, 10, 5, 20, 15, -1, 2, 9, 9, 18).expect("fields");
    assert_eq!((f.visible_x, f.visible_y), (10, 5));
    assert_eq!((f.visible_width, f.visible_height), (70, 30));
}

#[test]
fn invalid_frame_fields_are_rejected_in_order() {
    assert_eq!(
        frame_fields_from_raw(-1, -1, 0, 0, 0, 0, 0, 0, 0, 0, 0),
        err("frame width is negative")
    );
    assert_eq!(
        frame_fields_from_raw(10, -1, 0, 0, 0, 0, 0, 0, 0, 0, 0),
        err("frame height is negative")
    );
    assert_eq!(
        frame_fields_from_raw(10, 10, 0, 0, 0, usize::MAX, 0, 0, 0, 0, 0),
        err("crop_bottom is negative")
    );
    assert_eq!(
        frame_fields_from_raw(10, 10, 6, 0, 5, 0, 0, 0, 0, 0, 0),
        err("visible width underflow")
    );
    assert_eq!(
        frame_fields_from_raw(10, 10, 0, 11, 0, 0, 0, 0, 0, 0, 0),
        err("visible height underflow")
    );
    assert_eq!(
        frame_fields_from_raw(10, 10, 5, 0, 5, 0, 0, 0, 0, 0, 0),
        err("visible dimensions are zero")
    );
}

#[test]
fn decoding_after_eof_is_refused_and_counted() {
    assert_eq!(decode_gate(false, 0), (true, 0));
    assert_eq!(decode_gate(true, 0), (false, 1));
    assert_eq!(decode_gate(true, 4), (false, 5));
}

#[test]
fn absent_pts_maps_to_none() {
    let ts = pts_to_timestamp(AV_NOPTS_VALUE, 1, 60_000).expect("pts");
    assert!(ts.is_none());
}

#[test]
fn present_pts_maps_to_timestamp() {
    let ts = pts_to_timestamp(3_600_000, 1, 60_000)
        .expect("pts")
        .expect("some");
    assert_eq!(ts.pts(), 3_600_000);
    assert_eq!(ts.time_base().numerator(), 1);
    assert_eq!(ts.time_base().denominator(), 60_000);
}

#[test]
fn invalid_time_base_rejected() {
    let err = pts_to_timestamp(1, 0, 60_000).unwrap_err();
    assert!(matches!(err, DecoderError::InvalidDecoderState { .. }));
    assert_eq!(
        pts_to_timestamp(1, 1, -5),
        Err(DecoderError::InvalidDecoderState {
            detail: "stream time base is invalid".to_string()
        })
    );
    assert_eq!(pts_to_timestamp(AV_NOPTS_VALUE, 0, 0), Ok(None));
}
