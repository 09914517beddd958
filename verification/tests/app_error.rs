use dvs_studio::AppError;

#[test]
fn app_error_messages_name_the_failure() {
    assert_eq!(
        AppError::Config("missing --input".to_string()).message(),
        "configuration error: missing --input"
    );
    assert_eq!(
        AppError::InvalidInput {
            path: "clips/a.mp4".to_string()
        }
        .message(),
        "invalid input path: clips/a.mp4"
    );
    assert_eq!(
        AppError::UnsupportedPlatform.message(),
        "unsupported platform for production video playback"
    );
    assert_eq!(
        AppError::Window("no display".to_string()).message(),
        "window creation failed: no display"
    );
    assert_eq!(
        AppError::Gpu("adapter lost".to_string()).message(),
        "GPU initialization failed: adapter lost"
    );
    assert_eq!(
        AppError::Decoder("eof".to_string()).message(),
        "decoder error: eof"
    );
    assert_eq!(
        AppError::Render("surface lost".to_string()).message(),
        "render error: surface lost"
    );
    assert_eq!(
        AppError::Playback("missing timestamp".to_string()).message(),
        "playback error: missing timestamp"
    );
    assert_eq!(
        AppError::InvalidState.message(),
        "invalid application state transition"
    );
    assert_eq!(
        AppError::Fatal("out of memory".to_string()).message(),
        "fatal runtime error: out of memory"
    );
}
