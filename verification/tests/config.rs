use dvs_studio::config::{parse_input_argument, window_title_for_file_name, HELP_TEXT};
use dvs_studio::{event_loop_allows_any_thread, parse_args, AppConfig, AppError, RunMode};

/// A file that exists relative to the crate root, where tests run.
const EXISTING: &str = "src/lib.rs";

#[test]
fn parses_input_argument() {
    let config = parse_args(&["dvs-app", "--input", EXISTING]).expect("parse");
    assert_eq!(config.input(), EXISTING);
    assert_eq!(config.run_mode(), RunMode::Interactive);
}

#[test]
fn missing_input_is_rejected() {
    let err = parse_args(&["dvs-app"]).unwrap_err();
    assert!(matches!(err, AppError::Config(_)));
}

#[test]
fn unknown_argument_is_rejected() {
    let err = parse_args(&["dvs-app", "--input", EXISTING, "--loop"]).unwrap_err();
    assert!(matches!(err, AppError::Config(_)));
}

#[test]
fn missing_file_is_rejected() {
    let err = parse_args(&[
        "dvs-app",
        "--input",
        r"C:\no\such\file\definitely-missing.mp4",
    ])
    .unwrap_err();
    assert!(matches!(err, AppError::InvalidInput { .. }));
}

#[test]
fn smoke_test_uses_any_thread_event_loop() {
    assert!(event_loop_allows_any_thread(RunMode::SmokeTest {
        post_eof_resize: false,
    }));
    assert!(!event_loop_allows_any_thread(RunMode::Interactive));
}

#[test]
fn smoke_test_mode_is_distinct_from_interactive() {
    let config = AppConfig::smoke_test(EXISTING.to_string()).expect("smoke");
    assert_eq!(
        config.run_mode(),
        RunMode::SmokeTest {
            post_eof_resize: false,
        }
    );
    assert!(!config.smoke_post_eof_resize());
}

#[test]
fn smoke_test_with_post_eof_resize_flag() {
    let config = AppConfig::smoke_test_with_post_eof_resize(EXISTING.to_string()).expect("smoke");
    assert!(config.smoke_post_eof_resize());
}

#[test]
fn window_title_includes_application_name() {
    let config = AppConfig::interactive(EXISTING.to_string()).expect("config");
    assert!(config.window_title().contains("Do Vale Studio 4"));
}

#[test]
fn parse_errors_carry_exact_messages() {
    assert_eq!(
        parse_input_argument(&["dvs-app"]),
        Err(AppError::Config(
            "missing required argument: --input <video-path>".to_string()
        ))
    );
    assert_eq!(
        parse_input_argument(&["dvs-app", "--input"]),
        Err(AppError::Config("missing value for --input".to_string()))
    );
    assert_eq!(
        parse_input_argument(&["dvs-app", "--input="]),
        Err(AppError::Config("missing value for --input".to_string()))
    );
    assert_eq!(
        parse_input_argument(&["dvs-app", "--verbose"]),
        Err(AppError::Config("unknown argument: --verbose".to_string()))
    );
    assert_eq!(
        parse_input_argument(&["dvs-app", "-h"]),
        Err(AppError::Config(HELP_TEXT.to_string()))
    );
    assert!(HELP_TEXT.starts_with("Do Vale Studio 4"));
}

#[test]
fn later_input_arguments_win_and_equals_form_is_accepted() {
    assert_eq!(
        parse_input_argument(&["dvs-app", "--input", "a.mp4", "--input=b c.mp4"]),
        Ok("b c.mp4".to_string())
    );
    assert_eq!(
        parse_input_argument(&["dvs-app", "--input=x=y"]),
        Ok("x=y".to_string())
    );
    assert_eq!(
        parse_input_argument(&["dvs-app", "--input", "--help"]),
        Ok("--help".to_string())
    );
    assert_eq!(
        parse_input_argument(&["dvs-app", "--help", "--input", "a.mp4"]),
        Err(AppError::Config(HELP_TEXT.to_string()))
    );
}

#[test]
fn invalid_input_names_the_path() {
    assert_eq!(
        AppConfig::interactive("definitely/not/here.mp4".to_string()),
        Err(AppError::InvalidInput {
            path: "definitely/not/here.mp4".to_string()
        })
    );
    assert_eq!(
        AppConfig::validated("x.mp4".to_string(), RunMode::Interactive, false),
        Err(AppError::InvalidInput {
            path: "x.mp4".to_string()
        })
    );
    let ok = AppConfig::validated("x.mp4".to_string(), RunMode::Interactive, true).expect("ok");
    assert_eq!(ok.input(), "x.mp4");
}

#[test]
fn window_title_for_file_name_falls_back_to_video() {
    assert_eq!(
        window_title_for_file_name(&Some("clip.mp4".to_string())),
        "Do Vale Studio 4 — clip.mp4"
    );
    assert_eq!(window_title_for_file_name(&None), "Do Vale Studio 4 — video");
    let config = AppConfig::interactive(EXISTING.to_string()).expect("config");
    assert_eq!(config.window_title(), "Do Vale Studio 4 — lib.rs");
}
