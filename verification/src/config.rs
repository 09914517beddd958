//! Command-line parsing and application configuration.

use vstd::prelude::*;
use vstd::string::{StrSliceExecFns, StringExecFns};

use crate::app_error::{AppError, AppErrorV};
use crate::text::{str_eq, str_starts_with};

verus! {

/// Usage text returned (as a configuration error) for `--help` and `-h`.
pub const HELP_TEXT: &'static str = "Do Vale Studio 4 — production video application\n\nUsage:\n  dvs-app --input <video-path>\n\nOptions:\n  --input <path>  Required input video file\n  --help          Show this help message\n";

/// How the application behaves after startup.
#[derive(Debug, Clone, Copy, PartialEq, Eq, Structural)]
pub enum RunMode {
    /// Wait for SPACE before PTS playback and hold the last frame at EOF.
    Interactive,
    /// Start playback immediately; optional post-EOF resize validation before exit.
    SmokeTest {
        /// Resize and redraw twice after EOF before shutting down.
        post_eof_resize: bool,
    },
}

/// Abstract value of an [`AppConfig`].
pub struct AppConfigV {
    pub input: Seq<char>,
    pub run_mode: RunMode,
}

/// Validated production application configuration.
#[derive(Debug, Clone, PartialEq, Eq)]
pub struct AppConfig {
    input: String,
    run_mode: RunMode,
}

impl View for AppConfig {
    type V = AppConfigV;

    closed spec fn view(&self) -> AppConfigV {
        AppConfigV { input: self.input@, run_mode: self.run_mode }
    }
}

/// Returns whether the event loop may be created off the main thread.
pub fn event_loop_allows_any_thread(run_mode: RunMode) -> (r: bool)
    ensures
        r == (run_mode is SmokeTest),
{
    match run_mode {
        RunMode::SmokeTest { .. } => true,
        RunMode::Interactive => false,
    }
}

/// Asks the file system whether `path` names an existing regular file
/// (`std::path::Path::is_file`). The answer depends on the disk at the time of
/// the call, so nothing is stated about it.
#[verifier::external_body]
fn input_is_regular_file(path: &str) -> bool {
    std::path::Path::new(path).is_file()
}

/// The part of `p` after its last `/` (all of `p` when it has none).
pub open spec fn last_segment(p: Seq<char>) -> Seq<char>
    decreases p.len(),
{
    if p.len() == 0 {
        p
    } else if p.last() == '/' {
        Seq::empty()
    } else {
        last_segment(p.drop_last()).push(p.last())
    }
}

/// A relative path that every platform splits the same way: it does not
/// start with `/`, holds no `\\` and no `:` (so no drive or share prefix and
/// no second kind of separator), and its part after the last `/` is a plain
/// name (not empty, not `.`, not `..`).
pub open spec fn portable_path(p: Seq<char>) -> bool {
    &&& p.len() > 0
    &&& p[0] != '/'
    &&& forall|i: int| 0 <= i < p.len() ==> p[i] != '\\' && p[i] != ':'
    &&& last_segment(p).len() > 0
    &&& last_segment(p) != "."@
    &&& last_segment(p) != ".."@
}

/// Final component of `path` as UTF-8 (`std::path::Path::file_name`).
///
/// `/` separates components on every platform and a path that ends in a
/// normal component has that component as its file name, so for a portable
/// path the result is the part after the last `/`. How other paths split
/// (backslashes, drive and share prefixes, trailing `.` or `..`) depends on
/// the platform, and nothing is stated about them.
#[verifier::external_body]
pub(crate) fn input_file_name(path: &str) -> (r: Option<String>)
    ensures
        portable_path(path@) ==> r is Some && r.unwrap()@ == last_segment(path@),
{
    std::path::Path::new(path).file_name().and_then(|name| name.to_str()).map(|name| name.to_owned())
}

/// Prefix of every window title.
pub open spec fn title_prefix() -> Seq<char> {
    "Do Vale Studio 4 — "@
}

/// The window title for a given final path component.
pub open spec fn title_for(file_name: Option<Seq<char>>) -> Seq<char> {
    title_prefix() + match file_name {
        Some(name) => name,
        None => "video"@,
    }
}

/// Builds the window title from the final component of the input path,
/// falling back to `video` when there is none.
pub fn window_title_for_file_name(file_name: &Option<String>) -> (r: String)
    ensures
        r@ == title_for(
            match file_name {
                Some(name) => Some(name@),
                None => None,
            },
        ),
{
    let mut title = "Do Vale Studio 4 — ".to_owned();
    match file_name {
        Some(name) => title.append(name.as_str()),
        None => title.append("video"),
    }
    title
}

impl AppConfig {
    /// Builds a configuration once the file system has answered whether `input`
    /// is a regular file.
    pub fn validated(input: String, run_mode: RunMode, input_is_file: bool) -> (r: Result<
        AppConfig,
        AppError,
    >)
        ensures
            input_is_file ==> (r matches Ok(c) && c@ == (AppConfigV { input: input@, run_mode })),
            !input_is_file ==> (r matches Err(e) && e@ == (AppErrorV::InvalidInput {
                path: input@,
            })),
    {
        if !input_is_file {
            return Err(AppError::InvalidInput { path: input });
        }
        Ok(AppConfig { input, run_mode })
    }

    fn new(input: String, run_mode: RunMode) -> (r: Result<AppConfig, AppError>)
        ensures
            r matches Ok(c) ==> c@ == (AppConfigV { input: input@, run_mode }),
            r matches Err(e) ==> e@ == (AppErrorV::InvalidInput { path: input@ }),
    {
        let is_file = input_is_regular_file(input.as_str());
        AppConfig::validated(input, run_mode, is_file)
    }

    /// Creates a validated configuration for interactive playback.
    pub fn interactive(input: String) -> (r: Result<AppConfig, AppError>)
        ensures
            r matches Ok(c) ==> c@ == (AppConfigV { input: input@, run_mode: RunMode::Interactive }),
            r matches Err(e) ==> e@ == (AppErrorV::InvalidInput { path: input@ }),
    {
        AppConfig::new(input, RunMode::Interactive)
    }

    /// Creates a validated configuration for automated smoke testing.
    pub fn smoke_test(input: String) -> (r: Result<AppConfig, AppError>)
        ensures
            r matches Ok(c) ==> c@ == (AppConfigV {
                input: input@,
                run_mode: RunMode::SmokeTest { post_eof_resize: false },
            }),
            r matches Err(e) ==> e@ == (AppErrorV::InvalidInput { path: input@ }),
    {
        AppConfig::new(input, RunMode::SmokeTest { post_eof_resize: false })
    }

    /// Creates a smoke-test configuration that validates post-EOF resize redraws.
    pub fn smoke_test_with_post_eof_resize(input: String) -> (r: Result<AppConfig, AppError>)
        ensures
            r matches Ok(c) ==> c@ == (AppConfigV {
                input: input@,
                run_mode: RunMode::SmokeTest { post_eof_resize: true },
            }),
            r matches Err(e) ==> e@ == (AppErrorV::InvalidInput { path: input@ }),
    {
        AppConfig::new(input, RunMode::SmokeTest { post_eof_resize: true })
    }

    /// Returns whether the smoke test should validate post-EOF resize redraws.
    pub fn smoke_post_eof_resize(&self) -> (r: bool)
        ensures
            r == (self@.run_mode == RunMode::SmokeTest { post_eof_resize: true }),
    {
        match self.run_mode {
            RunMode::SmokeTest { post_eof_resize } => post_eof_resize,
            RunMode::Interactive => false,
        }
    }

    /// Returns the validated input video path.
    pub fn input(&self) -> (r: &str)
        ensures
            r@ == self@.input,
    {
        self.input.as_str()
    }

    /// Returns the configured run mode.
    pub fn run_mode(&self) -> (r: RunMode)
        ensures
            r == self@.run_mode,
    {
        self.run_mode
    }

    /// Returns a window title with the application name and the input file
    /// name, or `video` when the path has no file name.
    pub fn window_title(&self) -> (r: String)
        ensures
            title_prefix().is_prefix_of(r@),
            exists|n: Option<Seq<char>>| r@ == #[trigger] title_for(n),
            portable_path(self@.input) ==> r@ == title_for(Some(last_segment(self@.input))),
    {
        let name = input_file_name(self.input.as_str());
        let title = window_title_for_file_name(&name);
        let ghost n = match name {
            Some(x) => Some(x@),
            None => None,
        };
        assert(title@ == title_for(n));
        assert(title_prefix().is_prefix_of(title@)) by {
            assert(title_prefix() =~= title@.subrange(0, title_prefix().len() as int));
        }
        title
    }
}

/// The views of a slice of arguments.
pub open spec fn arg_views(args: Seq<&str>) -> Seq<Seq<char>> {
    args.map_values(|a: &str| a@)
}

pub open spec fn missing_value_message() -> Seq<char> {
    "missing value for --input"@
}

pub open spec fn missing_input_message() -> Seq<char> {
    "missing required argument: --input <video-path>"@
}

/// Scans `args` from index `i`, with `input` the last input path seen so far:
/// the input path after the last argument, or the first error met.
pub open spec fn scan_args(args: Seq<Seq<char>>, i: int, input: Option<Seq<char>>) -> Result<
    Option<Seq<char>>,
    AppErrorV,
>
    decreases args.len() - i,
{
    if i < 0 || i >= args.len() {
        Ok(input)
    } else {
        let a = args[i];
        if a == "--help"@ || a == "-h"@ {
            Err(AppErrorV::Config(HELP_TEXT@))
        } else if a == "--input"@ {
            if i + 1 < args.len() {
                scan_args(args, i + 2, Some(args[i + 1]))
            } else {
                Err(AppErrorV::Config(missing_value_message()))
            }
        } else if "--input="@.is_prefix_of(a) {
            if a.len() == "--input="@.len() {
                Err(AppErrorV::Config(missing_value_message()))
            } else {
                scan_args(args, i + 1, Some(a.subrange("--input="@.len() as int, a.len() as int)))
            }
        } else {
            Err(AppErrorV::Config("unknown argument: "@ + a))
        }
    }
}

/// The input path that `args` (program name first) select, or the error.
pub open spec fn parsed_input(args: Seq<Seq<char>>) -> Result<Seq<char>, AppErrorV> {
    match scan_args(args, 1, None) {
        Err(e) => Err(e),
        Ok(None) => Err(AppErrorV::Config(missing_input_message())),
        Ok(Some(path)) => Ok(path),
    }
}

pub open spec fn opt_view(o: Option<String>) -> Option<Seq<char>> {
    match o {
        Some(s) => Some(s@),
        None => None,
    }
}

/// Parses the arguments (program name first) into the selected input path.
pub fn parse_input_argument(args: &[&str]) -> (r: Result<String, AppError>)
    ensures
        match parsed_input(arg_views(args@)) {
            Ok(path) => r matches Ok(s) && s@ == path,
            Err(e) => r matches Err(x) && x@ == e,
        },
{
    let ghost v = arg_views(args@);
    let mut input: Option<String> = None;
    let mut i: usize = 1;
    while i < args.len()
        invariant
            v == arg_views(args@),
            1 <= i,
            scan_args(v, i as int, opt_view(input)) == scan_args(v, 1, None),
        decreases args.len() - i,
    {
        let a: &str = args[i];
        assert(v[i as int] == a@);
        if str_eq(a, "--help") || str_eq(a, "-h") {
            return Err(AppError::Config(HELP_TEXT.to_owned()));
        }
        if str_eq(a, "--input") {
            if i + 1 < args.len() {
                let value: &str = args[i + 1];
                assert(v[i + 1] == value@);
                input = Some(value.to_owned());
                i = i + 2;
            } else {
                return Err(AppError::Config("missing value for --input".to_owned()));
            }
        } else if str_starts_with(a, "--input=") {
            proof {
                reveal_strlit("--input=");
            }
            let n = a.unicode_len();
            if n == 8 {
                return Err(AppError::Config("missing value for --input".to_owned()));
            }
            let value = a.substring_char(8, n);
            input = Some(value.to_owned());
            i = i + 1;
        } else {
            let mut message = "unknown argument: ".to_owned();
            message.append(a);
            return Err(AppError::Config(message));
        }
    }
    match input {
        Some(path) => Ok(path),
        None => Err(AppError::Config("missing required argument: --input <video-path>".to_owned())),
    }
}

/// Parses command-line arguments (program name first) into an [`AppConfig`]
/// for interactive playback.
pub fn parse_args(args: &[&str]) -> (r: Result<AppConfig, AppError>)
    ensures
        match parsed_input(arg_views(args@)) {
            Err(e) => r matches Err(x) && x@ == e,
            Ok(path) => (r matches Ok(c) && c@ == (AppConfigV {
                input: path,
                run_mode: RunMode::Interactive,
            })) || (r matches Err(x) && x@ == (AppErrorV::InvalidInput { path })),
        },
{
    let input = parse_input_argument(args)?;
    AppConfig::interactive(input)
}

} // verus!
