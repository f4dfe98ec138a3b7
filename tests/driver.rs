use tw2s::cli::{get_args, ArgError, Request};
use tw2s::error::RunError;
use tw2s::guard::{check_input, check_output, InputProbe, OutputProbe};
use tw2s::naming::{derived_file_name, plan_output, strip_cht_marker, InputName, OutputPlan, StemText};
use tw2s::session::{text_to_convert, text_to_write, Action, Event, Mode, Session};

fn argv(items: &[&str]) -> Vec<String> {
    items.iter().map(|s| s.to_string()).collect()
}

fn run_request(items: &[&str]) -> (bool, Option<String>, Option<String>) {
    match get_args(&argv(items)) {
        Ok(Request::Run(a)) => (a.force, a.tw_path, a.s_path),
        _ => panic!("expected a run request"),
    }
}

#[test]
fn no_arguments_read_standard_input() {
    assert_eq!(run_request(&[]), (false, None, None));
}

#[test]
fn force_and_two_paths() {
    assert_eq!(
        run_request(&["-f", "cht.txt", "chs.txt"]),
        (true, Some("cht.txt".to_string()), Some("chs.txt".to_string()))
    );
    assert_eq!(
        run_request(&["cht.txt", "--force"]),
        (true, Some("cht.txt".to_string()), None)
    );
}

#[test]
fn double_dash_makes_paths() {
    assert_eq!(
        run_request(&["--", "-f", "-x"]),
        (false, Some("-f".to_string()), Some("-x".to_string()))
    );
}

#[test]
fn single_dash_is_a_path() {
    assert_eq!(run_request(&["-"]), (false, Some("-".to_string()), None));
}

#[test]
fn help_and_version() {
    assert!(matches!(get_args(&argv(&["a.txt", "-h"])), Ok(Request::Help)));
    assert!(matches!(get_args(&argv(&["--help"])), Ok(Request::Help)));
    assert!(matches!(get_args(&argv(&["-V"])), Ok(Request::Version)));
    assert!(matches!(get_args(&argv(&["--version"])), Ok(Request::Version)));
}

#[test]
fn unknown_option_is_refused() {
    match get_args(&argv(&["-x", "-h"])) {
        Err(ArgError::UnknownOption(a)) => assert_eq!(a, "-x"),
        _ => panic!("expected an unknown option"),
    }
}

#[test]
fn third_path_is_refused() {
    match get_args(&argv(&["a", "b", "c"])) {
        Err(ArgError::UnexpectedArgument(a)) => assert_eq!(a, "c"),
        _ => panic!("expected an unexpected argument"),
    }
}

#[test]
fn directory_input_is_rejected() {
    match check_input("docs", InputProbe::Directory) {
        Err(RunError::InputIsDirectory(p)) => assert_eq!(p, "docs"),
        _ => panic!("expected InputIsDirectory"),
    }
}

#[test]
fn input_failures_and_success() {
    match check_input("gone.txt", InputProbe::Missing) {
        Err(RunError::InputNotFound(p)) => assert_eq!(p, "gone.txt"),
        _ => panic!("expected InputNotFound"),
    }
    match check_input("locked.txt", InputProbe::OpenFailed("permission denied".to_string())) {
        Err(RunError::InputOpenFailed(p, c)) => {
            assert_eq!(p, "locked.txt");
            assert_eq!(c, "permission denied");
        },
        _ => panic!("expected InputOpenFailed"),
    }
    assert!(check_input("a.txt", InputProbe::Opened).is_ok());
}

#[test]
fn existing_output_needs_force() {
    match check_output("out.txt", OutputProbe::File, false) {
        Err(RunError::OutputAlreadyExists(p)) => assert_eq!(p, "out.txt"),
        _ => panic!("expected OutputAlreadyExists"),
    }
    assert!(check_output("out.txt", OutputProbe::File, true).is_ok());
}

#[test]
fn output_directory_is_refused_even_with_force() {
    match check_output("out", OutputProbe::Directory, true) {
        Err(RunError::OutputIsDirectory(p)) => assert_eq!(p, "out"),
        _ => panic!("expected OutputIsDirectory"),
    }
}

#[test]
fn missing_output_passes_and_failed_query_is_io() {
    assert!(check_output("new.txt", OutputProbe::Missing, false).is_ok());
    match check_output("x.txt", OutputProbe::Failed("permission denied".to_string()), true) {
        Err(RunError::IoFailure(c)) => assert_eq!(c, "permission denied"),
        _ => panic!("expected IoFailure"),
    }
}

fn name(stem: &str, ext: Option<&str>) -> InputName {
    InputName { stem: StemText::Text(stem.to_string()), extension: ext.map(|e| e.to_string()) }
}

#[test]
fn derived_name_strips_cht_marker() {
    match plan_output("a.cht.txt", name("a.cht", Some("txt")), None) {
        Ok(OutputPlan::Derive(stem)) => {
            assert_eq!(stem, "a");
            assert_eq!(derived_file_name(&stem, &Some("txt".to_string())), "a.chs.txt");
        },
        _ => panic!("expected a derived name"),
    }
}

#[test]
fn derived_name_of_converted_stem() {
    match plan_output("dir/測試.txt", name("測試", Some("txt")), None) {
        Ok(OutputPlan::Derive(stem)) => assert_eq!(stem, "測試"),
        _ => panic!("expected a derived name"),
    }
    assert_eq!(derived_file_name("测试", &Some("txt".to_string())), "测试.chs.txt");
}

#[test]
fn derived_name_without_extension() {
    assert_eq!(derived_file_name("readme", &None), "readme.chs");
    assert_eq!(derived_file_name("", &Some("md".to_string())), ".chs.md");
}

#[test]
fn absent_stem_derives_empty_name() {
    let n = InputName { stem: StemText::Absent, extension: None };
    match plan_output("/", n, None) {
        Ok(OutputPlan::Derive(stem)) => assert_eq!(stem, ""),
        _ => panic!("expected a derived name"),
    }
}

#[test]
fn explicit_output_is_verbatim() {
    match plan_output("a.cht.txt", name("a.cht", Some("txt")), Some("繁體.txt".to_string())) {
        Ok(OutputPlan::Explicit(p)) => assert_eq!(p, "繁體.txt"),
        _ => panic!("expected the explicit path"),
    }
}

#[test]
fn stem_that_is_not_text_is_unsupported() {
    let n = InputName { stem: StemText::NotText, extension: Some("txt".to_string()) };
    match plan_output("bad.txt", n, None) {
        Err(RunError::UnsupportedPath(p)) => assert_eq!(p, "bad.txt"),
        _ => panic!("expected UnsupportedPath"),
    }
}

#[test]
fn cht_marker_only_at_the_end() {
    assert_eq!(strip_cht_marker("a.cht"), "a");
    assert_eq!(strip_cht_marker("a.cht.b"), "a.cht.b");
    assert_eq!(strip_cht_marker(".cht"), "");
    assert_eq!(strip_cht_marker("cht"), "cht");
}

#[test]
fn stream_text_loses_and_regains_line_feed() {
    assert_eq!(text_to_convert(Mode::Stream, "測試\n".to_string()), "測試");
    assert_eq!(text_to_convert(Mode::Stream, "測試".to_string()), "測試");
    assert_eq!(text_to_convert(Mode::File, "測試\n".to_string()), "測試\n");
    assert_eq!(text_to_write(Mode::Stream, "测试".to_string()), "测试\n");
    assert_eq!(text_to_write(Mode::File, "测试\n".to_string()), "测试\n");
}

/// Drives a session as the program does, with `convert` standing in for the
/// conversion engine and `fail_write_at` making that write fail.
fn drive(
    mode: Mode,
    input: &[&str],
    convert: fn(&str) -> String,
    fail_write_at: Option<usize>,
) -> (Vec<String>, bool, Result<(), RunError>) {
    let (mut session, mut action) = Session::start(mode);
    let mut written = Vec::new();
    let mut deleted = false;
    let mut next_line = 0;
    loop {
        let event = match action {
            Action::ReadLine => {
                if next_line < input.len() {
                    next_line += 1;
                    Event::LineRead(input[next_line - 1].to_string())
                } else {
                    Event::EndOfInput
                }
            },
            Action::Convert(t) => Event::Converted(convert(&t)),
            Action::Write(t) => {
                if fail_write_at == Some(written.len()) {
                    Event::WriteFailed("disk full".to_string())
                } else {
                    written.push(t);
                    Event::Written
                }
            },
            Action::DeleteOutput => {
                deleted = true;
                Event::CleanupFinished
            },
            Action::Finish => return (written, deleted, Ok(())),
            Action::Fail(e) => return (written, deleted, Err(e)),
        };
        assert!(session.accepts(&event));
        let (s, a) = session.step(event);
        session = s;
        action = a;
    }
}

fn engine(t: &str) -> String {
    t.replace('測', "测").replace('試', "试").replace('體', "体")
}

#[test]
fn file_mode_keeps_every_line() {
    let input = ["測試\n", "字串\r\n", "\n", "繁體"];
    let (written, deleted, result) = drive(Mode::File, &input, engine, None);
    assert!(result.is_ok());
    assert!(!deleted);
    assert_eq!(written, vec!["测试\n", "字串\r\n", "\n", "繁体"]);
    assert_eq!(written.concat().lines().count(), input.concat().lines().count());
}

#[test]
fn file_mode_empty_input_writes_nothing() {
    let (written, deleted, result) = drive(Mode::File, &[], engine, None);
    assert!(result.is_ok());
    assert!(!deleted);
    assert!(written.is_empty());
}

#[test]
fn write_failure_deletes_output_and_keeps_cause() {
    let input = ["一\n", "二\n", "三\n"];
    let (written, deleted, result) = drive(Mode::File, &input, engine, Some(2));
    assert_eq!(written.len(), 2);
    assert!(deleted);
    match result {
        Err(RunError::IoFailure(c)) => assert_eq!(c, "disk full"),
        _ => panic!("expected the write failure"),
    }
}

#[test]
fn read_failure_in_file_mode_deletes_output() {
    let (s, _) = Session::start(Mode::File);
    let (s, a) = s.step(Event::ReadFailed("bad sector".to_string()));
    assert!(matches!(a, Action::DeleteOutput));
    let (_, a) = s.step(Event::CleanupFinished);
    match a {
        Action::Fail(RunError::IoFailure(c)) => assert_eq!(c, "bad sector"),
        _ => panic!("expected the read failure"),
    }
}

#[test]
fn read_failure_in_stream_mode_fails_at_once() {
    let (s, _) = Session::start(Mode::Stream);
    let (s, a) = s.step(Event::ReadFailed("closed".to_string()));
    match a {
        Action::Fail(RunError::IoFailure(c)) => assert_eq!(c, "closed"),
        _ => panic!("expected the read failure"),
    }
    assert!(!s.accepts(&Event::CleanupFinished));
}

#[test]
fn stream_mode_round_trip() {
    let (written, deleted, result) = drive(Mode::Stream, &["測試\n", "字串\n"], engine, None);
    assert!(result.is_ok());
    assert!(!deleted);
    assert_eq!(written, vec!["测试\n", "字串\n"]);
}

#[test]
fn stream_mode_last_line_without_terminator() {
    let (written, _, result) = drive(Mode::Stream, &["測試\n", "繁體"], engine, None);
    assert!(result.is_ok());
    assert_eq!(written, vec!["测试\n", "繁体\n"]);
}

#[test]
fn session_refuses_out_of_order_events() {
    let (s, _) = Session::start(Mode::File);
    assert!(!s.accepts(&Event::Written));
    assert!(!s.accepts(&Event::Converted("x".to_string())));
    assert!(s.accepts(&Event::EndOfInput));
}

use tw2s::driver::{FileRun, RunAction, RunEvent};

fn start_run(input: &str, stem: &str, ext: Option<&str>, explicit: Option<&str>, force: bool) -> FileRun {
    let (run, action) = FileRun::start(
        input.to_string(),
        StemText::Text(stem.to_string()),
        ext.map(|e| e.to_string()),
        explicit.map(|e| e.to_string()),
        force,
    );
    assert!(matches!(action, RunAction::ProbeInput));
    run
}

#[test]
fn file_run_derives_name_and_creates_output() {
    let run = start_run("docs/a.cht.txt", "a.cht", Some("txt"), None, false);
    let (run, action) = run.step(RunEvent::InputProbed(InputProbe::Opened));
    match action {
        RunAction::ConvertStem(s) => assert_eq!(s, "a"),
        _ => panic!("expected the stem to convert"),
    }
    let (run, action) = run.step(RunEvent::StemConverted("a".to_string()));
    match action {
        RunAction::PlaceOutput(n) => assert_eq!(n, "a.chs.txt"),
        _ => panic!("expected a file name to place"),
    }
    let (run, action) = run.step(RunEvent::OutputPlaced("docs/a.chs.txt".to_string()));
    match action {
        RunAction::ProbeOutput(p) => assert_eq!(p, "docs/a.chs.txt"),
        _ => panic!("expected the output to be probed"),
    }
    let (run, action) = run.step(RunEvent::OutputProbed(OutputProbe::Missing));
    match action {
        RunAction::CreateOutput(p) => assert_eq!(p, "docs/a.chs.txt"),
        _ => panic!("expected the output to be created"),
    }
    let (_, action) = run.step(RunEvent::OutputCreated);
    assert!(matches!(action, RunAction::ConvertLines));
}

#[test]
fn file_run_rejects_directory_input_first() {
    let run = start_run("docs", "docs", None, Some("out.txt"), true);
    let (run, action) = run.step(RunEvent::InputProbed(InputProbe::Directory));
    match action {
        RunAction::Fail(RunError::InputIsDirectory(p)) => assert_eq!(p, "docs"),
        _ => panic!("expected InputIsDirectory"),
    }
    assert!(!run.accepts(&RunEvent::OutputCreated));
}

#[test]
fn file_run_guards_existing_output() {
    let run = start_run("in.txt", "in", Some("txt"), Some("out.txt"), false);
    let (run, action) = run.step(RunEvent::InputProbed(InputProbe::Opened));
    match action {
        RunAction::ProbeOutput(p) => assert_eq!(p, "out.txt"),
        _ => panic!("expected the explicit output to be probed"),
    }
    let (_, action) = run.step(RunEvent::OutputProbed(OutputProbe::File));
    match action {
        RunAction::Fail(RunError::OutputAlreadyExists(p)) => assert_eq!(p, "out.txt"),
        _ => panic!("expected OutputAlreadyExists"),
    }

    let run = start_run("in.txt", "in", Some("txt"), Some("out.txt"), true);
    let (run, _) = run.step(RunEvent::InputProbed(InputProbe::Opened));
    let (_, action) = run.step(RunEvent::OutputProbed(OutputProbe::File));
    match action {
        RunAction::CreateOutput(p) => assert_eq!(p, "out.txt"),
        _ => panic!("expected the output to be overwritten"),
    }
}

#[test]
fn file_run_reports_create_failure() {
    let run = start_run("in.txt", "in", Some("txt"), Some("out.txt"), false);
    let (run, _) = run.step(RunEvent::InputProbed(InputProbe::Opened));
    let (run, _) = run.step(RunEvent::OutputProbed(OutputProbe::Missing));
    let (_, action) = run.step(RunEvent::CreateFailed("read-only".to_string()));
    match action {
        RunAction::Fail(RunError::IoFailure(c)) => assert_eq!(c, "read-only"),
        _ => panic!("expected IoFailure"),
    }
}

#[test]
fn file_run_unsupported_stem() {
    let (run, _) = FileRun::start("x.txt".to_string(), StemText::NotText, Some("txt".to_string()), None, false);
    let (_, action) = run.step(RunEvent::InputProbed(InputProbe::Opened));
    match action {
        RunAction::Fail(RunError::UnsupportedPath(p)) => assert_eq!(p, "x.txt"),
        _ => panic!("expected UnsupportedPath"),
    }
}
