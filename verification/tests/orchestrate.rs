use clt::Directive;
use clt::EngineHandle;
use clt::IoError;
use clt::Mode;
use clt::ParseError;
use clt::Plan;
use clt::Request;

fn toks(v: &[&str]) -> Vec<String> {
    v.iter().map(|s| s.to_string()).collect()
}

#[test]
fn registry_covers_exactly_the_valid_ranges() {
    for level in 1..=5u8 {
        assert_eq!(
            clt::try_lookup(Mode::Compress, level),
            Some(EngineHandle { mode: Mode::Compress, level })
        );
    }
    for level in 1..=4u8 {
        assert_eq!(
            clt::try_lookup(Mode::Decompress, level),
            Some(EngineHandle { mode: Mode::Decompress, level })
        );
    }
    assert_eq!(clt::try_lookup(Mode::Compress, 0), None);
    assert_eq!(clt::try_lookup(Mode::Compress, 6), None);
    assert_eq!(clt::try_lookup(Mode::Decompress, 0), None);
    assert_eq!(clt::try_lookup(Mode::Decompress, 5), None);
}

#[test]
fn lookup_returns_the_named_engine() {
    let e = clt::lookup(Mode::Compress, 2);
    assert_eq!(e, EngineHandle { mode: Mode::Compress, level: 2 });
}

#[test]
fn help_and_version_plans_touch_no_stream() {
    assert_eq!(clt::plan(Directive::Help), Plan::PrintHelp);
    assert_eq!(clt::plan(Directive::Version), Plan::PrintVersion);
}

#[test]
fn empty_args_plan_is_help() {
    let d = clt::interpret(&toks(&[]));
    assert_eq!(clt::plan(d), Plan::PrintHelp);
}

#[test]
fn failure_plan_reports_the_diagnostic() {
    let d = Directive::Fail(ParseError::InvalidCompressionLevel("6".to_string()));
    assert_eq!(
        clt::plan(d),
        Plan::Report("invalid compression level: 6".to_string())
    );
}

#[test]
fn valid_request_plan_transforms_through_the_registry() {
    let d = clt::interpret(&toks(&["-c", "-2", "input.txt", "output.txt"]));
    assert_eq!(
        clt::plan(d),
        Plan::Transform {
            engine: EngineHandle { mode: Mode::Compress, level: 2 },
            input: Some("input.txt".to_string()),
            output: Some("output.txt".to_string()),
        }
    );
}

#[test]
fn standard_streams_selected_when_no_paths_given() {
    let d = clt::interpret(&toks(&["-d", "-4"]));
    assert_eq!(
        clt::plan(d),
        Plan::Transform {
            engine: EngineHandle { mode: Mode::Decompress, level: 4 },
            input: None,
            output: None,
        }
    );
}

#[test]
fn out_of_range_request_has_no_engine() {
    // The ordering quirk leaves level 5 in a decompress request; no
    // decompression engine 5 exists.
    let d = clt::interpret(&toks(&["-5", "-d"]));
    assert_eq!(clt::plan(d), Plan::NoEngine);
}

#[test]
fn request_validity_follows_the_asymmetric_ranges() {
    let r = Request { mode: Mode::Compress, level: 5, input: None, output: None };
    assert!(r.is_valid());
    let r = Request { mode: Mode::Decompress, level: 5, input: None, output: None };
    assert!(!r.is_valid());
    let r = Request { mode: Mode::Decompress, level: 4, input: None, output: None };
    assert!(r.is_valid());
    let r = Request { mode: Mode::Compress, level: 0, input: None, output: None };
    assert!(!r.is_valid());
}

#[test]
fn io_error_messages_carry_the_cause() {
    let e = IoError::OpenFailed("in.txt".to_string(), "no such file".to_string());
    assert_eq!(e.message(), "failed to open file: no such file");
    let e = IoError::ReadFailed("broken pipe".to_string());
    assert_eq!(e.message(), "failed to read input: broken pipe");
    let e = IoError::CreateFailed("out.txt".to_string(), "permission denied".to_string());
    assert_eq!(e.message(), "failed to create file: permission denied");
    let e = IoError::WriteFailed("disk full".to_string());
    assert_eq!(e.message(), "failed to write output: disk full");
}

#[test]
fn help_text_matches_the_usage_lines() {
    let mut expected = String::new();
    expected.push_str("clt: compress lossy text\n");
    expected.push_str("usage: clt [options] [file] [output]\n");
    expected.push_str("if no file is specified, stdin is used\n");
    expected.push_str("if no output is specified, stdout is used\n");
    expected.push_str("options:\n");
    expected.push_str("  -h, --help: show this help message\n");
    expected.push_str("  -v, --version: show version\n");
    expected.push_str("  -c, --compress: compress file (default)\n");
    expected.push_str("  -d, --decompress: decompress file\n");
    expected.push_str("  -[1-5]: compression level (default: 3)\n");
    expected.push_str("  -[1-4]: decompression level (default: 3)\n");
    assert_eq!(clt::help_text(), expected);
}

#[test]
fn version_text_names_the_tool() {
    assert_eq!(clt::version_text(), "clt 0.1.0");
}
