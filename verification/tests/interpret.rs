use clt::Directive;
use clt::Mode;
use clt::ParseError;
use clt::Request;

fn toks(v: &[&str]) -> Vec<String> {
    v.iter().map(|s| s.to_string()).collect()
}

#[test]
fn empty_args_yield_help() {
    assert_eq!(clt::interpret(&toks(&[])), Directive::Help);
}

#[test]
fn single_file_uses_defaults() {
    let d = clt::interpret(&toks(&["file.txt"]));
    assert_eq!(
        d,
        Directive::Run(Request {
            mode: Mode::Compress,
            level: 3,
            input: Some("file.txt".to_string()),
            output: None,
        })
    );
}

#[test]
fn help_short_circuits_everything_after_it() {
    assert_eq!(clt::interpret(&toks(&["-h", "-d", "x"])), Directive::Help);
    assert_eq!(clt::interpret(&toks(&["--help"])), Directive::Help);
    assert_eq!(clt::interpret(&toks(&["a", "b", "-h", "c"])), Directive::Help);
}

#[test]
fn version_short_circuits() {
    assert_eq!(clt::interpret(&toks(&["-v", "x", "y", "z"])), Directive::Version);
    assert_eq!(clt::interpret(&toks(&["--version"])), Directive::Version);
}

#[test]
fn compress_level_zero_rejected() {
    let d = clt::interpret(&toks(&["-0"]));
    assert_eq!(
        d,
        Directive::Fail(ParseError::InvalidCompressionLevel("0".to_string()))
    );
    if let Directive::Fail(e) = d {
        assert_eq!(e.message(), "invalid compression level: 0");
    }
}

#[test]
fn compress_level_six_rejected() {
    let d = clt::interpret(&toks(&["-6"]));
    assert_eq!(
        d,
        Directive::Fail(ParseError::InvalidCompressionLevel("6".to_string()))
    );
}

#[test]
fn decompress_level_zero_rejected() {
    let d = clt::interpret(&toks(&["-d", "-0"]));
    assert_eq!(
        d,
        Directive::Fail(ParseError::InvalidDecompressionLevel("0".to_string()))
    );
    if let Directive::Fail(e) = d {
        assert_eq!(e.message(), "invalid decompression level: 0");
    }
}

#[test]
fn decompress_level_five_rejected() {
    let d = clt::interpret(&toks(&["-d", "-5"]));
    assert_eq!(
        d,
        Directive::Fail(ParseError::InvalidDecompressionLevel("5".to_string()))
    );
}

#[test]
fn mode_flags_last_writer_wins() {
    let d = clt::interpret(&toks(&["-d", "-c", "-d"]));
    assert_eq!(
        d,
        Directive::Run(Request { mode: Mode::Decompress, level: 3, input: None, output: None })
    );
}

#[test]
fn long_flags_select_modes() {
    let d = clt::interpret(&toks(&["--decompress"]));
    assert_eq!(
        d,
        Directive::Run(Request { mode: Mode::Decompress, level: 3, input: None, output: None })
    );
    let d = clt::interpret(&toks(&["--decompress", "--compress"]));
    assert_eq!(
        d,
        Directive::Run(Request { mode: Mode::Compress, level: 3, input: None, output: None })
    );
}

#[test]
fn level_validated_against_mode_at_parse_time() {
    // -3 is checked against compress bounds, then the mode changes.
    let d = clt::interpret(&toks(&["-3", "-d"]));
    assert_eq!(
        d,
        Directive::Run(Request { mode: Mode::Decompress, level: 3, input: None, output: None })
    );
}

#[test]
fn level_five_survives_into_decompress_mode() {
    // The documented ordering quirk: 5 is valid when set, the final mode
    // accepts at most 4, and the value is not re-validated.
    let d = clt::interpret(&toks(&["-5", "-d", "in.txt"]));
    assert_eq!(
        d,
        Directive::Run(Request {
            mode: Mode::Decompress,
            level: 5,
            input: Some("in.txt".to_string()),
            output: None,
        })
    );
}

#[test]
fn three_positional_tokens_are_too_many() {
    let d = clt::interpret(&toks(&["a.txt", "b.txt", "c.txt"]));
    assert_eq!(d, Directive::Fail(ParseError::TooManyArguments));
    if let Directive::Fail(e) = d {
        assert_eq!(e.message(), "too many arguments");
    }
}

#[test]
fn unknown_option_rejected() {
    let d = clt::interpret(&toks(&["-x"]));
    assert_eq!(d, Directive::Fail(ParseError::InvalidOption("-x".to_string())));
    if let Directive::Fail(e) = d {
        assert_eq!(e.message(), "invalid option: -x");
    }
}

#[test]
fn lone_dash_rejected() {
    let d = clt::interpret(&toks(&["-"]));
    assert_eq!(d, Directive::Fail(ParseError::InvalidOption("-".to_string())));
}

#[test]
fn huge_level_is_a_range_rejection_not_a_parse_failure() {
    let d = clt::interpret(&toks(&["-999"]));
    assert_eq!(
        d,
        Directive::Fail(ParseError::InvalidCompressionLevel("999".to_string()))
    );
    if let Directive::Fail(e) = d {
        assert_eq!(e.message(), "invalid compression level: 999");
    }
}

#[test]
fn leading_zeros_canonicalized() {
    // In range once canonicalized.
    let d = clt::interpret(&toks(&["-03"]));
    assert_eq!(
        d,
        Directive::Run(Request { mode: Mode::Compress, level: 3, input: None, output: None })
    );
    // Out of range, echoed canonically.
    let d = clt::interpret(&toks(&["-007"]));
    assert_eq!(
        d,
        Directive::Fail(ParseError::InvalidCompressionLevel("7".to_string()))
    );
}

#[test]
fn plus_sign_accepted_in_level() {
    let d = clt::interpret(&toks(&["-+2"]));
    assert_eq!(
        d,
        Directive::Run(Request { mode: Mode::Compress, level: 2, input: None, output: None })
    );
}

#[test]
fn non_numeric_remainder_rejected() {
    let d = clt::interpret(&toks(&["-2x"]));
    assert_eq!(d, Directive::Fail(ParseError::InvalidOption("-2x".to_string())));
}

#[test]
fn compress_invocation_with_both_paths() {
    let d = clt::interpret(&toks(&["-c", "-2", "input.txt", "output.txt"]));
    assert_eq!(
        d,
        Directive::Run(Request {
            mode: Mode::Compress,
            level: 2,
            input: Some("input.txt".to_string()),
            output: Some("output.txt".to_string()),
        })
    );
}
