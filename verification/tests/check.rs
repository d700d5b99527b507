use nub_cook::check::{classify_check, read_check, read_check_line, CheckLine, CheckReport, Gate};
use nub_cook::compile::{read_version_memo, version_text};
use nub_cook::failure::{fail, indent, CookFailure, RawPerryOutput};
use nub_cook::outside::{Field, Member};
use nub_cook::process::PerryStep;
use nub_cook::verify::describe_stdout_diff;

fn member(key: &str, value: Field<String>) -> Member<String> {
    Member { key: key.to_string(), value }
}

fn words(s: &str) -> Field<String> {
    Field::Text(s.to_string())
}

#[test]
fn a_summary_is_read_from_its_members() {
    let members = vec![
        member("success", Field::Flag(true)),
        member("compilation_guaranteed", Field::Flag(false)),
        member("files_checked", Field::Number(Some(3))),
        member("type", words("summary")),
        member("message", words("ignored")),
    ];
    assert!(matches!(
        read_check_line(&members),
        CheckLine::Summary { compilable: Some(false), files: Some(3) }
    ));
    let members = vec![
        member("type", words("summary")),
        member("compilation_guaranteed", Field::Other),
        member("success", Field::Flag(true)),
        member("files_checked", Field::Number(None)),
    ];
    assert!(matches!(
        read_check_line(&members),
        CheckLine::Summary { compilable: Some(true), files: None }
    ));
}

#[test]
fn a_diagnostic_carries_its_code() {
    let coded = vec![member("code", words("D002")), member("message", words("eval()"))];
    match read_check_line(&coded) {
        CheckLine::Diagnostic { message } => assert_eq!(message, "[D002] eval()"),
        _ => panic!("another line"),
    }
    let plain = vec![member("message", words("eval()")), member("files", Field::Number(Some(0)))];
    match read_check_line(&plain) {
        CheckLine::Diagnostic { message } => assert_eq!(message, "eval()"),
        _ => panic!("another line"),
    }
    let count = vec![member("files", Field::Number(Some(0)))];
    assert!(matches!(read_check_line(&count), CheckLine::Count { found: 0 }));
    assert!(matches!(read_check_line(&Vec::new()), CheckLine::Silent));
}

#[test]
fn the_last_summary_and_the_last_count_decide() {
    let report = read_check(
        "{\"type\":\"summary\",\"success\":true,\"files_checked\":2}\n{\"type\":\"summary\",\"success\":false}\n",
    );
    assert_eq!(report.compilable, Some(false));
    assert_eq!(report.files_evaluated, Some(2));
    let report = read_check("{\"type\":\"summary\",\"success\":true}\n{\"type\":\"summary\"}");
    assert_eq!(report.compilable, None);
}

#[test]
fn lines_are_absorbed_one_by_one() {
    let mut report = CheckReport::silent();
    report.absorb(CheckLine::Diagnostic { message: "a".into() });
    report.absorb(CheckLine::Count { found: 4 });
    report.absorb(CheckLine::Summary { compilable: Some(true), files: None });
    report.absorb(CheckLine::Silent);
    assert_eq!(report.compilable, Some(true));
    assert_eq!(report.files_evaluated, Some(4));
    assert_eq!(report.diagnostics, ["a"]);
}

#[test]
fn noise_between_the_lines_is_passed_over() {
    let report = read_check(
        "warming up…\n[1, 2]\n17\n  {\"message\":\"a \\u00e9\"}  \r\n{broken\n{\"type\":\"summary\",\"success\":false}",
    );
    assert_eq!(report.diagnostics, ["a é"]);
    assert_eq!(report.compilable, Some(false));
}

#[test]
fn a_line_of_noise_changes_nothing_but_the_raw_output() {
    let quiet = "{\"message\":\"a\"}\n{\"type\":\"summary\",\"success\":false}";
    for noisy in [
        "noise\n{\"message\":\"a\"}\n{\"type\":\"summary\",\"success\":false}",
        "{\"message\":\"a\"}\n  noise \r\n{\"type\":\"summary\",\"success\":false}",
        "{\"message\":\"a\"}\n{\"type\":\"summary\",\"success\":false}\nnoise",
    ] {
        match (classify_check(noisy, b"", "v"), classify_check(quiet, b"", "v")) {
            (
                Gate::Unsupported { diagnostics: with, raw },
                Gate::Unsupported { diagnostics: without, .. },
            ) => {
                assert_eq!(with, without);
                assert_eq!(raw.stdout, noisy);
            }
            _ => panic!("another gate"),
        }
    }
}

#[test]
fn numbers_count_only_as_unsigned_integers() {
    for (text, count) in [
        ("{\"files\":18446744073709551615}", Some(u64::MAX)),
        ("{\"files\":18446744073709551616}", None),
        ("{\"files\":-1}", None),
        ("{\"files\":0.0}", None),
        ("{\"files\":\"0\"}", None),
        ("{\"files\":null}", None),
        ("{\"files\":[0]}", None),
        ("{\"files\":3,\"files\":0}", Some(0)),
    ] {
        assert_eq!(read_check(text).files_evaluated, count, "{text}");
    }
}

#[test]
fn a_rejection_without_diagnostics_says_so() {
    match classify_check("{\"type\":\"summary\",\"success\":false}", b"\xffwarn", "v") {
        Gate::Unsupported { diagnostics, raw } => {
            assert_eq!(diagnostics, ["(no diagnostics reported)"]);
            assert_eq!(raw.stdout, "{\"type\":\"summary\",\"success\":false}");
            assert_eq!(raw.stderr, "\u{fffd}warn");
            assert!(raw.step == PerryStep::Check);
        }
        _ => panic!("another gate"),
    }
}

#[test]
fn the_gate_names_the_version_asked() {
    match classify_check("{\"type\":\"summary\",\"success\":true}", b"", "perry 9") {
        Gate::Compilable { perry_version } => assert_eq!(perry_version, "perry 9"),
        _ => panic!("another gate"),
    }
    match classify_check("", b" some stderr\n", "perry 9") {
        Gate::Unavailable { note } => {
            assert_eq!(note, "`perry check` produced no summary (stderr: some stderr)");
        }
        _ => panic!("another gate"),
    }
}

#[test]
fn a_version_is_read_back_as_it_was_written() {
    let version = version_text(" perry 0.5.1180é\n").unwrap();
    assert_eq!(version, "perry 0.5.1180é");
    assert_eq!(read_version_memo(version.clone().into_bytes()), Some(version));
    assert_eq!(read_version_memo(Vec::new()), None);
    assert_eq!(read_version_memo(vec![0xc3]), None);
    assert_eq!(version_text(" \n"), None);
}

#[test]
fn reasons_are_indented() {
    assert_eq!(indent(&vec!["a".to_string(), "b".to_string()]), "  a\n  b");
    assert_eq!(indent(&Vec::new()), "");
}

#[test]
fn raw_output_is_shown_stream_by_stream() {
    let failure = CookFailure {
        cause: "why".to_string(),
        perry_attributable: false,
        raw: Some(RawPerryOutput {
            step: PerryStep::Compile,
            stdout: "  out \n\n".to_string(),
            stderr: "err\n".to_string(),
        }),
    };
    assert_eq!(fail(&failure, false), ["nub cook: why", "  Running on Node instead."]);
    assert_eq!(
        fail(&failure, true),
        [
            "--- perry compile (raw, --debug) ---",
            "[stdout]\n  out",
            "[stderr]\nerr",
            "--- end perry output ---",
            "  Running on Node instead."
        ]
    );
}

#[test]
fn outputs_are_described_as_they_are() {
    assert_eq!(describe_stdout_diff(b"abc", b"abcd"), "differ in length (3 vs 4 bytes)");
    assert_eq!(describe_stdout_diff(b"abc", b"abd"), "differ in content (same length)");
    assert_eq!(describe_stdout_diff(b"abc", b"abc"), "identical");
    assert_eq!(describe_stdout_diff(b"", b""), "identical");
}
