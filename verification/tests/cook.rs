use nub_cook::args::{conclude, reference_run, CookArgs, CookError};
use nub_cook::check::{classify_check, read_check, Gate};
use nub_cook::failure::{issue_link_line, PERRY_ISSUES_URL};
use nub_cook::keys::{cache_key, verdict_key};
use nub_cook::process::{locate_perry, Located};
use nub_cook::session::{Answer, Next, Query, VERDICT_NOT_SAFE};
use nub_cook::verify::{
    describe_stdout_diff, divergence_failure, verify_outcome, Captured, VerifyOutcome,
};
use std::cell::Cell;
use std::io::Write;

#[test]
fn cache_key_changes_with_source() {
    let k1 = cache_key(b"console.log(1)", "perry 0.5.1180");
    let k2 = cache_key(b"console.log(2)", "perry 0.5.1180");
    assert_ne!(k1, k2, "different source must yield a different key");
    assert!(k1.starts_with("cook/"));
}

#[test]
fn cache_key_changes_with_perry_version() {
    let k1 = cache_key(b"console.log(1)", "perry 0.5.1180");
    let k2 = cache_key(b"console.log(1)", "perry 0.6.0");
    assert_ne!(k1, k2, "a different perry version must invalidate the cached binary");
}

#[test]
fn cache_key_is_stable_for_identical_inputs() {
    let k1 = cache_key(b"const x = 1;", "perry 0.5.1180");
    let k2 = cache_key(b"const x = 1;", "perry 0.5.1180");
    assert_eq!(k1, k2, "identical inputs must hit the same cache entry");
}

#[test]
fn verdict_key_is_distinct_namespace_but_same_content() {
    let k = cache_key(b"const x = 1;", "perry 0.5.1180");
    let vk = verdict_key(&k);
    assert_ne!(k, vk, "verdict and binary must not share a key");
    assert!(vk.starts_with("cook-verdict/"));
    let vk2 = verdict_key(&cache_key(b"const x = 1;", "perry 0.5.1180"));
    assert_eq!(vk, vk2);
    let vk3 = verdict_key(&cache_key(b"const x = 2;", "perry 0.5.1180"));
    assert_ne!(vk, vk3);
}

#[test]
fn stdout_diff_describes_length_and_content_mismatch() {
    assert!(describe_stdout_diff(b"abc", b"abcd").contains("length"));
    assert!(describe_stdout_diff(b"abc", b"abd").contains("content"));
}

#[test]
fn verify_outcome_trusts_only_matching_stdout_and_exit() {
    let cooked = |out: &[u8], code: i32| Captured { stdout: out.to_vec(), code };
    assert!(matches!(
        verify_outcome(&cooked(b"42\n", 0), b"42\n", 0),
        VerifyOutcome::Equivalent
    ));
    assert!(matches!(
        verify_outcome(&cooked(b"42\n", 0), b"43\n", 0),
        VerifyOutcome::Diverged
    ));
    assert!(matches!(
        verify_outcome(&cooked(b"42\n", 1), b"42\n", 0),
        VerifyOutcome::Diverged
    ));
}

#[test]
fn divergence_is_not_perry_attributable_and_names_nondeterminism() {
    let cooked = Captured { stdout: b"1750000000000\n".to_vec(), code: 0 };
    let f = divergence_failure("clock.ts", &cooked, b"1750000000001\n", 0);
    assert!(
        !f.perry_attributable,
        "a verify divergence must NOT carry the PerryTS-issue link"
    );
    assert!(f.raw.is_none(), "a divergence has no raw perry output");
    assert!(
        f.cause.contains("nondeterministic"),
        "the cause must name nondeterminism as the likely benign explanation"
    );
    assert!(f.cause.contains("clock.ts"), "the cause names the script");
}

#[test]
fn divergence_suppresses_the_issue_link_a_real_failure_keeps_it() {
    let cooked = Captured { stdout: b"a".to_vec(), code: 0 };
    let divergence = divergence_failure("x.ts", &cooked, b"b", 0);
    assert!(
        issue_link_line(divergence.perry_attributable).is_none(),
        "a verify divergence must NOT print the PerryTS-issue link"
    );

    let link = issue_link_line(true).expect("an attributable failure shows the link");
    assert!(
        link.contains(PERRY_ISSUES_URL),
        "the attributable link points at PerryTS issues"
    );
}

#[test]
fn gate_keys_on_compilation_guaranteed_when_present() {
    let stdout = "{\"code\":\"D002\",\"message\":\"eval() cannot be compiled\",\"type\":\"diagnostic\"}\n{\"type\":\"summary\",\"success\":true,\"compilation_guaranteed\":false}";
    let report = read_check(stdout);
    assert_eq!(
        report.compilable,
        Some(false),
        "compilation_guaranteed must override success when both are present"
    );
    assert_eq!(report.diagnostics.len(), 1);
    assert!(report.diagnostics[0].contains("eval"));

    let ok = "{\"type\":\"summary\",\"success\":false,\"compilation_guaranteed\":true}";
    assert_eq!(read_check(ok).compilable, Some(true));
}

#[test]
fn gate_falls_back_to_success_when_field_absent() {
    let no_field_fail = "{\"code\":\"R003\",\"message\":\"Package 'express' not found\",\"type\":\"diagnostic\"}\n{\"type\":\"summary\",\"success\":false}";
    let report = read_check(no_field_fail);
    assert_eq!(report.compilable, Some(false));
    assert_eq!(report.diagnostics.len(), 1);
    assert!(report.diagnostics[0].contains("express"));

    let no_field_ok = "{\"type\":\"summary\",\"success\":true}";
    assert_eq!(read_check(no_field_ok).compilable, Some(true));
}

#[test]
fn classify_ts_summary_is_compilable() {
    let stdout = r#"{"compilation_guaranteed":true,"deps_checked":true,"errors":0,"files_checked":1,"files_modified":0,"success":true,"type":"summary","warnings":0}"#;
    assert!(matches!(
        classify_check(stdout, b"", "perry 0.5.1206"),
        Gate::Compilable { .. }
    ));
}

#[test]
fn classify_undiscovered_ext_zero_files_is_indeterminate_not_unavailable() {
    let zero_files = r#"{"errors":0,"files":0,"success":true,"warnings":0}"#;
    assert!(
        matches!(
            classify_check(zero_files, b"", "perry 0.5.1206"),
            Gate::Indeterminate { .. }
        ),
        "zero files evaluated must be Indeterminate (→ compile), not a Node bail"
    );
}

#[test]
fn classify_zero_files_checked_in_summary_is_also_indeterminate() {
    let summary_zero = r#"{"compilation_guaranteed":true,"deps_checked":true,"errors":0,"files_checked":0,"success":true,"type":"summary","warnings":0}"#;
    assert!(matches!(
        classify_check(summary_zero, b"", "perry 0.5.1206"),
        Gate::Indeterminate { .. }
    ));
}

#[test]
fn classify_negative_verdict_is_unsupported_with_diagnostics() {
    let neg = "{\"code\":\"D002\",\"message\":\"eval() cannot be compiled to native code\",\"type\":\"diagnostic\"}\n{\"compilation_guaranteed\":false,\"errors\":1,\"files_checked\":1,\"success\":false,\"type\":\"summary\",\"warnings\":0}";
    match classify_check(neg, b"", "perry 0.5.1206") {
        Gate::Unsupported { diagnostics, .. } => {
            assert!(diagnostics.iter().any(|d| d.contains("eval")));
        }
        other => panic!("expected Unsupported, got a different gate ({})", gate_name(&other)),
    }
}

#[test]
fn classify_no_output_is_unavailable() {
    assert!(matches!(
        classify_check("", b"some stderr", "perry 0.5.1206"),
        Gate::Unavailable { .. }
    ));
}

fn gate_name(g: &Gate<String, Vec<String>>) -> &'static str {
    match g {
        Gate::Compilable { .. } => "Compilable",
        Gate::Indeterminate { .. } => "Indeterminate",
        Gate::Unsupported { .. } => "Unsupported",
        Gate::Unavailable { .. } => "Unavailable",
    }
}

/// What a run came to: its result, whether the script ran on Node, and whether
/// the captured run on Node happened.
struct Probe {
    result: Result<i32, CookError>,
    fell_back: bool,
    captured_ran: bool,
}

/// Drives a run of the script with answers from this machine; `perry` is given
/// by whether the path that `PERRY_BIN` would name exists.
fn run_probe(script: &str, compat_mode: bool, perry_bin: &str) -> Probe {
    let fell_back = Cell::new(false);
    let captured = Cell::new(false);
    let args = CookArgs {
        script,
        forwarded_args: &[],
        compat_mode,
        debug: false,
        run_on_node: || {
            fell_back.set(true);
            Ok(0)
        },
        run_on_node_captured: || {
            captured.set(true);
            Ok((Vec::new(), 0))
        },
    };
    let mut session = args.open(None);
    let CookArgs { run_on_node, run_on_node_captured, .. } = args;
    let mut reference = Some(run_on_node_captured);
    let ending = loop {
        let answer = match session.pending() {
            Next::End { ending } => break ending,
            Next::Ask { query } => match query {
                Query::ScriptExists => Answer::Truth(std::path::Path::new(script).exists()),
                Query::ReadSource => Answer::Bytes(Ok(b"console.log(1)\n".to_vec())),
                Query::FindPerry => Answer::Truth(!matches!(
                    locate_perry(Some(std::path::Path::new(perry_bin).exists()), &[]),
                    Located::Missing
                )),
                Query::RunNode => reference_run(reference.take().unwrap()),
                _ => unreachable!("no perry, so nothing else is asked"),
            },
        };
        session = session.step(answer).0;
    };
    let result = conclude(ending, run_on_node);
    Probe { result, fell_back: fell_back.get(), captured_ran: captured.get() }
}

fn write_tmp_ts(body: &[u8]) -> tempfile::NamedTempFile {
    let mut tmp = tempfile::Builder::new().suffix(".ts").tempfile().unwrap();
    tmp.write_all(body).unwrap();
    tmp
}

#[test]
fn compat_mode_skips_aot_and_runs_on_node() {
    let tmp = write_tmp_ts(b"console.log(1)\n");
    let p = run_probe(&tmp.path().to_string_lossy(), true, "/nonexistent/perry-binary-for-test");
    assert_eq!(p.result.ok(), Some(0));
    assert!(p.fell_back, "compat must run on Node");
    assert!(!p.captured_ran, "compat must NOT run the verify probe");
}

#[test]
fn missing_perry_falls_back_to_node() {
    let tmp = write_tmp_ts(b"console.log(1)\n");
    let p = run_probe(&tmp.path().to_string_lossy(), false, "/nonexistent/perry-binary-for-test");
    assert_eq!(p.result.ok(), Some(0));
    assert!(p.fell_back, "missing perry must run on Node");
    assert!(!p.captured_ran, "missing perry must NOT run the verify probe");
}

#[test]
fn missing_file_is_an_error_not_a_silent_fallback() {
    let p = run_probe("/nonexistent/cook-script.ts", false, "/nonexistent/perry-binary-for-test");
    let err = p.result.err().unwrap();
    assert!(err.message.contains("no such file"));
    assert!(!p.fell_back);
}

fn has_verdict(cache: &std::path::Path, key: &str) -> bool {
    cacache::metadata_sync(cache, verdict_key(key)).ok().flatten().is_some()
}

#[test]
fn verdict_roundtrip_marks_and_reads_not_safe() {
    let dir = tempfile::tempdir().unwrap();
    let key = cache_key(b"effectful-or-divergent", "perry 0.5.1180");
    assert!(!has_verdict(dir.path(), &key), "no verdict initially");
    cacache::write_sync(dir.path(), verdict_key(&key), VERDICT_NOT_SAFE).unwrap();
    assert!(
        has_verdict(dir.path(), &key),
        "a recorded not-cook-safe verdict must be detected"
    );
    let other = cache_key(b"different-source", "perry 0.5.1180");
    assert!(!has_verdict(dir.path(), &other));
}

#[test]
fn cache_roundtrip_is_node_free() {
    let dir = tempfile::tempdir().unwrap();
    let key = cache_key(b"payload-source", "perry 0.5.1180");
    let payload = b"\x7fELF-not-really-but-opaque-bytes".to_vec();
    cacache::write_sync(dir.path(), &key, &payload).unwrap();
    let back = cacache::read_sync(dir.path(), &key).unwrap();
    assert_eq!(back, payload);
}
