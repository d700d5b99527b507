use nub_cook::bound::{fmt_bound, timeout_for, Bound};
use nub_cook::process::{
    compile_flags, exit_code, is_executable, kill_process_group, locate_perry, perry_args,
    set_executable, which_in_path, Arg, Located, PerryStep, Probe,
};

fn file(mode: u32) -> Probe {
    Probe { is_file: true, mode: Some(mode) }
}

fn words(step: PerryStep) -> Vec<String> {
    perry_args(step)
        .into_iter()
        .map(|arg| match arg {
            Arg::Word(w) => w,
            Arg::Script => "<script>".to_string(),
            Arg::Output => "<output>".to_string(),
        })
        .collect()
}

#[test]
fn perry_is_invoked_with_these_arguments() {
    assert_eq!(words(PerryStep::Version), ["--version"]);
    assert_eq!(
        words(PerryStep::Check),
        ["check", "--check-deps", "--format", "json", "<script>"]
    );
    assert_eq!(words(PerryStep::Compile), ["compile", "<script>", "-o", "<output>"]);
    assert!(compile_flags().is_empty());
}

#[test]
fn executable_needs_a_file_and_one_execute_bit() {
    assert!(is_executable(file(0o755)));
    assert!(is_executable(file(0o001)));
    assert!(!is_executable(file(0o644)));
    assert!(!is_executable(Probe { is_file: false, mode: Some(0o755) }));
    assert!(is_executable(Probe { is_file: true, mode: None }));
    assert!(!is_executable(Probe { is_file: false, mode: None }));
}

#[test]
fn a_materialized_binary_is_made_executable() {
    assert_eq!(set_executable(Some(0o600)), Some(0o755));
    assert_eq!(set_executable(None), None);
    assert!(is_executable(Probe { is_file: true, mode: set_executable(Some(0o100_600)) }));
}

#[test]
fn the_first_executable_candidate_is_taken() {
    let candidates = [file(0o644), file(0o755), file(0o700)];
    assert_eq!(which_in_path(&candidates), Some(1));
    assert_eq!(which_in_path(&candidates[..1]), None);
    assert_eq!(which_in_path(&[]), None);
}

#[test]
fn an_explicit_perry_decides_alone() {
    let candidates = [file(0o755)];
    assert!(locate_perry(Some(true), &candidates) == Located::Explicit);
    assert!(locate_perry(Some(false), &candidates) == Located::Missing);
    assert!(locate_perry(None, &candidates) == Located::InPath(0));
    assert!(locate_perry(None, &[]) == Located::Missing);
}

#[test]
fn a_process_group_is_reached_by_the_negated_number() {
    assert_eq!(kill_process_group(4711), Some(-4711));
    assert_eq!(kill_process_group(i32::MAX as u32), Some(-i32::MAX));
    assert_eq!(kill_process_group(i32::MAX as u32 + 1), None);
}

#[test]
fn exit_codes_follow_the_shell() {
    assert_eq!(exit_code(Some(3), None), 3);
    assert_eq!(exit_code(None, Some(9)), 137);
    assert_eq!(exit_code(None, None), 1);
    assert_eq!(exit_code(Some(0), Some(15)), 0);
}

#[test]
fn bounds_are_written_in_the_unit_that_fits() {
    assert_eq!(fmt_bound(Bound::from_secs(20)), "20s");
    assert_eq!(fmt_bound(Bound::from_millis(50)), "50ms");
    assert_eq!(fmt_bound(Bound::from_millis(1500)), "1500ms");
    assert_eq!(fmt_bound(Bound::from_millis(2000)), "2s");
    assert_eq!(fmt_bound(Bound::from_millis(0)), "0ms");
    assert_eq!(fmt_bound(Bound { secs: 1, nanos: 999_999 }), "1s");
    assert_eq!(fmt_bound(Bound::from_secs(u64::MAX)), "18446744073709551615s");
}

#[test]
fn the_setting_replaces_every_bound() {
    let usual = Bound::from_secs(120);
    assert!(timeout_for(Some("50"), usual) == Bound::from_millis(50));
    assert!(timeout_for(Some("+7"), usual) == Bound::from_millis(7));
    assert!(timeout_for(Some("soon"), usual) == usual);
    assert!(timeout_for(Some(""), usual) == usual);
    assert!(timeout_for(None, usual) == usual);
    assert_eq!(Bound::from_millis(1_500).as_nanos(), 1_500_000_000);
}
