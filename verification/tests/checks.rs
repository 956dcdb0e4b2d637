use cat_conformance::checks::{
    check_banner, check_exit_codes, check_help_output, check_version_output, plan_silent,
};
use cat_conformance::runner::{CmdOutput, RunStep, Stream};
use cat_conformance::toolchain::{build_steps, needs_rebuild, BuildState};

fn stdout(bytes: &[u8]) -> CmdOutput {
    CmdOutput { code: Some(0), stdout: bytes.to_vec(), stderr: Vec::new() }
}

#[test]
fn help_text_must_be_the_programs_own() {
    let reference = stdout(b"Usage: cat [OPTION]... [FILE]...\n");
    let own = stdout(b"Usage: wcat [OPTION]... [FILE]...\n");
    assert_eq!(check_help_output(&own, &reference), Ok(()));
    assert_eq!(
        check_help_output(&reference, &reference),
        Err("help output should remain wcat-specific".to_string())
    );
    assert_eq!(
        check_help_output(&stdout(b"usage: wcat\n"), &reference),
        Err("help missing usage".to_string())
    );
    assert_eq!(
        check_help_output(&stdout(b"\xff\xfeUsage: wcat\n"), &reference),
        Ok(())
    );
}

#[test]
fn version_text_must_name_program_and_version() {
    let reference = stdout(b"cat (GNU coreutils) 9.4\n");
    assert_eq!(check_version_output(&stdout(b"wcat 0.1\n"), &reference), Ok(()));
    assert_eq!(
        check_version_output(&reference, &reference),
        Err("version output should remain wcat-specific".to_string())
    );
    assert_eq!(
        check_version_output(&stdout(b"wcat 0.2\n"), &reference),
        Err("version string mismatch".to_string())
    );
}

#[test]
fn banner_check_takes_any_mark() {
    let reference = stdout(b"other");
    assert_eq!(check_banner(&stdout(b"abc"), &reference, "b", "same", "missing"), Ok(()));
    assert_eq!(check_banner(&stdout(b"abc"), &reference, "", "same", "missing"), Ok(()));
    assert_eq!(
        check_banner(&stdout(b"abc"), &reference, "d", "same", "missing"),
        Err("missing".to_string())
    );
    assert_eq!(
        check_banner(&stdout(b"other"), &reference, "o", "same", "missing"),
        Err("same".to_string())
    );
}

#[test]
fn exit_codes_are_held_against_each_other() {
    assert_eq!(check_exit_codes("--help", Some(0), Some(0)), Ok(()));
    assert_eq!(check_exit_codes("--help", None, None), Ok(()));
    assert_eq!(
        check_exit_codes("--help", Some(1), Some(0)),
        Err("--help exit mismatch Some(1) vs Some(0)".to_string())
    );
    assert_eq!(
        check_exit_codes("broken pipe", None, Some(141)),
        Err("broken pipe exit mismatch None vs Some(141)".to_string())
    );
    assert_eq!(
        check_exit_codes("broken pipe", Some(-1), None),
        Err("broken pipe exit mismatch Some(-1) vs None".to_string())
    );
}

#[test]
fn a_silent_run_drops_both_outputs() {
    let plan = plan_silent("/work/wcat/wcat", &["--help".to_string()]);
    assert_eq!(plan.program, "/work/wcat/wcat");
    assert_eq!(plan.args, vec!["--help".to_string()]);
    assert_eq!(plan.arg0, None);
    assert_eq!(plan.feed, None);
    assert_eq!(plan.producer, None);
    assert_eq!(plan.stdin, Stream::Inherit);
    assert_eq!(plan.stdout, Stream::Null);
    assert_eq!(plan.stderr, Stream::Null);
    assert_eq!(plan.steps, vec![RunStep::Spawn, RunStep::Wait]);
}

#[test]
fn a_build_is_due_when_the_executable_is_missing_or_stale() {
    let fresh = BuildState { binary_exists: true, source_changed: 100, binary_changed: Some(100) };
    assert!(!needs_rebuild(fresh));
    assert!(needs_rebuild(BuildState { source_changed: 101, ..fresh }));
    assert!(!needs_rebuild(BuildState { source_changed: 99, ..fresh }));
    assert!(needs_rebuild(BuildState { binary_exists: false, ..fresh }));
    assert!(needs_rebuild(BuildState { binary_changed: None, ..fresh }));
    assert!(!needs_rebuild(BuildState { binary_changed: None, source_changed: 0, ..fresh }));
}

#[test]
fn an_executable_that_is_not_older_than_the_source_is_never_rebuilt() {
    for (source, binary) in [(0u128, 0u128), (5, 5), (5, 6), (u128::MAX, u128::MAX)] {
        let state = BuildState {
            binary_exists: true,
            source_changed: source,
            binary_changed: Some(binary),
        };
        assert!(!needs_rebuild(state));
    }
}

#[test]
fn the_build_assembles_and_then_links() {
    let steps = build_steps("/work");
    assert_eq!(steps.len(), 2);
    assert_eq!(steps[0].program, "nasm");
    assert_eq!(steps[0].dir, "/work/wcat");
    assert_eq!(steps[0].args, vec!["-f", "elf64", "wcat.asm", "-o", "wcat.o"]);
    assert_eq!(steps[1].program, "ld");
    assert_eq!(steps[1].dir, "/work/wcat");
    assert_eq!(steps[1].args, vec!["-o", "wcat", "wcat.o"]);
}
