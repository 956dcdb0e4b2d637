use cat_conformance::compare::{
    advance, compare_files, compare_outputs, same_bytes, same_code, Action, Event, Mismatch,
    Outcome, Phase, PipeCheck, Probe,
};
use cat_conformance::fifo::{expected_stream, streaming};
use cat_conformance::fixtures::Fixtures;
use cat_conformance::harness::Harness;
use cat_conformance::runner::{CmdOutput, Config, RunPlan, RunStep, Stream};

fn strings(items: &[&str]) -> Vec<String> {
    items.iter().map(|t| t.to_string()).collect()
}

fn harness() -> Harness {
    Harness::new("/work", "/bin/cat".to_string(), Fixtures::new("/tmp/fx"))
}

fn output(code: Option<i32>, stdout: &[u8], stderr: &[u8]) -> CmdOutput {
    CmdOutput { code, stdout: stdout.to_vec(), stderr: stderr.to_vec() }
}

fn probe(stdin: Option<&[u8]>) -> Probe {
    Probe {
        args: strings(&["-n", "-"]),
        stdin: stdin.map(|b| b.to_vec()),
        producer: None,
        check: PipeCheck::AgainstReference,
    }
}

const QUIET: Config = Config { verbose: false };

fn expect_run(action: Action) -> RunPlan {
    match action {
        Action::Run(plan) => plan,
        _ => panic!("expected a run"),
    }
}

fn expect_finish(action: Action) -> Outcome {
    match action {
        Action::Finish(outcome) => outcome,
        _ => panic!("expected the end"),
    }
}

#[test]
fn same_bytes_and_same_code_are_exact() {
    assert!(same_bytes(b"abc", b"abc"));
    assert!(!same_bytes(b"abc", b"abc\n"));
    assert!(!same_bytes(b"abc", b"abd"));
    assert!(same_bytes(b"", b""));
    assert!(same_code(Some(1), Some(1)));
    assert!(!same_code(Some(1), Some(0)));
    assert!(!same_code(None, Some(0)));
    assert!(same_code(None, None));
}

#[test]
fn equal_runs_agree() {
    let a = output(Some(0), b"alpha\n", b"");
    assert!(compare_outputs(a.clone(), a).is_ok());
}

#[test]
fn any_difference_is_reported_with_both_runs() {
    let a = output(Some(1), b"", b"cat: x: No such file or directory\n");
    let b = output(Some(1), b"", b"cat: x: no such file or directory\n");
    match compare_outputs(a.clone(), b.clone()) {
        Err(Mismatch::Output { subject, reference, stdout_differs, stderr_differs }) => {
            assert_eq!(subject, a);
            assert_eq!(reference, b);
            assert!(!stdout_differs);
            assert!(stderr_differs);
        }
        _ => panic!("expected a difference"),
    }
    let c = output(None, b"", b"cat: x: No such file or directory\n");
    match compare_outputs(a, c) {
        Err(Mismatch::Output { stdout_differs, stderr_differs, .. }) => {
            assert!(!stdout_differs);
            assert!(!stderr_differs);
        }
        _ => panic!("expected a difference in the exit code"),
    }
    let d = output(Some(0), b"x\n", b"");
    let e = output(Some(0), b"x", b"");
    assert!(matches!(
        compare_outputs(d, e),
        Err(Mismatch::Output { stdout_differs: true, stderr_differs: false, .. })
    ));
}

#[test]
fn files_are_compared_byte_for_byte() {
    assert!(compare_files(b"one\n".to_vec(), b"one\n".to_vec(), Some(0), Some(0)).is_ok());
    assert!(compare_files(b"one\n".to_vec(), b"one\n".to_vec(), Some(1), Some(0)).is_ok());
    assert_eq!(
        compare_files(b"one\n".to_vec(), b"one".to_vec(), Some(0), Some(1)),
        Err(Mismatch::File {
            subject: b"one\n".to_vec(),
            reference: b"one".to_vec(),
            subject_code: Some(0),
            reference_code: Some(1),
            subject_len: 4,
            reference_len: 3,
        })
    );
    assert_eq!(
        compare_files(b"one".to_vec(), b"two".to_vec(), None, Some(0)),
        Err(Mismatch::File {
            subject: b"one".to_vec(),
            reference: b"two".to_vec(),
            subject_code: None,
            reference_code: Some(0),
            subject_len: 3,
            reference_len: 3,
        })
    );
}

#[test]
fn a_comparison_that_passes_takes_all_eight_steps() {
    let h = harness();
    let p = probe(Some(b"stdin data\n"));
    let (phase, action) = advance(&h, QUIET, &p, Phase::Idle, Event::Start);
    let plan = expect_run(action);
    assert_eq!(plan.program, "/work/wcat/wcat");
    assert_eq!(plan.arg0.as_deref(), Some("/bin/cat"));
    assert_eq!(plan.args, strings(&["-n", "-"]));
    assert_eq!(plan.feed.as_deref(), Some(&b"stdin data\n"[..]));
    assert_eq!(plan.stdout, Stream::Piped);
    assert_eq!(
        plan.steps,
        vec![RunStep::Spawn, RunStep::StartFeeder, RunStep::Wait, RunStep::JoinFeeder]
    );

    let out = output(Some(0), b"     1\tstdin data\n", b"");
    let (phase, action) = advance(&h, QUIET, &p, phase, Event::Ran(out.clone()));
    let plan = expect_run(action);
    assert_eq!(plan.program, "/bin/cat");
    assert_eq!(plan.arg0, None);
    assert_eq!(plan.args, strings(&["-n", "-"]));
    assert_eq!(plan.feed.as_deref(), Some(&b"stdin data\n"[..]));
    assert_eq!(plan.stdout, Stream::Piped);

    let (phase, action) = advance(&h, QUIET, &p, phase, Event::Ran(out));
    assert!(matches!(action, Action::CreateOutputs));

    let created = Event::Created {
        subject: "/tmp/fx/o1".to_string(),
        reference: "/tmp/fx/o2".to_string(),
    };
    let (phase, action) = advance(&h, QUIET, &p, phase, created);
    let plan = expect_run(action);
    assert_eq!(plan.program, "/work/wcat/wcat");
    assert_eq!(plan.arg0.as_deref(), Some("/bin/cat"));
    assert_eq!(plan.stdout, Stream::File("/tmp/fx/o1".to_string()));
    assert_eq!(plan.steps[0], RunStep::OpenOutput);

    let (phase, action) = advance(&h, QUIET, &p, phase, Event::Wrote(Some(0)));
    let plan = expect_run(action);
    assert_eq!(plan.program, "/bin/cat");
    assert_eq!(plan.arg0, None);
    assert_eq!(plan.stdout, Stream::File("/tmp/fx/o2".to_string()));

    let (phase, action) = advance(&h, QUIET, &p, phase, Event::Wrote(Some(0)));
    assert!(matches!(action, Action::ReadBack(ref path) if path == "/tmp/fx/o1"));

    let written = b"     1\tstdin data\n".to_vec();
    let (phase, action) = advance(&h, QUIET, &p, phase, Event::Read(written.clone()));
    assert!(matches!(action, Action::ReadBack(ref path) if path == "/tmp/fx/o2"));

    let (phase, action) = advance(&h, QUIET, &p, phase, Event::Read(written));
    assert!(matches!(expect_finish(action), Outcome::Pass));
    assert!(matches!(phase, Phase::Done));
}

#[test]
fn a_difference_on_the_pipe_ends_the_comparison_at_once() {
    let h = harness();
    let p = probe(None);
    let (phase, _) = advance(&h, QUIET, &p, Phase::Idle, Event::Start);
    let (phase, _) = advance(&h, QUIET, &p, phase, Event::Ran(output(Some(0), b"a\n", b"")));
    let (phase, action) = advance(&h, QUIET, &p, phase, Event::Ran(output(Some(0), b"b\n", b"")));
    assert!(matches!(phase, Phase::Done));
    match expect_finish(action) {
        Outcome::Mismatch(Mismatch::Output { subject, reference, stdout_differs, .. }) => {
            assert_eq!(subject.stdout, b"a\n");
            assert_eq!(reference.stdout, b"b\n");
            assert!(stdout_differs);
        }
        _ => panic!("expected a difference"),
    }
}

#[test]
fn a_difference_between_the_files_is_reported_with_both_lengths() {
    let h = harness();
    let p = probe(None);
    let phase = Phase::ReferenceRead {
        subject_bytes: b"12345".to_vec(),
        subject_code: Some(0),
        reference_code: Some(0),
    };
    let (phase, action) = advance(&h, QUIET, &p, phase, Event::Read(b"1234".to_vec()));
    assert!(matches!(phase, Phase::Done));
    assert!(matches!(
        expect_finish(action),
        Outcome::Mismatch(Mismatch::File { subject_len: 5, reference_len: 4, .. })
    ));
}

#[test]
fn a_difference_between_the_files_is_reported_with_both_files_and_both_exit_codes() {
    let h = harness();
    let p = probe(None);
    let same = output(Some(0), b"x\n", b"");
    let (phase, _) = advance(&h, QUIET, &p, Phase::Idle, Event::Start);
    let (phase, _) = advance(&h, QUIET, &p, phase, Event::Ran(same.clone()));
    let (phase, _) = advance(&h, QUIET, &p, phase, Event::Ran(same));
    let created = Event::Created {
        subject: "/tmp/fx/o1".to_string(),
        reference: "/tmp/fx/o2".to_string(),
    };
    let (phase, _) = advance(&h, QUIET, &p, phase, created);
    let (phase, _) = advance(&h, QUIET, &p, phase, Event::Wrote(Some(3)));
    let (phase, _) = advance(&h, QUIET, &p, phase, Event::Wrote(None));
    let (phase, _) = advance(&h, QUIET, &p, phase, Event::Read(b"x".to_vec()));
    let (phase, action) = advance(&h, QUIET, &p, phase, Event::Read(b"x\n".to_vec()));
    assert!(matches!(phase, Phase::Done));
    assert_eq!(
        expect_finish(action),
        Outcome::Mismatch(Mismatch::File {
            subject: b"x".to_vec(),
            reference: b"x\n".to_vec(),
            subject_code: Some(3),
            reference_code: None,
            subject_len: 1,
            reference_len: 2,
        })
    );
}

#[test]
fn redirected_runs_that_end_differently_but_write_the_same_still_pass() {
    let h = harness();
    let p = probe(None);
    let phase = Phase::SubjectToFile {
        subject_path: "/tmp/fx/o1".to_string(),
        reference_path: "/tmp/fx/o2".to_string(),
    };
    let (phase, _) = advance(&h, QUIET, &p, phase, Event::Wrote(Some(1)));
    let (phase, _) = advance(&h, QUIET, &p, phase, Event::Wrote(Some(0)));
    let (phase, _) = advance(&h, QUIET, &p, phase, Event::Read(b"x".to_vec()));
    let (_, action) = advance(&h, QUIET, &p, phase, Event::Read(b"x".to_vec()));
    assert!(matches!(expect_finish(action), Outcome::Pass));
}

#[test]
fn a_process_that_cannot_be_started_is_reported_with_its_command_and_arguments() {
    let h = harness();
    let p = probe(None);
    let paths = || ("/tmp/fx/o1".to_string(), "/tmp/fx/o2".to_string());
    let subject_file = Phase::SubjectToFile { subject_path: paths().0, reference_path: paths().1 };
    let reference_file = Phase::ReferenceToFile {
        subject_path: paths().0,
        reference_path: paths().1,
        subject_code: Some(0),
    };
    let reference_piped = Phase::ReferencePiped { subject_out: output(Some(0), b"", b"") };
    let running = [
        (Phase::SubjectPiped, "/work/wcat/wcat"),
        (reference_piped, "/bin/cat"),
        (subject_file, "/work/wcat/wcat"),
        (reference_file, "/bin/cat"),
    ];
    for (phase, program) in running {
        let failed = Event::SpawnFailed("No such file or directory".to_string());
        let (next, action) = advance(&h, QUIET, &p, phase, failed);
        assert!(matches!(next, Phase::Done));
        let wanted = format!("cannot start {program} [-n -]: No such file or directory");
        assert_eq!(expect_finish(action), Outcome::Broken(wanted));
    }
    for phase in [Phase::Idle, Phase::Outputs, Phase::Done] {
        let failed = Event::SpawnFailed("No such file or directory".to_string());
        let (_, action) = advance(&h, QUIET, &p, phase, failed);
        assert_eq!(expect_finish(action), Outcome::Broken("unexpected event".to_string()));
    }
}

#[test]
fn a_failure_breaks_the_comparison_in_any_phase() {
    let h = harness();
    let p = probe(None);
    let paths = || ("/tmp/fx/o1".to_string(), "/tmp/fx/o2".to_string());
    let phases = [
        (Phase::Idle, "broken pipe"),
        (Phase::SubjectPiped, "running /work/wcat/wcat [-n -]: broken pipe"),
        (
            Phase::ReferencePiped { subject_out: output(Some(0), b"", b"") },
            "running /bin/cat [-n -]: broken pipe",
        ),
        (Phase::Outputs, "creating the output files: broken pipe"),
        (
            Phase::SubjectToFile { subject_path: paths().0, reference_path: paths().1 },
            "running /work/wcat/wcat [-n -]: broken pipe",
        ),
        (
            Phase::ReferenceToFile {
                subject_path: paths().0,
                reference_path: paths().1,
                subject_code: None,
            },
            "running /bin/cat [-n -]: broken pipe",
        ),
        (
            Phase::SubjectRead {
                reference_path: paths().1,
                subject_code: Some(0),
                reference_code: Some(0),
            },
            "reading the output file of the program under test: broken pipe",
        ),
        (
            Phase::ReferenceRead {
                subject_bytes: Vec::new(),
                subject_code: Some(0),
                reference_code: Some(0),
            },
            "reading the output file of the reference: broken pipe",
        ),
        (Phase::Done, "broken pipe"),
    ];
    for (phase, wanted) in phases {
        let (next, action) = advance(&h, QUIET, &p, phase, Event::Failed("broken pipe".into()));
        assert!(matches!(next, Phase::Done));
        assert_eq!(expect_finish(action), Outcome::Broken(wanted.to_string()));
    }
}

#[test]
fn an_event_out_of_turn_breaks_the_comparison() {
    let h = harness();
    let p = probe(None);
    let (next, action) = advance(&h, QUIET, &p, Phase::Idle, Event::Read(Vec::new()));
    assert!(matches!(next, Phase::Done));
    assert!(matches!(expect_finish(action), Outcome::Broken(_)));
    let (next, action) = advance(&h, QUIET, &p, Phase::Done, Event::Start);
    assert!(matches!(next, Phase::Done));
    assert!(matches!(expect_finish(action), Outcome::Broken(_)));
}

#[test]
fn a_stream_is_held_against_the_chunks_and_skips_the_reference_on_the_pipe() {
    let h = harness();
    let chunks = vec![b"chunk1\n".to_vec(), b"chunk2\n".to_vec()];
    let p = Probe {
        args: strings(&["/tmp/fx/stream.fifo"]),
        stdin: None,
        producer: Some(streaming("/tmp/fx/stream.fifo", &chunks, 50)),
        check: PipeCheck::Expect(expected_stream(&chunks)),
    };
    let (phase, action) = advance(&h, QUIET, &p, Phase::Idle, Event::Start);
    let plan = expect_run(action);
    assert_eq!(plan.steps.first(), Some(&RunStep::StartProducer));
    assert_eq!(plan.steps.last(), Some(&RunStep::JoinProducer));
    assert_eq!(plan.producer, p.producer);
    let (phase, action) =
        advance(&h, QUIET, &p, phase, Event::Ran(output(Some(0), b"chunk1\nchunk2\n", b"")));
    assert!(matches!(action, Action::CreateOutputs));
    assert!(matches!(phase, Phase::Outputs));

    let (phase, _) = advance(&h, QUIET, &p, Phase::Idle, Event::Start);
    let (phase, action) =
        advance(&h, QUIET, &p, phase, Event::Ran(output(Some(0), b"chunk2\nchunk1\n", b"")));
    assert!(matches!(phase, Phase::Done));
    assert!(matches!(
        expect_finish(action),
        Outcome::Mismatch(Mismatch::Stream { ref subject, ref expected })
            if subject.stdout == b"chunk2\nchunk1\n"
                && subject.code == Some(0)
                && expected == b"chunk1\nchunk2\n"
    ));
}
