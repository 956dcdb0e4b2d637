use cat_conformance::cases::{
    CaseKind, Invocation, Payload, Place, Script, Setup, Shape, Spot, TestCase, Token,
};
use cat_conformance::compare::{PipeCheck, Probe};
use cat_conformance::fixtures::{Artifact, Fixtures};
use cat_conformance::harness::Harness;
use cat_conformance::plan::{
    action_failure, plan_case, repeat_bytes, resolve_payload, resolve_place, resolve_spot,
    CasePlan, FsAction,
};
use cat_conformance::runner::ProducerStep;

fn strings(items: &[&str]) -> Vec<String> {
    items.iter().map(|t| t.to_string()).collect()
}

fn harness() -> Harness {
    Harness::new("/work", "/bin/cat".to_string(), Fixtures::new("/tmp/fx"))
}

fn case(kind: CaseKind) -> TestCase {
    TestCase { name: "case".to_string(), kind }
}

fn compare_parts(plan: CasePlan) -> (Vec<FsAction>, Vec<Probe>, Vec<FsAction>) {
    match plan {
        CasePlan::Compare { setup, probes, cleanup } => (setup, probes, cleanup),
        CasePlan::Scripted(_) => panic!("expected a comparison"),
    }
}

fn matrix(shape: Shape, opts: &[&str]) -> Probe {
    let h = harness();
    let (setup, mut probes, cleanup) =
        compare_parts(plan_case(&h, &case(CaseKind::Matrix { shape, opts: strings(opts) })));
    assert!(setup.is_empty());
    assert!(cleanup.is_empty());
    assert_eq!(probes.len(), 1);
    let probe = probes.remove(0);
    assert!(probe.producer.is_none());
    assert!(matches!(probe.check, PipeCheck::AgainstReference));
    probe
}

#[test]
fn places_resolve_to_paths() {
    let fx = Fixtures::new("/tmp/fx");
    assert_eq!(resolve_spot(&fx, &Spot::InDir("cr.txt".to_string())), "/tmp/fx/cr.txt");
    assert_eq!(resolve_spot(&fx, &Spot::InSubdir("--".to_string())), "/tmp/fx/adir/--");
    assert_eq!(resolve_place(&fx, &Place::Artifact(Artifact::Huge)), "/tmp/fx/huge.txt");
    assert_eq!(resolve_place(&fx, &Place::Artifact(Artifact::Subdir)), "/tmp/fx/adir");
    assert_eq!(resolve_place(&fx, &Place::Own(Spot::InDir("x".to_string()))), "/tmp/fx/x");
    assert_eq!(resolve_place(&fx, &Place::Literal("/dev/null".to_string())), "/dev/null");
}

#[test]
fn payloads_resolve_to_bytes() {
    let fx = Fixtures::new("/tmp/fx");
    assert_eq!(resolve_payload(&fx, &Payload::Bytes(vec![1, 2, 3])), vec![1, 2, 3]);
    assert_eq!(resolve_payload(&fx, &Payload::Content(Artifact::Tabs)), b"col1\tcol2\nline\t2\n");
    assert_eq!(resolve_payload(&fx, &Payload::Content(Artifact::Binary)), fx.binary_data);
    assert_eq!(resolve_payload(&fx, &Payload::StdinData), b"stdin data\n");
    assert_eq!(resolve_payload(&fx, &Payload::StdinMix), b"middle line\n");
    assert_eq!(resolve_payload(&fx, &Payload::Random(2048)).len(), 2048);
    assert_eq!(
        resolve_payload(&fx, &Payload::Repeated { unit: b"x\n".to_vec(), times: 3 }),
        b"x\nx\nx\n"
    );
    assert_eq!(repeat_bytes(&b"ab".to_vec(), 0), b"");
    assert_eq!(repeat_bytes(&Vec::new(), 5), b"");
    assert_eq!(repeat_bytes(&b"x".to_vec(), 600_000).len(), 600_000);
}

#[test]
fn generated_cases_take_the_fixture_that_suits_the_flags() {
    let probe = matrix(Shape::File, &["-n"]);
    assert_eq!(probe.args, strings(&["-n", "/tmp/fx/blank.txt"]));
    assert_eq!(probe.stdin, None);

    let probe = matrix(Shape::Multi, &["-T"]);
    assert_eq!(probe.args, strings(&["-T", "/tmp/fx/tabs.txt", "/tmp/fx/b.txt"]));
    assert_eq!(probe.stdin, None);

    let probe = matrix(Shape::Stdin, &["-v"]);
    assert_eq!(probe.args, strings(&["-v", "-"]));
    assert_eq!(
        probe.stdin.as_deref(),
        Some(&b"plain\ncontrol:\x01here\nesc:\x1bX\nmeta:\x80Y\n"[..])
    );

    let probe = matrix(Shape::StdinFile, &["--show-ends"]);
    assert_eq!(probe.args, strings(&["--show-ends", "-", "/tmp/fx/b.txt"]));
    assert_eq!(probe.stdin.as_deref(), Some(&b"no newline"[..]));

    let probe = matrix(Shape::Binary, &["-n"]);
    assert_eq!(probe.args, strings(&["-n", "/tmp/fx/binary.bin"]));
    assert_eq!(probe.stdin, None);

    let probe = matrix(Shape::Stdin, &[]);
    assert_eq!(probe.args, strings(&["-"]));
    assert_eq!(probe.stdin.as_deref(), Some(&b"alpha\n"[..]));
}

#[test]
fn a_compare_case_resolves_setup_runs_and_cleanup_in_order() {
    let h = harness();
    let locked = Spot::InSubdir("locked.txt".to_string());
    let kind = CaseKind::Compare {
        setup: vec![
            Setup::Write { at: locked.clone(), content: Payload::Bytes(b"locked".to_vec()) },
            Setup::SetMode { at: locked.clone(), mode: 0o000 },
            Setup::MakeDir(Spot::InDir("rel_dir".to_string())),
            Setup::Symlink {
                target: Place::Literal("rel_dir/t".to_string()),
                link: Spot::InDir("link".to_string()),
            },
            Setup::HardLink {
                existing: Place::Artifact(Artifact::SampleB),
                link: Spot::InDir("hard".to_string()),
            },
        ],
        runs: vec![
            Invocation {
                args: vec![Token::Lit("-n".to_string()), Token::At(Place::Own(locked.clone()))],
                stdin: None,
            },
            Invocation {
                args: vec![
                    Token::At(Place::Artifact(Artifact::SampleA)),
                    Token::Lit("-".to_string()),
                ],
                stdin: Some(Payload::StdinMix),
            },
        ],
        cleanup: vec![Setup::SetMode { at: locked, mode: 0o600 }],
    };
    let (setup, probes, cleanup) = compare_parts(plan_case(&h, &case(kind)));
    assert_eq!(setup.len(), 5);
    assert!(matches!(
        &setup[0],
        FsAction::Write { path, content }
            if path == "/tmp/fx/adir/locked.txt" && content == b"locked"
    ));
    assert!(matches!(
        &setup[1],
        FsAction::SetMode { path, mode: 0 } if path == "/tmp/fx/adir/locked.txt"
    ));
    assert!(matches!(&setup[2], FsAction::MakeDir { path } if path == "/tmp/fx/rel_dir"));
    assert!(matches!(
        &setup[3],
        FsAction::Symlink { target, link } if target == "rel_dir/t" && link == "/tmp/fx/link"
    ));
    assert!(matches!(
        &setup[4],
        FsAction::HardLink { existing, link }
            if existing == "/tmp/fx/b.txt" && link == "/tmp/fx/hard"
    ));
    assert_eq!(probes.len(), 2);
    assert_eq!(probes[0].args, strings(&["-n", "/tmp/fx/adir/locked.txt"]));
    assert_eq!(probes[0].stdin, None);
    assert_eq!(probes[1].args, strings(&["/tmp/fx/a.txt", "-"]));
    assert_eq!(probes[1].stdin.as_deref(), Some(&b"middle line\n"[..]));
    assert!(probes.iter().all(|p| p.producer.is_none()));
    assert_eq!(cleanup.len(), 1);
    assert!(matches!(
        &cleanup[0],
        FsAction::SetMode { path, mode: 0o600 } if path == "/tmp/fx/adir/locked.txt"
    ));
}

#[test]
fn a_fifo_case_creates_the_pipe_and_writes_the_payload_into_it() {
    let h = harness();
    let kind = CaseKind::Fifo {
        fifo: Spot::InDir("tabs_fast.fifo".to_string()),
        mode: 0o644,
        flags: strings(&["-T"]),
        payload: Payload::Content(Artifact::Tabs),
        label: "-T fifo".to_string(),
    };
    let (setup, probes, cleanup) = compare_parts(plan_case(&h, &case(kind)));
    assert!(matches!(
        &setup[..],
        [FsAction::MakeFifo { path, mode: 0o644 }] if path == "/tmp/fx/tabs_fast.fifo"
    ));
    assert!(cleanup.is_empty());
    assert_eq!(probes.len(), 1);
    assert_eq!(probes[0].args, strings(&["-T", "/tmp/fx/tabs_fast.fifo"]));
    assert_eq!(probes[0].stdin, None);
    assert!(matches!(probes[0].check, PipeCheck::AgainstReference));
    let producer = probes[0].producer.as_ref().expect("producer");
    assert_eq!(producer.fifo, "/tmp/fx/tabs_fast.fifo");
    assert_eq!(producer.steps, vec![ProducerStep::Write(b"col1\tcol2\nline\t2\n".to_vec())]);
}

#[test]
fn a_stream_case_expects_the_chunks_joined() {
    let h = harness();
    let kind = CaseKind::Stream {
        fifo: Spot::InDir("stream.fifo".to_string()),
        mode: 0o644,
        chunks: vec![b"chunk1\n".to_vec(), b"chunk2\n".to_vec()],
        delay: 50,
    };
    let (setup, probes, _) = compare_parts(plan_case(&h, &case(kind)));
    assert!(matches!(
        &setup[..],
        [FsAction::MakeFifo { path, mode: 0o644 }] if path == "/tmp/fx/stream.fifo"
    ));
    assert_eq!(probes[0].args, strings(&["/tmp/fx/stream.fifo"]));
    assert!(matches!(&probes[0].check, PipeCheck::Expect(bytes) if bytes == b"chunk1\nchunk2\n"));
    let producer = probes[0].producer.as_ref().expect("producer");
    assert_eq!(
        producer.steps,
        vec![
            ProducerStep::Write(b"chunk1\n".to_vec()),
            ProducerStep::Sleep(50),
            ProducerStep::Write(b"chunk2\n".to_vec())
        ]
    );
}

#[test]
fn a_scripted_case_stays_scripted() {
    let h = harness();
    for script in [
        Script::HelpOutput,
        Script::VersionOutput,
        Script::HelpStdoutClosed,
        Script::BrokenPipe,
        Script::CommentPreservation,
    ] {
        assert!(matches!(
            plan_case(&h, &case(CaseKind::Scripted(script))),
            CasePlan::Scripted(s) if s == script
        ));
    }
}

#[test]
fn a_failed_change_is_reported_with_what_was_undertaken_and_where() {
    let fifo = FsAction::MakeFifo { path: "/tmp/fx/in.fifo".to_string(), mode: 0o600 };
    assert_eq!(
        action_failure(&fifo, "File exists"),
        "creating the named pipe /tmp/fx/in.fifo: File exists"
    );
    let write = FsAction::Write { path: "/tmp/fx/a".to_string(), content: b"x".to_vec() };
    assert_eq!(action_failure(&write, "denied"), "writing /tmp/fx/a: denied");
    let soft = FsAction::Symlink { target: "/t".to_string(), link: "/l".to_string() };
    assert_eq!(action_failure(&soft, "denied"), "linking /l to /t: denied");
    let hard = FsAction::HardLink { existing: "/e".to_string(), link: "/l".to_string() };
    assert_eq!(action_failure(&hard, "denied"), "linking /l to /e: denied");
    let dir = FsAction::MakeDir { path: "/d".to_string() };
    assert_eq!(action_failure(&dir, "denied"), "creating the directory /d: denied");
    let mode = FsAction::SetMode { path: "/m".to_string(), mode: 0 };
    assert_eq!(action_failure(&mode, "denied"), "setting the mode of /m: denied");
}
