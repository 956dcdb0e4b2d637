use cat_conformance::cases::{CaseKind, Shape, TestCase};
use cat_conformance::catalog::hand_written_cases;
use cat_conformance::compare::{advance, Action, Event, Mismatch, Outcome, Phase, Probe};
use cat_conformance::fixtures::{FixtureKey, Fixtures};
use cat_conformance::harness::Harness;
use cat_conformance::matrix::option_specs;
use cat_conformance::options::pick_fixture_key;
use cat_conformance::plan::{plan_case, CasePlan};
use cat_conformance::runner::{CmdOutput, Config, RunPlan, Stream};

const QUIET: Config = Config { verbose: false };

fn harness() -> Harness {
    Harness::new("/work", "/bin/cat".to_string(), Fixtures::new("/tmp/fx"))
}

fn strings(items: &[&str]) -> Vec<String> {
    items.iter().map(|t| t.to_string()).collect()
}

fn ok(stdout: Vec<u8>) -> CmdOutput {
    CmdOutput { code: Some(0), stdout, stderr: Vec::new() }
}

/// Carries a comparison through with two stand-ins for the programs. A run
/// into a file keeps its standard output in `files`.
fn drive(
    h: &Harness,
    probe: &Probe,
    subject: &dyn Fn(&RunPlan) -> CmdOutput,
    reference: &dyn Fn(&RunPlan) -> CmdOutput,
) -> (Outcome, Vec<RunPlan>) {
    let mut files: Vec<(String, Vec<u8>)> = Vec::new();
    let mut plans: Vec<RunPlan> = Vec::new();
    let mut step = advance(h, QUIET, probe, Phase::Idle, Event::Start);
    for _ in 0..9 {
        let (phase, action) = step;
        let event = match action {
            Action::Finish(outcome) => return (outcome, plans),
            Action::CreateOutputs => Event::Created {
                subject: "/tmp/fx/out.subject".to_string(),
                reference: "/tmp/fx/out.reference".to_string(),
            },
            Action::ReadBack(path) => {
                Event::Read(files.iter().find(|(p, _)| *p == path).unwrap().1.clone())
            }
            Action::Run(plan) => {
                let out =
                    if plan.program == h.wcat { subject(&plan) } else { reference(&plan) };
                let event = match &plan.stdout {
                    Stream::File(path) => {
                        files.push((path.clone(), out.stdout));
                        Event::Wrote(out.code)
                    }
                    _ => Event::Ran(out),
                };
                plans.push(plan);
                event
            }
        };
        step = advance(h, QUIET, probe, phase, event);
    }
    panic!("the comparison did not end");
}

fn only_probe(h: &Harness, case: &TestCase) -> Probe {
    match plan_case(h, case) {
        CasePlan::Compare { mut probes, .. } => {
            assert_eq!(probes.len(), 1);
            probes.remove(0)
        }
        CasePlan::Scripted(_) => panic!("expected a comparison"),
    }
}

fn hand_written(name: &str) -> TestCase {
    hand_written_cases().into_iter().find(|c| c.name == name).expect("case")
}

fn input_of(h: &Harness, plan: &RunPlan) -> Vec<u8> {
    match &plan.feed {
        Some(bytes) => bytes.clone(),
        None => {
            let path = plan.args.last().unwrap();
            h.fixtures.files().into_iter().find(|f| f.path == *path).unwrap().content
        }
    }
}

fn lines(input: &[u8]) -> Vec<&[u8]> {
    input.split_inclusive(|b| *b == b'\n').collect()
}

fn number_all(input: &[u8]) -> Vec<u8> {
    let mut out = Vec::new();
    for (i, line) in lines(input).iter().enumerate() {
        out.extend_from_slice(format!("{:6}\t", i + 1).as_bytes());
        out.extend_from_slice(line);
    }
    out
}

fn number_nonblank(input: &[u8]) -> Vec<u8> {
    let mut out = Vec::new();
    let mut n = 0;
    for line in lines(input) {
        if line != b"\n" {
            n += 1;
            out.extend_from_slice(format!("{:6}\t", n).as_bytes());
        }
        out.extend_from_slice(line);
    }
    out
}

fn squeeze(input: &[u8]) -> Vec<u8> {
    let mut out = Vec::new();
    let mut blank_before = false;
    for line in lines(input) {
        let blank = line == b"\n";
        if !(blank && blank_before) {
            out.extend_from_slice(line);
        }
        blank_before = blank;
    }
    out
}

#[test]
fn numbering_counts_blank_lines_too() {
    let h = harness();
    let probe = only_probe(&h, &hand_written("-n option"));
    assert_eq!(probe.args, strings(&["-n", "/tmp/fx/blank.txt"]));
    assert_eq!(h.fixtures.content(FixtureKey::Blank), b"one\n\n\nthree\n\n\n");
    let expected = b"     1\tone\n     2\t\n     3\t\n     4\tthree\n     5\t\n     6\t\n";
    assert_eq!(number_all(b"one\n\n\nthree\n\n\n"), expected);
    let faithful = |plan: &RunPlan| ok(number_all(&input_of(&h, plan)));
    let skips_blank = |plan: &RunPlan| ok(number_nonblank(&input_of(&h, plan)));
    assert!(matches!(drive(&h, &probe, &faithful, &faithful).0, Outcome::Pass));
    match drive(&h, &probe, &skips_blank, &faithful).0 {
        Outcome::Mismatch(Mismatch::Output { subject, reference, stdout_differs, .. }) => {
            assert!(stdout_differs);
            assert_eq!(reference.stdout, expected);
            assert_ne!(subject.stdout, expected);
        }
        _ => panic!("expected a difference"),
    }
}

#[test]
fn squeezing_collapses_runs_of_blank_lines() {
    let h = harness();
    let probe = only_probe(&h, &hand_written("-s option"));
    assert_eq!(probe.args, strings(&["-s", "/tmp/fx/blank.txt"]));
    assert_eq!(squeeze(b"one\n\n\nthree\n\n\n"), b"one\n\nthree\n\n");
    let faithful = |plan: &RunPlan| ok(squeeze(&input_of(&h, plan)));
    let passes_through = |plan: &RunPlan| ok(input_of(&h, plan));
    assert!(matches!(drive(&h, &probe, &faithful, &faithful).0, Outcome::Pass));
    assert!(matches!(
        drive(&h, &probe, &passes_through, &faithful).0,
        Outcome::Mismatch(Mismatch::Output { stdout_differs: true, .. })
    ));
}

#[test]
fn numbering_nonblank_leaves_blank_lines_bare() {
    let h = harness();
    let probe = only_probe(&h, &hand_written("stdin only newlines -b"));
    assert_eq!(probe.args, strings(&["-b", "-"]));
    let input = b"\ntwo\n\n";
    assert_eq!(number_nonblank(input), b"\n     1\ttwo\n\n");
    let custom = Probe { stdin: Some(input.to_vec()), ..probe };
    let faithful = |plan: &RunPlan| ok(number_nonblank(&input_of(&h, plan)));
    let numbers_all = |plan: &RunPlan| ok(number_all(&input_of(&h, plan)));
    assert!(matches!(drive(&h, &custom, &faithful, &faithful).0, Outcome::Pass));
    assert!(matches!(
        drive(&h, &custom, &numbers_all, &faithful).0,
        Outcome::Mismatch(Mismatch::Output { stdout_differs: true, .. })
    ));
}

#[test]
fn a_missing_file_is_reported_as_the_reference_reports_it() {
    let h = harness();
    let probe = only_probe(&h, &hand_written("missing file error"));
    assert_eq!(probe.args, strings(&["/tmp/fx/missing.txt"]));
    let complain = |plan: &RunPlan| {
        let name = plan.arg0.clone().unwrap_or_else(|| plan.program.clone());
        CmdOutput {
            code: Some(1),
            stdout: Vec::new(),
            stderr: format!("{}: {}: No such file or directory\n", name, plan.args[0]).into_bytes(),
        }
    };
    let (outcome, plans) = drive(&h, &probe, &complain, &complain);
    assert!(matches!(outcome, Outcome::Pass));
    assert_eq!(plans.len(), 4);
    assert_eq!(plans[0].program, "/work/wcat/wcat");
    assert_eq!(plans[0].arg0.as_deref(), Some("/bin/cat"));
    assert_eq!(plans[1].program, "/bin/cat");
    assert_eq!(plans[1].arg0, None);

    let own_name = |plan: &RunPlan| CmdOutput {
        code: Some(1),
        stdout: Vec::new(),
        stderr: format!("{}: {}: No such file or directory\n", plan.program, plan.args[0])
            .into_bytes(),
    };
    match drive(&h, &probe, &own_name, &complain).0 {
        Outcome::Mismatch(Mismatch::Output {
            subject,
            reference,
            stdout_differs,
            stderr_differs,
        }) => {
            assert!(!stdout_differs);
            assert!(stderr_differs);
            assert!(subject.stdout.is_empty());
            assert_eq!(subject.code, reference.code);
            assert_eq!(
                reference.stderr,
                b"/bin/cat: /tmp/fx/missing.txt: No such file or directory\n"
            );
        }
        _ => panic!("expected a difference"),
    }
    let succeeds = |_: &RunPlan| ok(Vec::new());
    assert!(matches!(
        drive(&h, &probe, &succeeds, &complain).0,
        Outcome::Mismatch(Mismatch::Output { stdout_differs: false, stderr_differs: true, .. })
    ));
}

#[test]
fn two_mebibytes_of_random_bytes_pass_through_in_both_modes() {
    let h = harness();
    let probe = only_probe(&h, &hand_written("binary passthrough pipe"));
    assert_eq!(probe.args, strings(&["-"]));
    let payload = probe.stdin.clone().expect("payload");
    assert_eq!(payload.len(), 2 * 1024 * 1024);
    assert!(payload.iter().any(|b| *b != 0));
    let identity = |plan: &RunPlan| ok(plan.feed.clone().unwrap());
    let (outcome, plans) = drive(&h, &probe, &identity, &identity);
    assert!(matches!(outcome, Outcome::Pass));
    assert_eq!(plans.len(), 4);
    assert!(plans.iter().all(|p| p.feed.as_deref() == Some(&payload[..])));
    assert_eq!(plans[0].stdout, Stream::Piped);
    assert_eq!(plans[1].stdout, Stream::Piped);
    assert_eq!(plans[2].stdout, Stream::File("/tmp/fx/out.subject".to_string()));
    assert_eq!(plans[3].stdout, Stream::File("/tmp/fx/out.reference".to_string()));

    let short_in_files = |plan: &RunPlan| {
        let mut bytes = plan.feed.clone().unwrap();
        if matches!(plan.stdout, Stream::File(_)) {
            bytes.pop();
        }
        ok(bytes)
    };
    assert!(matches!(
        drive(&h, &probe, &short_in_files, &identity).0,
        Outcome::Mismatch(Mismatch::File {
            subject_len: 2097151,
            reference_len: 2097152,
            subject_code: Some(0),
            reference_code: Some(0),
            ..
        })
    ));
}

#[test]
fn bytes_piped_without_flags_must_come_out_unchanged() {
    let h = harness();
    let case = TestCase {
        name: "identity".to_string(),
        kind: CaseKind::Matrix { shape: Shape::Stdin, opts: Vec::new() },
    };
    let base = only_probe(&h, &case);
    assert_eq!(base.args, strings(&["-"]));
    for payload in [&b""[..], &b"\x00"[..], &b"no newline"[..], &b"\xff\xfe\n\r\n\x80"[..]] {
        let probe = Probe {
            args: base.args.clone(),
            stdin: Some(payload.to_vec()),
            producer: None,
            check: only_probe(&h, &case).check,
        };
        let identity = |plan: &RunPlan| ok(plan.feed.clone().unwrap());
        let (outcome, plans) = drive(&h, &probe, &identity, &identity);
        assert!(matches!(outcome, Outcome::Pass));
        assert!(plans.iter().all(|p| p.feed.as_deref() == Some(payload)));
        let appends = |plan: &RunPlan| {
            let mut bytes = plan.feed.clone().unwrap();
            bytes.push(b'\n');
            ok(bytes)
        };
        assert!(matches!(
            drive(&h, &probe, &appends, &identity).0,
            Outcome::Mismatch(Mismatch::Output { stdout_differs: true, .. })
        ));
    }
}

#[test]
fn the_same_command_is_planned_the_same_way_twice() {
    let h = harness();
    let probe = only_probe(&h, &hand_written("-nET combo"));
    let faithful = |plan: &RunPlan| ok(plan.args.join(" ").into_bytes());
    let (first, plans_a) = drive(&h, &probe, &faithful, &faithful);
    let (second, plans_b) = drive(&h, &probe, &faithful, &faithful);
    assert!(matches!(first, Outcome::Pass));
    assert!(matches!(second, Outcome::Pass));
    assert_eq!(plans_a.len(), plans_b.len());
    for (a, b) in plans_a.iter().zip(plans_b.iter()) {
        assert_eq!(a.program, b.program);
        assert_eq!(a.arg0, b.arg0);
        assert_eq!(a.args, b.args);
        assert_eq!(a.feed, b.feed);
        assert_eq!(a.stdout, b.stdout);
        assert_eq!(a.steps, b.steps);
    }
}

#[test]
fn empty_input_must_give_empty_output_under_every_flag_combination() {
    let h = harness();
    let quiet = |_: &RunPlan| ok(Vec::new());
    let prints = |_: &RunPlan| ok(b"     1\t\n".to_vec());
    let fails = |_: &RunPlan| CmdOutput { code: Some(1), stdout: Vec::new(), stderr: Vec::new() };
    for spec in option_specs() {
        let mut args = spec.tokens.clone();
        args.push("-".to_string());
        let case = TestCase {
            name: spec.label.clone(),
            kind: CaseKind::Matrix { shape: Shape::Stdin, opts: spec.tokens.clone() },
        };
        let planned = only_probe(&h, &case);
        assert_eq!(planned.args, args);
        let probe = Probe { stdin: Some(Vec::new()), ..planned };
        assert!(matches!(drive(&h, &probe, &quiet, &quiet).0, Outcome::Pass));
        assert!(matches!(
            drive(&h, &probe, &prints, &quiet).0,
            Outcome::Mismatch(Mismatch::Output { stdout_differs: true, .. })
        ));
        assert!(matches!(
            drive(&h, &probe, &fails, &quiet).0,
            Outcome::Mismatch(Mismatch::Output { stdout_differs: false, stderr_differs: false, .. })
        ));
    }
}

#[test]
fn stdin_cases_feed_the_content_that_suits_the_flags() {
    let h = harness();
    for spec in option_specs().into_iter().take(40) {
        let case = TestCase {
            name: spec.label.clone(),
            kind: CaseKind::Matrix { shape: Shape::StdinFile, opts: spec.tokens.clone() },
        };
        let probe = only_probe(&h, &case);
        let key = pick_fixture_key(&spec.tokens);
        assert_eq!(probe.stdin, Some(h.fixtures.content(key)));
        assert_eq!(probe.args.last().map(String::as_str), Some("/tmp/fx/b.txt"));
    }
}
