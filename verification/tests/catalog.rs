use cat_conformance::cases::{CaseKind, Invocation, Payload, Place, Script, Setup, Spot, Token};
use cat_conformance::catalog::{all_cases, full_registry, hand_written_cases, HAND_WRITTEN};
use cat_conformance::fixtures::Artifact;
use cat_conformance::suite::Registry;

fn lit(text: &str) -> Token {
    Token::Lit(text.to_string())
}

fn file(artifact: Artifact) -> Token {
    Token::At(Place::Artifact(artifact))
}

#[test]
fn the_catalog_has_its_cases_in_order() {
    let cases = hand_written_cases();
    assert_eq!(cases.len(), HAND_WRITTEN);
    assert_eq!(cases.len(), 281);
    assert_eq!(cases[0].name, "single file");
    assert_eq!(cases[1].name, "multiple files");
    assert_eq!(cases[280].name, "process asm keeps comment-only lines");
    assert!(cases.iter().all(|c| !matches!(c.kind, CaseKind::Matrix { .. })));
}

#[test]
fn plain_cases_compare_on_one_command() {
    let cases = hand_written_cases();
    let case = cases.iter().find(|c| c.name == "dash operand").unwrap();
    assert_eq!(
        case.kind,
        CaseKind::Compare {
            setup: Vec::new(),
            runs: vec![Invocation {
                args: vec![file(Artifact::SampleA), lit("-"), file(Artifact::SampleB)],
                stdin: Some(Payload::StdinMix),
            }],
            cleanup: Vec::new(),
        }
    );
    let case = cases.iter().find(|c| c.name == "stdin empty").unwrap();
    assert_eq!(
        case.kind,
        CaseKind::Compare {
            setup: Vec::new(),
            runs: vec![Invocation {
                args: vec![lit("-")],
                stdin: Some(Payload::Bytes(Vec::new()))
            }],
            cleanup: Vec::new(),
        }
    );
    let case = cases.iter().find(|c| c.name == "dev null operand").unwrap();
    assert_eq!(
        case.kind,
        CaseKind::Compare {
            setup: Vec::new(),
            runs: vec![Invocation { args: vec![lit("/dev/null")], stdin: None }],
            cleanup: Vec::new(),
        }
    );
}

#[test]
fn prepared_cases_write_their_files_below_the_fixture_directory() {
    let cases = hand_written_cases();
    let case = cases.iter().find(|c| c.name == "visible 0xFF").unwrap();
    assert_eq!(
        case.kind,
        CaseKind::Compare {
            setup: vec![Setup::Write {
                at: Spot::InDir("ff.txt".to_string()),
                content: Payload::Bytes(b"ff:\xff!\n".to_vec()),
            }],
            runs: vec![Invocation {
                args: vec![lit("-v"), Token::At(Place::Own(Spot::InDir("ff.txt".to_string())))],
                stdin: None,
            }],
            cleanup: Vec::new(),
        }
    );
    let case = cases.iter().find(|c| c.name == "crlf file -E").unwrap();
    match &case.kind {
        CaseKind::Compare { setup, .. } => assert_eq!(
            setup,
            &vec![Setup::Write {
                at: Spot::InDir("crlf_e.txt".to_string()),
                content: Payload::Bytes(b"one\\r\\ntwo\\r\\n".to_vec()),
            }]
        ),
        _ => panic!("expected a comparison"),
    }
    let case = cases.iter().find(|c| c.name == "multiple -- markers").unwrap();
    match &case.kind {
        CaseKind::Compare { setup, runs, .. } => {
            assert_eq!(
                setup,
                &vec![Setup::Write {
                    at: Spot::InSubdir("--".to_string()),
                    content: Payload::Bytes(b"double dash file\n".to_vec()),
                }]
            );
            assert_eq!(
                runs[0].args,
                vec![
                    lit("--"),
                    file(Artifact::SampleA),
                    Token::At(Place::Own(Spot::InSubdir("--".to_string()))),
                    file(Artifact::SampleB)
                ]
            );
        }
        _ => panic!("expected a comparison"),
    }
}

#[test]
fn no_case_writes_over_an_artifact() {
    let taken = [
        "a.txt",
        "b.txt",
        "blank.txt",
        "tabs.txt",
        "mixed.txt",
        "-dash.txt",
        "-n",
        "-vfile.txt",
        "empty.txt",
        "no_newline.txt",
        "large.txt",
        "huge.txt",
        "control.txt",
        "binary.bin",
        "adir",
    ];
    let free = |spot: &Spot| match spot {
        Spot::InDir(name) => !taken.contains(&name.as_str()),
        Spot::InSubdir(_) => true,
    };
    for case in hand_written_cases() {
        match &case.kind {
            CaseKind::Compare { setup, cleanup, .. } => {
                for step in setup.iter().chain(cleanup.iter()) {
                    let spot = match step {
                        Setup::Write { at, .. } => at,
                        Setup::Symlink { link, .. } => link,
                        Setup::HardLink { link, .. } => link,
                        Setup::MakeDir(at) => at,
                        Setup::SetMode { at, .. } => at,
                    };
                    assert!(free(spot), "{} touches {:?}", case.name, spot);
                }
            }
            CaseKind::Fifo { fifo, .. } | CaseKind::Stream { fifo, .. } => assert!(free(fifo)),
            _ => {}
        }
    }
}

#[test]
fn special_cases_are_described_in_full() {
    let cases = hand_written_cases();
    let by_name = |name: &str| cases.iter().find(|c| c.name == name).unwrap().kind.clone();
    assert_eq!(
        by_name("fifo streaming"),
        CaseKind::Stream {
            fifo: Spot::InDir("stream.fifo".to_string()),
            mode: 0o644,
            chunks: vec![b"chunk1\n".to_vec(), b"chunk2\n".to_vec()],
            delay: 50,
        }
    );
    assert_eq!(
        by_name("fifo decorated -vE"),
        CaseKind::Fifo {
            fifo: Spot::InSubdir("decorated.fifo".to_string()),
            mode: 0o700,
            flags: vec!["-vE".to_string()],
            payload: Payload::Bytes(b"line1\n\nline2\tend\n".to_vec()),
            label: "fifo decorated".to_string(),
        }
    );
    assert_eq!(
        by_name("plain stdout fifo fast path"),
        CaseKind::Fifo {
            fifo: Spot::InDir("plain_out.fifo".to_string()),
            mode: 0o644,
            flags: Vec::new(),
            payload: Payload::Content(Artifact::Large),
            label: "fifo plain".to_string(),
        }
    );
    assert_eq!(by_name("--help switch"), CaseKind::Scripted(Script::HelpOutput));
    assert_eq!(by_name("--version switch"), CaseKind::Scripted(Script::VersionOutput));
    assert_eq!(by_name("--help stdout closed"), CaseKind::Scripted(Script::HelpStdoutClosed));
    assert_eq!(by_name("broken pipe write error"), CaseKind::Scripted(Script::BrokenPipe));
    assert_eq!(
        by_name("binary passthrough pipe"),
        CaseKind::Compare {
            setup: Vec::new(),
            runs: vec![Invocation {
                args: vec![lit("-")],
                stdin: Some(Payload::Random(2 * 1024 * 1024))
            }],
            cleanup: Vec::new(),
        }
    );
    match by_name("very long path ENAMETOOLONG") {
        CaseKind::Compare { runs, .. } => match &runs[0].args[..] {
            [Token::At(Place::Own(Spot::InSubdir(name)))] => {
                assert_eq!(name.len(), 5000);
                assert!(name.chars().all(|c| c == 'a'));
            }
            _ => panic!("expected one operand in the subdirectory"),
        },
        _ => panic!("expected a comparison"),
    }
    match by_name("large line numbers") {
        CaseKind::Compare { setup, .. } => assert_eq!(
            setup,
            vec![Setup::Write {
                at: Spot::InDir("million_lines.txt".to_string()),
                content: Payload::Repeated { unit: b"x\n".to_vec(), times: 1_000_005 },
            }]
        ),
        _ => panic!("expected a comparison"),
    }
    match by_name("ENOENT vs EACCES messaging") {
        CaseKind::Compare { setup, runs, cleanup } => {
            assert_eq!(setup.len(), 2);
            assert_eq!(runs.len(), 2);
            assert_eq!(
                cleanup,
                vec![Setup::SetMode { at: Spot::InSubdir("locked.txt".to_string()), mode: 0o600 }]
            );
        }
        _ => panic!("expected a comparison"),
    }
    match by_name("long options") {
        CaseKind::Compare { runs, .. } => {
            assert_eq!(runs.len(), 7);
            assert_eq!(runs[6].args, vec![lit("--show-all"), file(Artifact::Control)]);
        }
        _ => panic!("expected a comparison"),
    }
}

#[test]
fn all_names_are_distinct_so_every_case_can_be_registered() {
    let cases = all_cases();
    assert_eq!(cases.len(), 281 + 4 * 651 + 9);
    assert_eq!(cases[280].name, "process asm keeps comment-only lines");
    assert_eq!(cases[281].name, "matrix file no options");
    let mut registry = Registry::new();
    assert!(registry.register_all(cases).is_ok());
    assert_eq!(registry.len(), 281 + 4 * 651 + 9);
}

#[test]
fn no_hand_written_name_stands_twice_or_begins_like_a_generated_one() {
    let cases = hand_written_cases();
    for (i, case) in cases.iter().enumerate() {
        assert!(!case.name.starts_with("matrix "), "{:?}", case.name);
        assert!(cases[..i].iter().all(|earlier| earlier.name != case.name), "{:?}", case.name);
    }
}

#[test]
fn the_full_registry_holds_every_case_in_order() {
    let registry = full_registry();
    let cases = all_cases();
    assert_eq!(registry.len(), cases.len());
    for (index, case) in cases.iter().enumerate() {
        assert_eq!(registry.get(index), Some(case));
    }
    assert!(registry.get(cases.len()).is_none());
    assert!(registry.has_name("single file"));
    assert!(registry.has_name("matrix stdin+file short bundled -nbsETvuA"));
    assert!(!registry.has_name("matrix"));
}
