use cat_conformance::fixtures::{
    child_path, control_bytes, numbered_lines_bytes, Artifact, FixtureKey, Fixtures, BINARY_LEN,
};
use cat_conformance::harness::{
    build_args_with_file, build_args_with_multi, build_args_with_specific_file,
    build_args_with_stdin, build_args_with_stdin_file, fixture_bytes, fixture_path, Harness,
};
use cat_conformance::random::random_bytes;

fn strings(items: &[&str]) -> Vec<String> {
    items.iter().map(|t| t.to_string()).collect()
}

fn harness() -> Harness {
    Harness::new("/work", "/bin/cat".to_string(), Fixtures::new("/tmp/fx"))
}

#[test]
fn child_path_joins_with_a_slash() {
    assert_eq!(child_path("/tmp/fx", "a.txt"), "/tmp/fx/a.txt");
    assert_eq!(child_path("/tmp/fx/adir", "--"), "/tmp/fx/adir/--");
}

#[test]
fn fixtures_lie_in_their_directory() {
    let fx = Fixtures::new("/tmp/fx");
    assert_eq!(fx.dir, "/tmp/fx");
    assert_eq!(fx.sample_a, "/tmp/fx/a.txt");
    assert_eq!(fx.sample_b, "/tmp/fx/b.txt");
    assert_eq!(fx.blank, "/tmp/fx/blank.txt");
    assert_eq!(fx.tabs, "/tmp/fx/tabs.txt");
    assert_eq!(fx.mixed, "/tmp/fx/mixed.txt");
    assert_eq!(fx.dash_name, "/tmp/fx/-dash.txt");
    assert_eq!(fx.option_like, "/tmp/fx/-n");
    assert_eq!(fx.dash_v_file, "/tmp/fx/-vfile.txt");
    assert_eq!(fx.empty, "/tmp/fx/empty.txt");
    assert_eq!(fx.no_newline, "/tmp/fx/no_newline.txt");
    assert_eq!(fx.large, "/tmp/fx/large.txt");
    assert_eq!(fx.huge, "/tmp/fx/huge.txt");
    assert_eq!(fx.control, "/tmp/fx/control.txt");
    assert_eq!(fx.binary, "/tmp/fx/binary.bin");
    assert_eq!(fx.dir_path, "/tmp/fx/adir");
    assert_eq!(fx.stdin_data, b"stdin data\n");
    assert_eq!(fx.stdin_mix, b"middle line\n");
    assert_eq!(fx.binary_data.len(), BINARY_LEN);
}

#[test]
fn fixture_contents_are_the_fixed_bytes() {
    let fx = Fixtures::new("/tmp/fx");
    assert_eq!(fx.content(FixtureKey::SampleA), b"alpha\n");
    assert_eq!(fx.content(FixtureKey::Blank), b"one\n\n\nthree\n\n\n");
    assert_eq!(fx.content(FixtureKey::Tabs), b"col1\tcol2\nline\t2\n");
    assert_eq!(fx.content(FixtureKey::Mixed), b"tab\t\x01\nline\t2\x7f\n");
    assert_eq!(
        fx.content(FixtureKey::Control),
        b"plain\ncontrol:\x01here\nesc:\x1bX\nmeta:\x80Y\n"
    );
    assert_eq!(fx.content(FixtureKey::NoNewline), b"no newline");
    assert_eq!(fx.content(FixtureKey::Binary), fx.binary_data);
    assert_eq!(control_bytes(), b"plain\ncontrol:\x01here\nesc:\x1bX\nmeta:\x80Y\n");
    assert_eq!(fx.artifact_bytes(Artifact::SampleB), b"beta\n");
    assert_eq!(fx.artifact_bytes(Artifact::DashName), b"dash file\n");
    assert_eq!(fx.artifact_bytes(Artifact::OptionLike), b"option-looking file\n");
    assert_eq!(fx.artifact_bytes(Artifact::DashVFile), b"dash-v data\n");
    assert_eq!(fx.artifact_bytes(Artifact::Empty), b"");
    assert_eq!(fx.artifact_bytes(Artifact::Subdir), b"");
}

#[test]
fn numbered_lines_count_from_one() {
    assert_eq!(numbered_lines_bytes(0), b"");
    assert_eq!(numbered_lines_bytes(3), b"line 1\nline 2\nline 3\n");
    let large = Fixtures::new("/x").artifact_bytes(Artifact::Large);
    let expected: String = (1..=3000).map(|i| format!("line {i}\n")).collect();
    assert_eq!(large, expected.as_bytes());
    let huge = Fixtures::new("/x").artifact_bytes(Artifact::Huge);
    let expected: String = (1..=1000).map(|i| format!("line {i}\n")).collect();
    assert_eq!(huge, expected.as_bytes());
}

#[test]
fn files_lists_every_file_with_its_content() {
    let fx = Fixtures::new("/tmp/fx");
    let files = fx.files();
    let names: Vec<&str> = files.iter().map(|f| f.path.as_str()).collect();
    assert_eq!(
        names,
        vec![
            "/tmp/fx/a.txt",
            "/tmp/fx/b.txt",
            "/tmp/fx/blank.txt",
            "/tmp/fx/tabs.txt",
            "/tmp/fx/mixed.txt",
            "/tmp/fx/-dash.txt",
            "/tmp/fx/-n",
            "/tmp/fx/-vfile.txt",
            "/tmp/fx/empty.txt",
            "/tmp/fx/no_newline.txt",
            "/tmp/fx/large.txt",
            "/tmp/fx/huge.txt",
            "/tmp/fx/control.txt",
            "/tmp/fx/binary.bin",
        ]
    );
    assert_eq!(files[0].content, b"alpha\n");
    assert_eq!(files[8].content, b"");
    assert_eq!(files[12].content, b"plain\ncontrol:\x01here\nesc:\x1bX\nmeta:\x80Y\n");
    assert_eq!(files[13].content, fx.binary_data);
}

#[test]
fn random_bytes_have_the_length_asked_for_and_are_not_left_blank() {
    assert_eq!(random_bytes(0).len(), 0);
    let bytes = random_bytes(512);
    assert_eq!(bytes.len(), 512);
    assert!(bytes.iter().any(|b| *b != 0));
    assert_ne!(random_bytes(64), random_bytes(64));
}

#[test]
fn harness_places_the_program_under_test_below_the_root() {
    let h = harness();
    assert_eq!(h.wcat, "/work/wcat/wcat");
    assert_eq!(h.cat, "/bin/cat");
    assert_eq!(h.fixtures.dir, "/tmp/fx");
}

#[test]
fn fixture_path_follows_the_key() {
    let h = harness();
    assert_eq!(fixture_path(&h, FixtureKey::SampleA), "/tmp/fx/a.txt");
    assert_eq!(fixture_path(&h, FixtureKey::Blank), "/tmp/fx/blank.txt");
    assert_eq!(fixture_path(&h, FixtureKey::Tabs), "/tmp/fx/tabs.txt");
    assert_eq!(fixture_path(&h, FixtureKey::Mixed), "/tmp/fx/mixed.txt");
    assert_eq!(fixture_path(&h, FixtureKey::Control), "/tmp/fx/control.txt");
    assert_eq!(fixture_path(&h, FixtureKey::NoNewline), "/tmp/fx/no_newline.txt");
    assert_eq!(fixture_path(&h, FixtureKey::Binary), "/tmp/fx/binary.bin");
    assert_eq!(fixture_bytes(&h, FixtureKey::Blank), b"one\n\n\nthree\n\n\n");
}

#[test]
fn argument_lists_of_the_four_shapes() {
    let h = harness();
    let opts = strings(&["-n", "-E"]);
    assert_eq!(build_args_with_file(&h, &opts), strings(&["-n", "-E", "/tmp/fx/blank.txt"]));
    assert_eq!(
        build_args_with_multi(&h, &opts),
        strings(&["-n", "-E", "/tmp/fx/blank.txt", "/tmp/fx/b.txt"])
    );
    assert_eq!(build_args_with_stdin(&opts), strings(&["-n", "-E", "-"]));
    assert_eq!(
        build_args_with_stdin_file(&h, &opts),
        strings(&["-n", "-E", "-", "/tmp/fx/b.txt"])
    );
    assert_eq!(
        build_args_with_specific_file(&h, &opts, FixtureKey::Binary),
        strings(&["-n", "-E", "/tmp/fx/binary.bin"])
    );
    assert_eq!(build_args_with_stdin(&[]), strings(&["-"]));
    assert_eq!(build_args_with_file(&h, &[]), strings(&["/tmp/fx/a.txt"]));
}
