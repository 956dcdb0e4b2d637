use cat_conformance::cases::{CaseKind, Shape, TestCase};
use cat_conformance::generated::add_matrix_cases;
use cat_conformance::matrix::option_specs;
use cat_conformance::record::{push_spec, OptionSpec};
use cat_conformance::options::pick_fixture_key;

fn strings(items: &[&str]) -> Vec<String> {
    items.iter().map(|t| t.to_string()).collect()
}

fn find<'a>(specs: &'a [OptionSpec], tokens: &[&str]) -> Option<&'a OptionSpec> {
    specs.iter().find(|s| s.tokens == strings(tokens))
}

#[test]
fn matrix_starts_with_no_options_and_the_first_subsets() {
    let specs = option_specs();
    assert_eq!(specs[0].label, "no options");
    assert!(specs[0].tokens.is_empty());
    assert_eq!(specs[1].label, "short bundled -n");
    assert_eq!(specs[1].tokens, strings(&["-n"]));
    assert_eq!(specs[2].label, "short bundled -b");
    assert_eq!(specs[3].label, "short bundled -nb");
    assert_eq!(specs[3].tokens, strings(&["-nb"]));
    assert_eq!(specs[4].label, "short separate -n -b");
    assert_eq!(specs[4].tokens, strings(&["-n", "-b"]));
}

#[test]
fn matrix_has_every_candidate_once() {
    let specs = option_specs();
    // 1 without flags, 255 bundles, 247 separated forms, 14 extra short
    // sequences, 127 long subsets, and the 7 ordered pairs that no subset
    // puts forward.
    assert_eq!(specs.len(), 1 + 255 + 247 + 14 + 127 + 7);
    for (i, a) in specs.iter().enumerate() {
        for b in specs.iter().skip(i + 1) {
            assert_ne!(a.tokens, b.tokens);
        }
    }
}

#[test]
fn matrix_holds_the_full_bundle_in_alphabet_order() {
    let specs = option_specs();
    let full = find(&specs, &["-nbsETvuA"]).expect("full bundle");
    assert_eq!(full.label, "short bundled -nbsETvuA");
    let separate =
        find(&specs, &["-n", "-b", "-s", "-E", "-T", "-v", "-u", "-A"]).expect("separate");
    assert_eq!(separate.label, "short separate -n -b -s -E -T -v -u -A");
}

#[test]
fn matrix_keeps_order_apart() {
    let specs = option_specs();
    let forward = find(&specs, &["-n", "-b"]).expect("forward");
    let backward = find(&specs, &["-b", "-n"]).expect("backward");
    assert_eq!(forward.label, "short separate -n -b");
    assert_eq!(backward.label, "order -b -n");
    assert!(find(&specs, &["--number-nonblank", "--number"]).is_some());
    assert_eq!(
        find(&specs, &["--number", "--number-nonblank"]).unwrap().label,
        "long --number --number-nonblank"
    );
}

#[test]
fn matrix_holds_the_long_subsets_and_the_extras() {
    let specs = option_specs();
    assert_eq!(find(&specs, &["--show-all"]).unwrap().label, "long --show-all");
    assert_eq!(
        find(
            &specs,
            &[
                "--number",
                "--number-nonblank",
                "--squeeze-blank",
                "--show-ends",
                "--show-tabs",
                "--show-nonprinting",
                "--show-all"
            ]
        )
        .unwrap()
        .label,
        "long --number --number-nonblank --squeeze-blank --show-ends --show-tabs \
         --show-nonprinting --show-all"
    );
    assert_eq!(find(&specs, &["-e"]).unwrap().label, "short extra -e");
    assert_eq!(find(&specs, &["-t", "-s", "-b"]).unwrap().label, "short extra -t -s -b");
}

#[test]
fn first_registration_wins() {
    let mut specs: Vec<OptionSpec> = Vec::new();
    push_spec(&mut specs, "first".to_string(), strings(&["-n", "-b"]));
    push_spec(&mut specs, "second".to_string(), strings(&["-n", "-b"]));
    push_spec(&mut specs, "third".to_string(), strings(&["-b", "-n"]));
    assert_eq!(specs.len(), 2);
    assert_eq!(specs[0].label, "first");
    assert_eq!(specs[1].label, "third");
}

#[test]
fn bundled_and_separated_forms_share_letters_and_fixture() {
    let specs = option_specs();
    let bundles: Vec<&OptionSpec> =
        specs.iter().filter(|s| s.label.starts_with("short bundled ")).collect();
    assert_eq!(bundles.len(), 255);
    for bundle in bundles {
        let letters: Vec<char> = bundle.tokens[0].chars().skip(1).collect();
        if letters.len() < 2 {
            continue;
        }
        let tokens: Vec<String> = letters.iter().map(|c| format!("-{c}")).collect();
        let separate = specs.iter().find(|s| s.tokens == tokens).expect("separated form");
        assert_eq!(pick_fixture_key(&bundle.tokens), pick_fixture_key(&separate.tokens));
    }
}

#[test]
fn four_cases_per_entry_then_the_binary_cases() {
    let mut cases: Vec<TestCase> = Vec::new();
    add_matrix_cases(&mut cases);
    assert_eq!(cases.len(), 4 * 651 + 9);
    assert_eq!(cases[0].name, "matrix file no options");
    assert_eq!(cases[1].name, "matrix multi no options");
    assert_eq!(cases[2].name, "matrix stdin no options");
    assert_eq!(cases[3].name, "matrix stdin+file no options");
    assert_eq!(cases[4].name, "matrix file short bundled -n");
    assert_eq!(
        cases[4].kind,
        CaseKind::Matrix { shape: Shape::File, opts: strings(&["-n"]) }
    );
    assert_eq!(
        cases[7].kind,
        CaseKind::Matrix { shape: Shape::StdinFile, opts: strings(&["-n"]) }
    );
    let binary = &cases[4 * 651..];
    assert_eq!(binary[0].name, "matrix binary ");
    assert_eq!(binary[0].kind, CaseKind::Matrix { shape: Shape::Binary, opts: Vec::new() });
    assert_eq!(binary[1].name, "matrix binary -v");
    assert_eq!(binary[8].name, "matrix binary --show-tabs");
    assert_eq!(
        binary[5].kind,
        CaseKind::Matrix { shape: Shape::Binary, opts: strings(&["--show-nonprinting"]) }
    );
}

#[test]
fn add_matrix_cases_keeps_what_is_there() {
    let mut cases = vec![TestCase {
        name: "mine".to_string(),
        kind: CaseKind::Matrix { shape: Shape::File, opts: Vec::new() },
    }];
    add_matrix_cases(&mut cases);
    assert_eq!(cases.len(), 1 + 4 * 651 + 9);
    assert_eq!(cases[0].name, "mine");
    assert_eq!(cases[1].name, "matrix file no options");
}
