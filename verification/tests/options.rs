use cat_conformance::fixtures::FixtureKey;
use cat_conformance::options::{option_has_long, option_has_short, pick_fixture_key};

fn opts(tokens: &[&str]) -> Vec<String> {
    tokens.iter().map(|t| t.to_string()).collect()
}

#[test]
fn short_flag_is_found_in_a_bundle() {
    assert!(option_has_short(&opts(&["-nbs"]), 'b'));
    assert!(!option_has_short(&opts(&["-nbs"]), 'E'));
}

#[test]
fn long_tokens_hold_no_short_flags() {
    assert!(!option_has_short(&opts(&["--number"]), 'n'));
    assert!(!option_has_short(&opts(&["-"]), '-'));
    assert!(!option_has_short(&opts(&[]), 'n'));
}

#[test]
fn long_flag_must_match_exactly() {
    assert!(option_has_long(&opts(&["-n", "--show-all"]), "--show-all"));
    assert!(!option_has_long(&opts(&["--show-all=1"]), "--show-all"));
}

#[test]
fn fixture_key_follows_the_priority_of_the_rules() {
    assert_eq!(pick_fixture_key(&opts(&[])), FixtureKey::SampleA);
    assert_eq!(pick_fixture_key(&opts(&["-E"])), FixtureKey::NoNewline);
    assert_eq!(pick_fixture_key(&opts(&["-n"])), FixtureKey::Blank);
    assert_eq!(pick_fixture_key(&opts(&["-nE"])), FixtureKey::Blank);
    assert_eq!(pick_fixture_key(&opts(&["-v", "-n"])), FixtureKey::Control);
    assert_eq!(pick_fixture_key(&opts(&["-T", "-v"])), FixtureKey::Tabs);
    assert_eq!(pick_fixture_key(&opts(&["-t"])), FixtureKey::Mixed);
    assert_eq!(pick_fixture_key(&opts(&["-T", "--show-all"])), FixtureKey::Mixed);
    assert_eq!(pick_fixture_key(&opts(&["--show-ends"])), FixtureKey::NoNewline);
}
