use cat_conformance::cases::{CaseKind, Script, TestCase};
use cat_conformance::suite::{next_selected, Registry, SuiteRun};

fn case(name: &str) -> TestCase {
    TestCase { name: name.to_string(), kind: CaseKind::Scripted(Script::HelpOutput) }
}

fn registry(names: &[&str]) -> Registry {
    let mut registry = Registry::new();
    for name in names {
        assert!(registry.register(case(name)).is_ok());
    }
    registry
}

#[test]
fn registering_keeps_the_order() {
    let registry = registry(&["single file", "stdin only", "fifo streaming"]);
    assert_eq!(registry.len(), 3);
    assert_eq!(registry.get(0).unwrap().name, "single file");
    assert_eq!(registry.get(2).unwrap().name, "fifo streaming");
    assert!(registry.get(3).is_none());
    assert!(registry.has_name("stdin only"));
    assert!(!registry.has_name("stdin"));
}

#[test]
fn a_name_that_is_taken_is_turned_away() {
    let mut registry = registry(&["single file", "stdin only"]);
    let refused = registry.register(case("single file")).err().expect("duplicate");
    assert_eq!(refused.case.name, "single file");
    assert_eq!(registry.len(), 2);
    assert!(registry.register(case("Single file")).is_ok());
    assert_eq!(registry.len(), 3);
}

#[test]
fn register_all_stops_at_the_first_duplicate() {
    let mut registry = registry(&["a"]);
    let refused = registry
        .register_all(vec![case("b"), case("c"), case("b"), case("d")])
        .err()
        .expect("duplicate");
    assert_eq!(refused.case.name, "b");
    assert_eq!(registry.len(), 3);
    assert_eq!(registry.get(1).unwrap().name, "b");
    assert_eq!(registry.get(2).unwrap().name, "c");
    let mut registry = Registry::new();
    assert!(registry.register_all(vec![case("x"), case("y")]).is_ok());
    assert_eq!(registry.len(), 2);
    assert_eq!(registry.get(0).unwrap().name, "x");
}

#[test]
fn next_selected_skips_what_the_filter_does_not_hold() {
    let registry = registry(&["-n option", "fifo plain", "-E option", "fifo stream"]);
    let fifo = Some("fifo".to_string());
    assert_eq!(next_selected(&registry, &fifo, 0), Some(1));
    assert_eq!(next_selected(&registry, &fifo, 1), Some(1));
    assert_eq!(next_selected(&registry, &fifo, 2), Some(3));
    assert_eq!(next_selected(&registry, &fifo, 4), None);
    assert_eq!(next_selected(&registry, &None, 0), Some(0));
    assert_eq!(next_selected(&registry, &None, 4), None);
    assert_eq!(next_selected(&registry, &Some("nothing".to_string()), 0), None);
    assert_eq!(next_selected(&registry, &Some(String::new()), 2), Some(2));
}

#[test]
fn a_run_without_filter_hands_out_every_case_in_order() {
    let mut run = SuiteRun::new(registry(&["a", "b", "c"]), None);
    assert_eq!(run.total(), 3);
    assert!(!run.is_filtered());
    assert_eq!(run.announce(0).as_deref(), Some("[RUN ] a"));
    assert_eq!(run.announce(3), None);
    assert_eq!(run.next(), Some(0));
    assert_eq!(run.next(), Some(0));
    assert_eq!(run.record(None), "[PASS] a");
    assert_eq!(run.next(), Some(1));
    assert_eq!(run.record(Some("output mismatch".to_string())), "[FAIL] b: output mismatch");
    assert_eq!(run.next(), Some(2));
    assert_eq!(run.record(None), "[PASS] c");
    assert_eq!(run.next(), None);
    assert_eq!(run.next(), None);
    assert_eq!(run.ran_count(), 3);
    assert_eq!(run.passed_count(), 2);
    assert_eq!(run.summary(), "\n2/3 tests executed.");
    assert!(!run.succeeded());
}

#[test]
fn a_run_in_which_all_pass_succeeds() {
    let mut run = SuiteRun::new(registry(&["a", "b"]), None);
    while let Some(_) = run.next() {
        run.record(None);
    }
    assert_eq!(run.summary(), "\n2/2 tests executed.");
    assert!(run.succeeded());
}

#[test]
fn a_filtered_run_counts_against_all_cases_and_never_fails() {
    let names = ["-n option", "fifo plain", "-E option", "fifo stream"];
    let mut run = SuiteRun::new(registry(&names), Some("fifo".to_string()));
    assert!(run.is_filtered());
    assert_eq!(run.next(), Some(1));
    assert_eq!(run.record(Some("boom".to_string())), "[FAIL] fifo plain: boom");
    assert_eq!(run.next(), Some(3));
    assert_eq!(run.record(None), "[PASS] fifo stream");
    assert_eq!(run.next(), None);
    assert_eq!(run.ran_count(), 2);
    assert_eq!(run.passed_count(), 1);
    assert_eq!(run.summary(), "\n1/4 tests executed (filtered).");
    assert!(run.succeeded());
}

#[test]
fn an_outcome_that_nobody_waits_for_is_not_counted() {
    let mut run = SuiteRun::new(registry(&["a"]), None);
    assert_eq!(run.record(None), "");
    assert_eq!(run.passed_count(), 0);
    assert_eq!(run.next(), Some(0));
    assert_eq!(run.record(None), "[PASS] a");
    assert_eq!(run.record(None), "");
    assert_eq!(run.passed_count(), 1);
    assert_eq!(run.case(0).unwrap().name, "a");
    assert!(run.case(1).is_none());
}

#[test]
fn an_empty_run_succeeds() {
    let mut run = SuiteRun::new(Registry::new(), None);
    assert_eq!(run.next(), None);
    assert_eq!(run.summary(), "\n0/0 tests executed.");
    assert!(run.succeeded());
}
