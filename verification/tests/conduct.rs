use cat_conformance::conduct::{conduct, Directive, Report, Sizes, Stage};

fn sizes(setup: usize, probes: usize, cleanup: usize) -> Sizes {
    Sizes { setup, probes, cleanup }
}

/// Carries a case through with the given reports, one for each directive
/// but the last, and returns the directives in order.
fn course(sizes: Sizes, reports: &[Report]) -> Vec<Directive> {
    let mut directives = Vec::new();
    let (mut stage, mut directive) = conduct(sizes, Stage::Ready, Report::Begin);
    for report in reports {
        directives.push(directive);
        (stage, directive) = conduct(sizes, stage, report.clone());
    }
    directives.push(directive);
    directives
}

fn failed(why: &str) -> Report {
    Report::Failed(why.to_string())
}

#[test]
fn everything_is_done_in_order_when_nothing_fails() {
    let done = vec![Report::Done; 5];
    assert_eq!(
        course(sizes(2, 2, 1), &done),
        vec![
            Directive::Prepare(0),
            Directive::Prepare(1),
            Directive::Compare(0),
            Directive::Compare(1),
            Directive::Restore(0),
            Directive::Finish(None),
        ]
    );
}

#[test]
fn an_empty_plan_passes_at_once() {
    assert_eq!(course(sizes(0, 0, 0), &[]), vec![Directive::Finish(None)]);
    assert_eq!(
        course(sizes(0, 1, 0), &[Report::Done]),
        vec![Directive::Compare(0), Directive::Finish(None)]
    );
}

#[test]
fn a_failed_preparation_ends_the_case_without_cleanup() {
    assert_eq!(
        course(sizes(2, 1, 1), &[Report::Done, failed("cannot write")]),
        vec![
            Directive::Prepare(0),
            Directive::Prepare(1),
            Directive::Finish(Some("cannot write".to_string())),
        ]
    );
}

#[test]
fn a_failed_comparison_skips_the_rest_but_not_the_cleanup() {
    assert_eq!(
        course(
            sizes(1, 3, 2),
            &[Report::Done, failed("output mismatch"), Report::Done, Report::Done]
        ),
        vec![
            Directive::Prepare(0),
            Directive::Compare(0),
            Directive::Restore(0),
            Directive::Restore(1),
            Directive::Finish(Some("output mismatch".to_string())),
        ]
    );
}

#[test]
fn a_failed_cleanup_ends_the_case_with_its_own_reason() {
    assert_eq!(
        course(sizes(0, 1, 2), &[failed("output mismatch"), failed("cannot chmod")]),
        vec![
            Directive::Compare(0),
            Directive::Restore(0),
            Directive::Finish(Some("cannot chmod".to_string())),
        ]
    );
    assert_eq!(
        course(sizes(0, 1, 1), &[Report::Done, failed("cannot chmod")]),
        vec![
            Directive::Compare(0),
            Directive::Restore(0),
            Directive::Finish(Some("cannot chmod".to_string())),
        ]
    );
}

#[test]
fn a_report_out_of_turn_ends_the_case() {
    let s = sizes(1, 1, 1);
    for (stage, report) in [
        (Stage::Ready, Report::Done),
        (Stage::Ready, failed("x")),
        (Stage::Preparing { at: 0 }, Report::Begin),
        (Stage::Comparing { at: 0 }, Report::Begin),
        (Stage::Restoring { at: 0, failure: None }, Report::Begin),
        (Stage::Over, Report::Begin),
        (Stage::Over, Report::Done),
    ] {
        assert_eq!(
            conduct(s, stage, report),
            (Stage::Over, Directive::Finish(Some("unexpected report".to_string())))
        );
    }
}
