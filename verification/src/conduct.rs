//! Carrying a planned case through: the changes that prepare it, the
//! comparisons, and the changes that put things back.
//!
//! The changes that prepare a case are made in order, and the first that
//! fails ends the case at once. The comparisons are made in order up to the
//! first that does not pass. Once the case is prepared, the changes that
//! put things back are all attempted in order, whatever the comparisons
//! gave; if one of them fails, the case ends with that failure.

use vstd::prelude::*;

verus! {

/// How far a case has come.
#[derive(Clone, Debug, PartialEq, Eq)]
pub enum Stage {
    /// Nothing has been done.
    Ready,
    /// The change at this position of the preparation is being made.
    Preparing { at: usize },
    /// The comparison at this position is being made.
    Comparing { at: usize },
    /// The change at this position of the cleanup is being made; `failure`
    /// is what the comparisons gave.
    Restoring { at: usize, failure: Option<String> },
    /// The case has ended.
    Over,
}

/// What the caller reports back.
#[derive(Clone, Debug, PartialEq, Eq)]
pub enum Report {
    /// The case is to begin.
    Begin,
    /// What was asked for was done.
    Done,
    /// What was asked for failed or, for a comparison, found a
    /// difference; this is why.
    Failed(String),
}

/// What the caller is to do next.
#[derive(Clone, Debug, PartialEq, Eq)]
pub enum Directive {
    /// Make the change at this position of the preparation.
    Prepare(usize),
    /// Make the comparison at this position.
    Compare(usize),
    /// Make the change at this position of the cleanup.
    Restore(usize),
    /// Stop: the case passed, or failed for this reason.
    Finish(Option<String>),
}

/// The sizes of the three parts of a planned case.
#[derive(Clone, Copy, Debug, PartialEq, Eq, Structural)]
pub struct Sizes {
    pub setup: usize,
    pub probes: usize,
    pub cleanup: usize,
}

/// A stage, by what it holds.
pub enum StageModel {
    Ready,
    Preparing { at: usize },
    Comparing { at: usize },
    Restoring { at: usize, failure: Option<Seq<char>> },
    Over,
}

/// A report, by what it holds.
pub enum ReportModel {
    Begin,
    Done,
    Failed(Seq<char>),
}

impl View for Report {
    type V = ReportModel;

    open spec fn view(&self) -> ReportModel {
        match *self {
            Report::Begin => ReportModel::Begin,
            Report::Done => ReportModel::Done,
            Report::Failed(reason) => ReportModel::Failed(reason@),
        }
    }
}

/// A directive, by what it holds.
pub enum DirectiveModel {
    Prepare(usize),
    Compare(usize),
    Restore(usize),
    Finish(Option<Seq<char>>),
}

/// The view of an optional reason.
pub open spec fn why(reason: Option<String>) -> Option<Seq<char>> {
    match reason {
        Some(text) => Some(text@),
        None => None,
    }
}

impl View for Stage {
    type V = StageModel;

    open spec fn view(&self) -> StageModel {
        match *self {
            Stage::Ready => StageModel::Ready,
            Stage::Preparing { at } => StageModel::Preparing { at },
            Stage::Comparing { at } => StageModel::Comparing { at },
            Stage::Restoring { at, failure } => StageModel::Restoring { at, failure: why(failure) },
            Stage::Over => StageModel::Over,
        }
    }
}

impl View for Directive {
    type V = DirectiveModel;

    open spec fn view(&self) -> DirectiveModel {
        match *self {
            Directive::Prepare(at) => DirectiveModel::Prepare(at),
            Directive::Compare(at) => DirectiveModel::Compare(at),
            Directive::Restore(at) => DirectiveModel::Restore(at),
            Directive::Finish(reason) => DirectiveModel::Finish(why(reason)),
        }
    }
}

/// Where a case goes once its preparation is complete: to the first
/// comparison, or to the cleanup if there is none.
pub open spec fn compare_from(sizes: Sizes, at: int) -> (StageModel, DirectiveModel) {
    if at < sizes.probes {
        (StageModel::Comparing { at: at as usize }, DirectiveModel::Compare(at as usize))
    } else {
        restore_from(sizes, 0, None)
    }
}

/// Where a case goes within its cleanup: to the change at `at`, or to its
/// end if the cleanup is through.
pub open spec fn restore_from(sizes: Sizes, at: int, failure: Option<Seq<char>>) -> (
    StageModel,
    DirectiveModel,
) {
    if at < sizes.cleanup {
        (StageModel::Restoring { at: at as usize, failure }, DirectiveModel::Restore(at as usize))
    } else {
        (StageModel::Over, DirectiveModel::Finish(failure))
    }
}

/// Where a case goes within its preparation: to the change at `at`, or on
/// to the comparisons if the preparation is through.
pub open spec fn prepare_from(sizes: Sizes, at: int) -> (StageModel, DirectiveModel) {
    if at < sizes.setup {
        (StageModel::Preparing { at: at as usize }, DirectiveModel::Prepare(at as usize))
    } else {
        compare_from(sizes, 0)
    }
}

/// The end of a case that was handed a report out of turn.
pub open spec fn misconducted() -> (StageModel, DirectiveModel) {
    (StageModel::Over, DirectiveModel::Finish(Some("unexpected report"@)))
}

/// The rule of a case: the stage and the directive that follow from a
/// stage on a report. A report that the stage does not wait for ends the
/// case as failed.
pub open spec fn conducted(sizes: Sizes, stage: StageModel, report: ReportModel) -> (
    StageModel,
    DirectiveModel,
) {
    match (stage, report) {
        (StageModel::Ready, ReportModel::Begin) => prepare_from(sizes, 0),
        (StageModel::Preparing { at }, ReportModel::Done) => prepare_from(sizes, at + 1),
        (StageModel::Preparing { .. }, ReportModel::Failed(reason)) => (
            StageModel::Over,
            DirectiveModel::Finish(Some(reason)),
        ),
        (StageModel::Comparing { at }, ReportModel::Done) => compare_from(sizes, at + 1),
        (StageModel::Comparing { .. }, ReportModel::Failed(reason)) => restore_from(
            sizes,
            0,
            Some(reason),
        ),
        (StageModel::Restoring { at, failure }, ReportModel::Done) => restore_from(
            sizes,
            at + 1,
            failure,
        ),
        (StageModel::Restoring { .. }, ReportModel::Failed(reason)) => (
            StageModel::Over,
            DirectiveModel::Finish(Some(reason)),
        ),
        _ => misconducted(),
    }
}

/// Goes to the change at `at` of the cleanup, or ends the case.
fn restore(sizes: Sizes, at: usize, failure: Option<String>) -> (step: (Stage, Directive))
    ensures
        (step.0@, step.1@) == restore_from(sizes, at as int, why(failure)),
{
    if at < sizes.cleanup {
        (Stage::Restoring { at, failure }, Directive::Restore(at))
    } else {
        (Stage::Over, Directive::Finish(failure))
    }
}

/// Goes to the comparison at `at`, or on to the cleanup.
fn compare(sizes: Sizes, at: usize) -> (step: (Stage, Directive))
    ensures
        (step.0@, step.1@) == compare_from(sizes, at as int),
{
    if at < sizes.probes {
        (Stage::Comparing { at }, Directive::Compare(at))
    } else {
        restore(sizes, 0, None)
    }
}

/// Goes to the change at `at` of the preparation, or on to the comparisons.
fn prepare(sizes: Sizes, at: usize) -> (step: (Stage, Directive))
    ensures
        (step.0@, step.1@) == prepare_from(sizes, at as int),
{
    if at < sizes.setup {
        (Stage::Preparing { at }, Directive::Prepare(at))
    } else {
        compare(sizes, 0)
    }
}

/// Ends a case that was handed a report out of turn.
fn misused() -> (step: (Stage, Directive))
    ensures
        (step.0@, step.1@) == misconducted(),
{
    (Stage::Over, Directive::Finish(Some("unexpected report".to_string())))
}

/// Takes a case one step further: from the stage reached and what the
/// caller reports to the next stage and what to do next.
pub fn conduct(sizes: Sizes, stage: Stage, report: Report) -> (step: (Stage, Directive))
    ensures
        (step.0@, step.1@) == conducted(sizes, stage@, report@),
{
    match (stage, report) {
        (Stage::Ready, Report::Begin) => prepare(sizes, 0),
        (Stage::Preparing { at }, Report::Done) => {
            if at < sizes.setup {
                prepare(sizes, at + 1)
            } else {
                compare(sizes, 0)
            }
        },
        (Stage::Preparing { .. }, Report::Failed(reason)) => {
            (Stage::Over, Directive::Finish(Some(reason)))
        },
        (Stage::Comparing { at }, Report::Done) => {
            if at < sizes.probes {
                compare(sizes, at + 1)
            } else {
                restore(sizes, 0, None)
            }
        },
        (Stage::Comparing { .. }, Report::Failed(reason)) => restore(sizes, 0, Some(reason)),
        (Stage::Restoring { at, failure }, Report::Done) => {
            if at < sizes.cleanup {
                restore(sizes, at + 1, failure)
            } else {
                (Stage::Over, Directive::Finish(failure))
            }
        },
        (Stage::Restoring { .. }, Report::Failed(reason)) => {
            (Stage::Over, Directive::Finish(Some(reason)))
        },
        _ => misused(),
    }
}


/// How many steps a case can still take from `stage`.
pub open spec fn steps_left(sizes: Sizes, stage: StageModel) -> int {
    match stage {
        StageModel::Ready => sizes.setup + sizes.probes + sizes.cleanup + 1,
        StageModel::Preparing { at } => sizes.setup - at + sizes.probes + sizes.cleanup,
        StageModel::Comparing { at } => sizes.probes - at + sizes.cleanup,
        StageModel::Restoring { at, .. } => sizes.cleanup - at,
        StageModel::Over => 0,
    }
}

/// The position at which a stage works lies within its part of the plan.
pub open spec fn in_range(sizes: Sizes, stage: StageModel) -> bool {
    match stage {
        StageModel::Preparing { at } => at < sizes.setup,
        StageModel::Comparing { at } => at < sizes.probes,
        StageModel::Restoring { at, .. } => at < sizes.cleanup,
        _ => true,
    }
}

/// Every step brings a case nearer to its end, and a case that has ended
/// stays ended. The positions that are handed out lie within the plan.
pub proof fn lemma_conduct_ends(sizes: Sizes, stage: StageModel, report: ReportModel)
    requires
        in_range(sizes, stage),
    ensures
        in_range(sizes, conducted(sizes, stage, report).0),
        stage !is Over ==> steps_left(sizes, conducted(sizes, stage, report).0) < steps_left(
            sizes,
            stage,
        ),
        stage is Over ==> conducted(sizes, stage, report).0 is Over,
        conducted(sizes, stage, report).0 is Over <==> conducted(sizes, stage, report).1 is Finish,
        match conducted(sizes, stage, report).1 {
            DirectiveModel::Prepare(at) => at < sizes.setup,
            DirectiveModel::Compare(at) => at < sizes.probes,
            DirectiveModel::Restore(at) => at < sizes.cleanup,
            DirectiveModel::Finish(_) => true,
        },
{
}

/// Once a case is prepared, its cleanup is attempted whatever the
/// comparisons give: after a comparison the case goes on to the next
/// comparison or into the cleanup, and it ends there only where there is
/// nothing to clean up. What a failed comparison reported is kept through
/// the cleanup.
pub proof fn lemma_cleanup_follows(sizes: Sizes, at: usize, report: ReportModel)
    requires
        report !is Begin,
    ensures
        sizes.cleanup > 0 ==> conducted(sizes, StageModel::Comparing { at }, report).0 !is Over,
        report matches ReportModel::Failed(reason) ==> conducted(
            sizes,
            StageModel::Comparing { at },
            report,
        ) == restore_from(sizes, 0, Some(reason)),
        report is Done && at + 1 < sizes.probes ==> conducted(
            sizes,
            StageModel::Comparing { at },
            report,
        ).1 == DirectiveModel::Compare((at + 1) as usize),
{
}

/// A case passes only if nothing failed: it ends without a reason only on
/// the report that a step went well or, where the plan is empty, at its
/// very beginning; and never from a cleanup that follows a comparison
/// that failed.
pub proof fn lemma_pass_needs_all(sizes: Sizes, stage: StageModel, report: ReportModel)
    requires
        conducted(sizes, stage, report).1 == DirectiveModel::Finish(None),
    ensures
        report is Done || (report is Begin && stage is Ready),
        stage matches StageModel::Restoring { failure, .. } ==> failure is None,
{
}

} // verus!
