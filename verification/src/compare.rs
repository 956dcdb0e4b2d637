//! Comparing the program under test with the reference.
//!
//! Both programs get the same arguments and the same standard input; the
//! program under test is started under the reference's name, so that the
//! diagnostics of the two can be compared as text. They are first run with
//! standard output on a pipe, and standard output, standard error and exit
//! code must agree byte for byte. Then both are run with standard output
//! redirected to a file, and the two files must hold the same bytes. The
//! first difference ends the comparison, and is reported with what both
//! programs wrote, how both ended, and how many bytes each wrote.
//!
//! The comparison itself performs nothing. It is a function from the phase
//! reached and what was just observed to the next phase and what to do
//! next; the caller does what it is told and reports back.

use crate::harness::Harness;
use crate::runner::{
    clone_producer, command_line, command_text, opt_bytes, opt_producer, opt_view, plan_run,
    plan_run_to_file, spawn_failure, spawn_failure_text, CmdOutput, CommandSpec, Config, Producer,
    RunPlan,
};
use crate::text::{clone_strings, views};
use vstd::prelude::*;
use vstd::string::StringExecFns;

verus! {

/// How two runs differ.
#[derive(Clone, Debug, PartialEq, Eq)]
pub enum Mismatch {
    /// With standard output on a pipe, the two programs differ in what they
    /// wrote or in how they ended.
    Output { subject: CmdOutput, reference: CmdOutput, stdout_differs: bool, stderr_differs: bool },
    /// With standard output in a file, the two files differ. The report
    /// holds what each program wrote into its file, how each ended, and how
    /// many bytes each wrote.
    File {
        subject: Vec<u8>,
        reference: Vec<u8>,
        subject_code: Option<i32>,
        reference_code: Option<i32>,
        subject_len: usize,
        reference_len: usize,
    },
    /// What the program passed on is not what was written into the pipe.
    /// The report holds the run of the program whole, and the bytes that
    /// were expected of it.
    Stream { subject: CmdOutput, expected: Vec<u8> },
}

/// How a comparison ended.
#[derive(Clone, Debug, PartialEq, Eq)]
pub enum Outcome {
    /// No difference was found.
    Pass,
    /// A difference was found.
    Mismatch(Mismatch),
    /// The comparison could not be carried out.
    Broken(String),
}

/// What the output of the program under test is held against when its
/// standard output is a pipe.
#[derive(Clone, Debug, PartialEq, Eq)]
pub enum PipeCheck {
    /// The output of the reference for the same command.
    AgainstReference,
    /// These bytes on standard output; the reference is not run.
    Expect(Vec<u8>),
}

/// One command to compare the two programs on.
#[derive(Clone, Debug, PartialEq, Eq)]
pub struct Probe {
    pub args: Vec<String>,
    pub stdin: Option<Vec<u8>>,
    /// The producer of the named pipe among the arguments, if there is one.
    /// It is started anew for every run.
    pub producer: Option<Producer>,
    pub check: PipeCheck,
}

/// How far a comparison has come.
#[derive(Clone, Debug, PartialEq, Eq)]
pub enum Phase {
    /// Nothing has been done.
    Idle,
    /// The program under test runs with its output on a pipe.
    SubjectPiped,
    /// The reference runs with its output on a pipe.
    ReferencePiped { subject_out: CmdOutput },
    /// Two fresh files for the redirected runs are being created.
    Outputs,
    /// The program under test runs with its output in its file.
    SubjectToFile { subject_path: String, reference_path: String },
    /// The reference runs with its output in its file.
    ReferenceToFile { subject_path: String, reference_path: String, subject_code: Option<i32> },
    /// The file of the program under test is being read back.
    SubjectRead {
        reference_path: String,
        subject_code: Option<i32>,
        reference_code: Option<i32>,
    },
    /// The file of the reference is being read back.
    ReferenceRead {
        subject_bytes: Vec<u8>,
        subject_code: Option<i32>,
        reference_code: Option<i32>,
    },
    /// The comparison has ended.
    Done,
}

/// What the caller observed.
#[derive(Clone, Debug, PartialEq, Eq)]
pub enum Event {
    /// The comparison is to begin.
    Start,
    /// A run with standard output on a pipe has ended.
    Ran(CmdOutput),
    /// Two fresh files exist, at these paths.
    Created { subject: String, reference: String },
    /// A run with standard output in a file has ended, with this exit code.
    Wrote(Option<i32>),
    /// A file was read back and held these bytes.
    Read(Vec<u8>),
    /// The process of the run that was asked for could not be started, for
    /// this reason.
    SpawnFailed(String),
    /// What was asked for could not be done, for this reason.
    Failed(String),
}

/// What the caller is to do next.
#[derive(Clone, Debug, PartialEq, Eq)]
pub enum Action {
    /// Carry out this run, then report `Ran` if its standard output is a
    /// pipe and `Wrote` if it is a file.
    Run(RunPlan),
    /// Create two fresh files in the fixture directory and report `Created`.
    CreateOutputs,
    /// Read the file at this path and report `Read`.
    ReadBack(String),
    /// Stop: this is how the comparison ended.
    Finish(Outcome),
}

/// Two runs agree: same standard output, same standard error, same exit
/// code, each byte for byte.
pub open spec fn outputs_agree(a: CmdOutput, b: CmdOutput) -> bool {
    &&& a.stdout@ == b.stdout@
    &&& a.stderr@ == b.stderr@
    &&& a.code == b.code
}

/// `plan` runs the program under test on the probe, under the reference's
/// name, with standard output on a pipe or in the file `output`.
pub open spec fn is_subject_run(
    h: &Harness,
    config: Config,
    probe: &Probe,
    plan: RunPlan,
    output: Option<Seq<char>>,
) -> bool {
    plan.describes(
        h.wcat@,
        views(probe.args@),
        opt_bytes(probe.stdin),
        Some(h.cat@),
        output,
        opt_producer(probe.producer),
        config.verbose,
    )
}

/// `plan` runs the reference on the probe, under its own name, with
/// standard output on a pipe or in the file `output`.
pub open spec fn is_reference_run(
    h: &Harness,
    config: Config,
    probe: &Probe,
    plan: RunPlan,
    output: Option<Seq<char>>,
) -> bool {
    plan.describes(
        h.cat@,
        views(probe.args@),
        opt_bytes(probe.stdin),
        None,
        output,
        opt_producer(probe.producer),
        config.verbose,
    )
}

/// The action is the run of the program under test.
pub open spec fn asks_subject_run(
    h: &Harness,
    config: Config,
    probe: &Probe,
    action: Action,
    output: Option<Seq<char>>,
) -> bool {
    action matches Action::Run(plan) && is_subject_run(h, config, probe, plan, output)
}

/// The action is the run of the reference.
pub open spec fn asks_reference_run(
    h: &Harness,
    config: Config,
    probe: &Probe,
    action: Action,
    output: Option<Seq<char>>,
) -> bool {
    action matches Action::Run(plan) && is_reference_run(h, config, probe, plan, output)
}

/// The action is to read the file at `path`.
pub open spec fn asks_read(action: Action, path: Seq<char>) -> bool {
    action matches Action::ReadBack(p) && p@ == path
}

/// The action ends the comparison as broken, for this reason.
pub open spec fn ends_broken(next: Phase, action: Action, reason: Seq<char>) -> bool {
    &&& next is Done
    &&& action matches Action::Finish(Outcome::Broken(why))
    &&& why@ == reason
}

/// The action ends the comparison with a difference between the piped
/// runs, and reports both runs whole.
pub open spec fn ends_output_mismatch(
    next: Phase,
    action: Action,
    subject: CmdOutput,
    reference: CmdOutput,
) -> bool {
    &&& next is Done
    &&& action matches Action::Finish(Outcome::Mismatch(mismatch))
    &&& mismatch matches Mismatch::Output {
        subject: s,
        reference: r,
        stdout_differs,
        stderr_differs,
    }
    &&& s == subject
    &&& r == reference
    &&& stdout_differs == (subject.stdout@ != reference.stdout@)
    &&& stderr_differs == (subject.stderr@ != reference.stderr@)
}

/// The report of a difference between the two files holds the bytes of
/// both files, both exit codes and both lengths.
pub open spec fn is_file_report(
    mismatch: Mismatch,
    subject: Seq<u8>,
    reference: Seq<u8>,
    subject_code: Option<i32>,
    reference_code: Option<i32>,
) -> bool {
    &&& mismatch is File
    &&& mismatch->File_subject@ == subject
    &&& mismatch->File_reference@ == reference
    &&& mismatch->subject_code == subject_code
    &&& mismatch->reference_code == reference_code
    &&& mismatch->subject_len == subject.len()
    &&& mismatch->reference_len == reference.len()
}

/// The action ends the comparison with a difference between the two
/// files, and reports both files whole, with both exit codes.
pub open spec fn ends_file_mismatch(
    next: Phase,
    action: Action,
    subject: Seq<u8>,
    reference: Seq<u8>,
    subject_code: Option<i32>,
    reference_code: Option<i32>,
) -> bool {
    &&& next is Done
    &&& action matches Action::Finish(Outcome::Mismatch(mismatch))
    &&& is_file_report(mismatch, subject, reference, subject_code, reference_code)
}

/// The program that runs in `phase`, where one does.
pub open spec fn running(h: &Harness, phase: Phase) -> Option<Seq<char>> {
    match phase {
        Phase::SubjectPiped => Some(h.wcat@),
        Phase::SubjectToFile { .. } => Some(h.wcat@),
        Phase::ReferencePiped { .. } => Some(h.cat@),
        Phase::ReferenceToFile { .. } => Some(h.cat@),
        _ => None,
    }
}

/// The action ends the comparison because the program did not pass on
/// what was written into the pipe.
pub open spec fn ends_stream_mismatch(
    next: Phase,
    action: Action,
    out: CmdOutput,
    wanted: Seq<u8>,
) -> bool {
    &&& next is Done
    &&& action matches Action::Finish(Outcome::Mismatch(Mismatch::Stream { subject, expected }))
    &&& subject == out
    &&& expected@ == wanted
}

/// The comparison goes on to create the two output files.
pub open spec fn goes_to_outputs(next: Phase, action: Action) -> bool {
    next is Outputs && action is CreateOutputs
}

/// What is under way in `phase`, as the report of a failure names it:
/// the command that runs, or the files that are created or read.
pub open spec fn under_way(h: &Harness, probe: &Probe, phase: Phase) -> Option<Seq<char>> {
    match phase {
        Phase::Outputs => Some("creating the output files"@),
        Phase::SubjectRead { .. } => Some("reading the output file of the program under test"@),
        Phase::ReferenceRead { .. } => Some("reading the output file of the reference"@),
        _ => match running(h, phase) {
            Some(program) => Some("running "@ + command_text(program, views(probe.args@))),
            None => None,
        },
    }
}

/// The report of a failure in `phase`: what was under way, and why it
/// failed. Where nothing was under way the reason stands alone.
pub open spec fn failure_text(
    h: &Harness,
    probe: &Probe,
    phase: Phase,
    cause: Seq<char>,
) -> Seq<char> {
    match under_way(h, probe, phase) {
        Some(what) => what + ": "@ + cause,
        None => cause,
    }
}

/// The rule of the comparison: from `phase`, on `event`, it moves to
/// `next` and asks for `action`.
pub open spec fn follows(
    h: &Harness,
    config: Config,
    probe: &Probe,
    phase: Phase,
    event: Event,
    next: Phase,
    action: Action,
) -> bool {
    match (phase, event) {
        (_, Event::Failed(cause)) => ends_broken(
            next,
            action,
            failure_text(h, probe, phase, cause@),
        ),
        (_, Event::SpawnFailed(cause)) => match running(h, phase) {
            Some(program) => ends_broken(
                next,
                action,
                spawn_failure_text(program, views(probe.args@), cause@),
            ),
            None => ends_broken(next, action, "unexpected event"@),
        },
        (Phase::Idle, Event::Start) => {
            &&& next is SubjectPiped
            &&& asks_subject_run(h, config, probe, action, None)
        },
        (Phase::SubjectPiped, Event::Ran(out)) => match probe.check {
            PipeCheck::AgainstReference => {
                &&& next == (Phase::ReferencePiped { subject_out: out })
                &&& asks_reference_run(h, config, probe, action, None)
            },
            PipeCheck::Expect(bytes) => if out.stdout@ == bytes@ {
                goes_to_outputs(next, action)
            } else {
                ends_stream_mismatch(next, action, out, bytes@)
            },
        },
        (Phase::ReferencePiped { subject_out }, Event::Ran(reference)) => {
            if outputs_agree(subject_out, reference) {
                goes_to_outputs(next, action)
            } else {
                ends_output_mismatch(next, action, subject_out, reference)
            }
        },
        (Phase::Outputs, Event::Created { subject, reference }) => {
            &&& next == (Phase::SubjectToFile { subject_path: subject, reference_path: reference })
            &&& asks_subject_run(h, config, probe, action, Some(subject@))
        },
        (Phase::SubjectToFile { subject_path, reference_path }, Event::Wrote(code)) => {
            &&& next == (Phase::ReferenceToFile {
                subject_path,
                reference_path,
                subject_code: code,
            })
            &&& asks_reference_run(h, config, probe, action, Some(reference_path@))
        },
        (
            Phase::ReferenceToFile { subject_path, reference_path, subject_code },
            Event::Wrote(code),
        ) => {
            &&& next == (Phase::SubjectRead { reference_path, subject_code, reference_code: code })
            &&& asks_read(action, subject_path@)
        },
        (
            Phase::SubjectRead { reference_path, subject_code, reference_code },
            Event::Read(bytes),
        ) => {
            &&& next == (Phase::ReferenceRead {
                subject_bytes: bytes,
                subject_code,
                reference_code,
            })
            &&& asks_read(action, reference_path@)
        },
        (
            Phase::ReferenceRead { subject_bytes, subject_code, reference_code },
            Event::Read(bytes),
        ) => {
            if subject_bytes@ == bytes@ {
                next is Done && action matches Action::Finish(Outcome::Pass)
            } else {
                ends_file_mismatch(
                    next,
                    action,
                    subject_bytes@,
                    bytes@,
                    subject_code,
                    reference_code,
                )
            }
        },
        _ => ends_broken(next, action, "unexpected event"@),
    }
}

/// Whether two buffers hold the same bytes.
pub fn same_bytes(a: &[u8], b: &[u8]) -> (same: bool)
    ensures
        same == (a@ == b@),
{
    if a.len() != b.len() {
        return false;
    }
    let mut i: usize = 0;
    while i < a.len()
        invariant
            i <= a.len(),
            a.len() == b.len(),
            forall|k: int| 0 <= k < i ==> a@[k] == b@[k],
        decreases a.len() - i,
    {
        if a[i] != b[i] {
            return false;
        }
        i += 1;
    }
    assert(a@ =~= b@);
    true
}

/// Whether two exit codes are the same.
pub fn same_code(a: Option<i32>, b: Option<i32>) -> (same: bool)
    ensures
        same == (a == b),
{
    match (a, b) {
        (Some(x), Some(y)) => x == y,
        (None, None) => true,
        _ => false,
    }
}

/// Holds the run of the program under test against the run of the
/// reference. They agree only if standard output, standard error and exit
/// code are the same, byte for byte; nothing is trimmed or decoded.
pub fn compare_outputs(actual: CmdOutput, expected: CmdOutput) -> (verdict: Result<(), Mismatch>)
    ensures
        verdict is Ok <==> outputs_agree(actual, expected),
        verdict matches Err(m) ==> {
            &&& m matches Mismatch::Output { subject, reference, stdout_differs, stderr_differs }
            &&& subject == actual
            &&& reference == expected
            &&& stdout_differs == (actual.stdout@ != expected.stdout@)
            &&& stderr_differs == (actual.stderr@ != expected.stderr@)
        },
{
    let stdout_same = same_bytes(actual.stdout.as_slice(), expected.stdout.as_slice());
    let stderr_same = same_bytes(actual.stderr.as_slice(), expected.stderr.as_slice());
    let code_same = same_code(actual.code, expected.code);
    if stdout_same && stderr_same && code_same {
        Ok(())
    } else {
        Err(
            Mismatch::Output {
                subject: actual,
                reference: expected,
                stdout_differs: !stdout_same,
                stderr_differs: !stderr_same,
            },
        )
    }
}

/// Holds the file written by the program under test against the file
/// written by the reference. They agree only if they hold the same bytes;
/// how the two runs ended does not decide, but where the files differ it
/// is reported with them.
pub fn compare_files(
    subject: Vec<u8>,
    reference: Vec<u8>,
    subject_code: Option<i32>,
    reference_code: Option<i32>,
) -> (verdict: Result<(), Mismatch>)
    ensures
        verdict is Ok <==> subject@ == reference@,
        verdict matches Err(m) ==> is_file_report(
            m,
            subject@,
            reference@,
            subject_code,
            reference_code,
        ),
{
    if same_bytes(subject.as_slice(), reference.as_slice()) {
        Ok(())
    } else {
        let subject_len = subject.len();
        let reference_len = reference.len();
        Err(
            Mismatch::File {
                subject,
                reference,
                subject_code,
                reference_code,
                subject_len,
                reference_len,
            },
        )
    }
}

/// Ends a comparison because what was under way failed.
fn failed(what: &str, cause: String) -> (step: (Phase, Action))
    ensures
        ends_broken(step.0, step.1, what@ + ": "@ + cause@),
{
    let mut why = what.to_owned();
    why.append(": ");
    why.append(cause.as_str());
    (Phase::Done, Action::Finish(Outcome::Broken(why)))
}

/// Ends a comparison because the run of `program` failed.
fn run_failed(program: &str, probe: &Probe, cause: String) -> (step: (Phase, Action))
    ensures
        ends_broken(
            step.0,
            step.1,
            "running "@ + command_text(program@, views(probe.args@)) + ": "@ + cause@,
        ),
{
    let mut what = String::from_str("running ");
    let line = command_line(program, probe.args.as_slice());
    what.append(line.as_str());
    failed(what.as_str(), cause)
}

/// Ends a comparison because the process of `program` could not be
/// started.
fn not_started(program: &str, probe: &Probe, cause: &str) -> (step: (Phase, Action))
    ensures
        ends_broken(step.0, step.1, spawn_failure_text(program@, views(probe.args@), cause@)),
{
    let why = spawn_failure(program, probe.args.as_slice(), cause);
    (Phase::Done, Action::Finish(Outcome::Broken(why)))
}

/// The command of a probe, for the program under test or for the reference.
fn command_of(h: &Harness, probe: &Probe, subject: bool) -> (command: CommandSpec)
    ensures
        views(command.args@) == views(probe.args@),
        opt_bytes(command.stdin) == opt_bytes(probe.stdin),
        opt_view(command.arg0) == if subject {
            Some(h.cat@)
        } else {
            None
        },
{
    CommandSpec {
        args: clone_strings(probe.args.as_slice()),
        stdin: match &probe.stdin {
            Some(bytes) => Some(bytes.clone()),
            None => None,
        },
        arg0: if subject {
            Some(h.cat.clone())
        } else {
            None
        },
    }
}

/// A fresh copy of the producer of a probe.
fn producer_of(probe: &Probe) -> (producer: Option<Producer>)
    ensures
        opt_producer(producer) == opt_producer(probe.producer),
{
    match &probe.producer {
        Some(p) => Some(clone_producer(p)),
        None => None,
    }
}

/// The run of the program under test, or of the reference, on a probe.
fn run_of(
    h: &Harness,
    config: Config,
    probe: &Probe,
    subject: bool,
    output: Option<&String>,
) -> (plan: RunPlan)
    ensures
        subject ==> is_subject_run(
            h,
            config,
            probe,
            plan,
            match output {
                Some(path) => Some(path@),
                None => None,
            },
        ),
        !subject ==> is_reference_run(
            h,
            config,
            probe,
            plan,
            match output {
                Some(path) => Some(path@),
                None => None,
            },
        ),
{
    let command = command_of(h, probe, subject);
    let producer = producer_of(probe);
    let program = if subject {
        h.wcat.as_str()
    } else {
        h.cat.as_str()
    };
    match output {
        Some(path) => plan_run_to_file(config, program, command, producer, path.as_str()),
        None => plan_run(config, program, command, producer),
    }
}

/// Takes a comparison one step further: from the phase reached and what
/// the caller just observed to the next phase and what to do next.
///
/// An event that the phase does not wait for ends the comparison as
/// broken, and so does every failure that is reported. A failure is
/// reported with what was under way: a process that could not be started
/// or did not run to its end, with its program and its arguments.
pub fn advance(h: &Harness, config: Config, probe: &Probe, phase: Phase, event: Event) -> (step: (
    Phase,
    Action,
))
    ensures
        follows(h, config, probe, phase, event, step.0, step.1),
{
    match (phase, event) {
        (Phase::SubjectPiped, Event::Failed(cause)) => run_failed(h.wcat.as_str(), probe, cause),
        (Phase::SubjectToFile { .. }, Event::Failed(cause)) => {
            run_failed(h.wcat.as_str(), probe, cause)
        },
        (Phase::ReferencePiped { .. }, Event::Failed(cause)) => {
            run_failed(h.cat.as_str(), probe, cause)
        },
        (Phase::ReferenceToFile { .. }, Event::Failed(cause)) => {
            run_failed(h.cat.as_str(), probe, cause)
        },
        (Phase::Outputs, Event::Failed(cause)) => failed("creating the output files", cause),
        (Phase::SubjectRead { .. }, Event::Failed(cause)) => {
            failed("reading the output file of the program under test", cause)
        },
        (Phase::ReferenceRead { .. }, Event::Failed(cause)) => {
            failed("reading the output file of the reference", cause)
        },
        (_, Event::Failed(cause)) => (Phase::Done, Action::Finish(Outcome::Broken(cause))),
        (Phase::SubjectPiped, Event::SpawnFailed(cause)) => {
            not_started(h.wcat.as_str(), probe, cause.as_str())
        },
        (Phase::SubjectToFile { .. }, Event::SpawnFailed(cause)) => {
            not_started(h.wcat.as_str(), probe, cause.as_str())
        },
        (Phase::ReferencePiped { .. }, Event::SpawnFailed(cause)) => {
            not_started(h.cat.as_str(), probe, cause.as_str())
        },
        (Phase::ReferenceToFile { .. }, Event::SpawnFailed(cause)) => {
            not_started(h.cat.as_str(), probe, cause.as_str())
        },
        (Phase::Idle, Event::Start) => {
            let plan = run_of(h, config, probe, true, None);
            (Phase::SubjectPiped, Action::Run(plan))
        },
        (Phase::SubjectPiped, Event::Ran(out)) => match &probe.check {
            PipeCheck::AgainstReference => {
                let plan = run_of(h, config, probe, false, None);
                (Phase::ReferencePiped { subject_out: out }, Action::Run(plan))
            },
            PipeCheck::Expect(bytes) => {
                if same_bytes(out.stdout.as_slice(), bytes.as_slice()) {
                    (Phase::Outputs, Action::CreateOutputs)
                } else {
                    let mismatch = Mismatch::Stream { subject: out, expected: bytes.clone() };
                    (Phase::Done, Action::Finish(Outcome::Mismatch(mismatch)))
                }
            },
        },
        (Phase::ReferencePiped { subject_out }, Event::Ran(reference)) => {
            match compare_outputs(subject_out, reference) {
                Ok(()) => (Phase::Outputs, Action::CreateOutputs),
                Err(mismatch) => (Phase::Done, Action::Finish(Outcome::Mismatch(mismatch))),
            }
        },
        (Phase::Outputs, Event::Created { subject, reference }) => {
            let plan = run_of(h, config, probe, true, Some(&subject));
            let next = Phase::SubjectToFile { subject_path: subject, reference_path: reference };
            (next, Action::Run(plan))
        },
        (Phase::SubjectToFile { subject_path, reference_path }, Event::Wrote(code)) => {
            let plan = run_of(h, config, probe, false, Some(&reference_path));
            let next = Phase::ReferenceToFile { subject_path, reference_path, subject_code: code };
            (next, Action::Run(plan))
        },
        (
            Phase::ReferenceToFile { subject_path, reference_path, subject_code },
            Event::Wrote(code),
        ) => {
            let next = Phase::SubjectRead { reference_path, subject_code, reference_code: code };
            (next, Action::ReadBack(subject_path))
        },
        (
            Phase::SubjectRead { reference_path, subject_code, reference_code },
            Event::Read(bytes),
        ) => {
            let next = Phase::ReferenceRead { subject_bytes: bytes, subject_code, reference_code };
            (next, Action::ReadBack(reference_path))
        },
        (
            Phase::ReferenceRead { subject_bytes, subject_code, reference_code },
            Event::Read(bytes),
        ) => {
            match compare_files(subject_bytes, bytes, subject_code, reference_code) {
                Ok(()) => (Phase::Done, Action::Finish(Outcome::Pass)),
                Err(mismatch) => (Phase::Done, Action::Finish(Outcome::Mismatch(mismatch))),
            }
        },
        _ => {
            let why = String::from_str("unexpected event");
            (Phase::Done, Action::Finish(Outcome::Broken(why)))
        },
    }
}

/// How many steps a comparison can still take from `phase`.
pub open spec fn steps_left(phase: Phase) -> nat {
    match phase {
        Phase::Idle => 8,
        Phase::SubjectPiped => 7,
        Phase::ReferencePiped { .. } => 6,
        Phase::Outputs => 5,
        Phase::SubjectToFile { .. } => 4,
        Phase::ReferenceToFile { .. } => 3,
        Phase::SubjectRead { .. } => 2,
        Phase::ReferenceRead { .. } => 1,
        Phase::Done => 0,
    }
}

/// Every step brings a comparison nearer to its end, so it ends after
/// eight steps at most; and once it has ended it stays ended.
pub proof fn lemma_comparison_ends(
    h: &Harness,
    config: Config,
    probe: &Probe,
    phase: Phase,
    event: Event,
    next: Phase,
    action: Action,
)
    requires
        follows(h, config, probe, phase, event, next, action),
    ensures
        phase !is Done ==> steps_left(next) < steps_left(phase),
        phase is Done ==> next is Done,
        next is Done <==> action is Finish,
{
}

/// A comparison passes only on its last step, after both files have been
/// read back and found equal. Nothing before that can make it pass.
pub proof fn lemma_pass_is_earned(
    h: &Harness,
    config: Config,
    probe: &Probe,
    phase: Phase,
    event: Event,
    next: Phase,
    action: Action,
)
    requires
        follows(h, config, probe, phase, event, next, action),
        action matches Action::Finish(Outcome::Pass),
    ensures
        phase is ReferenceRead,
        event is Read,
        phase->subject_bytes@ == event->Read_0@,
{
}

/// A difference between the piped runs ends the comparison at once: the
/// redirected runs are not made.
pub proof fn lemma_first_difference_ends(
    h: &Harness,
    config: Config,
    probe: &Probe,
    subject: CmdOutput,
    reference: CmdOutput,
    next: Phase,
    action: Action,
)
    requires
        follows(
            h,
            config,
            probe,
            Phase::ReferencePiped { subject_out: subject },
            Event::Ran(reference),
            next,
            action,
        ),
    ensures
        outputs_agree(subject, reference) ==> goes_to_outputs(next, action),
        !outputs_agree(subject, reference) ==> ends_output_mismatch(
            next,
            action,
            subject,
            reference,
        ),
{
}

/// Agreement is an equivalence. A run agrees with itself, so a program
/// that behaves the same way twice is never reported against its own
/// earlier run; and which of two programs is called the reference does not
/// change whether they agree.
pub proof fn lemma_agreement_is_an_equivalence(a: CmdOutput, b: CmdOutput, c: CmdOutput)
    ensures
        outputs_agree(a, a),
        outputs_agree(a, b) ==> outputs_agree(b, a),
        outputs_agree(a, b) && outputs_agree(b, c) ==> outputs_agree(a, c),
{
}

/// Both programs are given the same arguments, the same standard input
/// and the same producer; they differ in the executable and in the name
/// that the process is given, which for both is the reference's.
pub proof fn lemma_same_command_for_both(
    h: &Harness,
    config: Config,
    probe: &Probe,
    subject: RunPlan,
    reference: RunPlan,
    output_subject: Option<Seq<char>>,
    output_reference: Option<Seq<char>>,
)
    requires
        is_subject_run(h, config, probe, subject, output_subject),
        is_reference_run(h, config, probe, reference, output_reference),
    ensures
        views(subject.args@) == views(reference.args@),
        opt_bytes(subject.feed) == opt_bytes(reference.feed),
        opt_producer(subject.producer) == opt_producer(reference.producer),
        subject.stdin@ == reference.stdin@,
        subject.program@ == h.wcat@,
        reference.program@ == h.cat@,
        opt_view(subject.arg0) == Some(h.cat@),
        reference.arg0 is None,
{
}


/// A comparison from its start: each phase follows from the one before on
/// what was observed, by the rule of the comparison.
pub open spec fn is_course(
    h: &Harness,
    config: Config,
    probe: &Probe,
    phases: Seq<Phase>,
    events: Seq<Event>,
    actions: Seq<Action>,
) -> bool {
    &&& phases.len() == events.len() + 1
    &&& actions.len() == events.len()
    &&& phases[0] is Idle
    &&& forall|i: int|
        0 <= i < events.len() ==> follows(
            h,
            config,
            probe,
            phases[i],
            #[trigger] events[i],
            phases[i + 1],
            actions[i],
        )
}

/// A phase other than the first and the last is reached in one way only,
/// and holds what was observed on the way.
proof fn lemma_way_in(
    h: &Harness,
    config: Config,
    probe: &Probe,
    phase: Phase,
    event: Event,
    next: Phase,
    action: Action,
)
    requires
        follows(h, config, probe, phase, event, next, action),
        next !is Done,
    ensures
        next is SubjectPiped ==> phase is Idle && event is Start,
        next matches Phase::ReferencePiped { subject_out } ==> phase is SubjectPiped
            && event == Event::Ran(subject_out) && probe.check is AgainstReference,
        next is Outputs ==> match phase {
            Phase::SubjectPiped => probe.check matches PipeCheck::Expect(bytes)
                && event matches Event::Ran(out) && out.stdout@ == bytes@,
            Phase::ReferencePiped { subject_out } => event matches Event::Ran(reference)
                && outputs_agree(subject_out, reference),
            _ => false,
        },
        next is SubjectToFile ==> phase is Outputs && event is Created,
        next matches Phase::ReferenceToFile { subject_code, .. } ==> phase is SubjectToFile
            && event == Event::Wrote(subject_code),
        next matches Phase::SubjectRead { subject_code, reference_code, .. } ==> phase
            is ReferenceToFile && phase->ReferenceToFile_subject_code == subject_code && event
            == Event::Wrote(reference_code),
        next matches Phase::ReferenceRead { subject_bytes, subject_code, reference_code }
            ==> phase is SubjectRead && phase->SubjectRead_subject_code == subject_code
            && phase->SubjectRead_reference_code == reference_code && event == Event::Read(
            subject_bytes,
        ),
        next !is Idle,
{
}

/// A comparison against the reference passes only if all four runs were
/// made and agreed: in eight steps, with the two piped runs alike in
/// standard output, standard error and exit code, and the two files alike
/// in every byte.
pub proof fn lemma_pass_means_agreement(
    h: &Harness,
    config: Config,
    probe: &Probe,
    phases: Seq<Phase>,
    events: Seq<Event>,
    actions: Seq<Action>,
)
    requires
        is_course(h, config, probe, phases, events, actions),
        events.len() > 0,
        actions.last() matches Action::Finish(Outcome::Pass),
        probe.check is AgainstReference,
    ensures
        events.len() == 8,
        events[1] is Ran,
        events[2] is Ran,
        outputs_agree(events[1]->Ran_0, events[2]->Ran_0),
        events[6] is Read,
        events[7] is Read,
        events[6]->Read_0@ == events[7]->Read_0@,
{
    let n = events.len() as int;
    lemma_pass_is_earned(
        h,
        config,
        probe,
        phases[n - 1],
        events[n - 1],
        phases[n],
        actions[n - 1],
    );
    assert(n >= 2);
    lemma_way_in(h, config, probe, phases[n - 2], events[n - 2], phases[n - 1], actions[n - 2]);
    lemma_way_in(h, config, probe, phases[n - 3], events[n - 3], phases[n - 2], actions[n - 3]);
    lemma_way_in(h, config, probe, phases[n - 4], events[n - 4], phases[n - 3], actions[n - 4]);
    lemma_way_in(h, config, probe, phases[n - 5], events[n - 5], phases[n - 4], actions[n - 5]);
    lemma_way_in(h, config, probe, phases[n - 6], events[n - 6], phases[n - 5], actions[n - 6]);
    lemma_way_in(h, config, probe, phases[n - 7], events[n - 7], phases[n - 6], actions[n - 7]);
    lemma_way_in(h, config, probe, phases[n - 8], events[n - 8], phases[n - 7], actions[n - 8]);
    assert(n == 8) by {
        if n > 8 {
            lemma_way_in(
                h,
                config,
                probe,
                phases[n - 9],
                events[n - 9],
                phases[n - 8],
                actions[n - 9],
            );
        }
    }
}

/// A comparison against the reference whose four runs agree passes: no
/// pair of programs that behave alike is ever reported.
pub proof fn lemma_agreement_means_pass(
    h: &Harness,
    config: Config,
    probe: &Probe,
    phases: Seq<Phase>,
    events: Seq<Event>,
    actions: Seq<Action>,
)
    requires
        is_course(h, config, probe, phases, events, actions),
        probe.check is AgainstReference,
        events.len() == 8,
        events[0] is Start,
        events[1] is Ran,
        events[2] is Ran,
        outputs_agree(events[1]->Ran_0, events[2]->Ran_0),
        events[3] is Created,
        events[4] is Wrote,
        events[5] is Wrote,
        events[6] is Read,
        events[7] is Read,
        events[6]->Read_0@ == events[7]->Read_0@,
    ensures
        actions[7] matches Action::Finish(Outcome::Pass),
        forall|i: int| 0 <= i < 7 ==> !(#[trigger] actions[i] is Finish),
{
}

/// A run that fails is reported with the command that was handed out
/// for it: where the process could not be started, and where it was
/// started but the run did not come to its end, the report names the
/// program of the plan and every argument of the plan, in order.
pub proof fn lemma_failure_names_the_command(
    h: &Harness,
    config: Config,
    probe: &Probe,
    before: Phase,
    event: Event,
    phase: Phase,
    plan: RunPlan,
    cause: Seq<char>,
    failure: Event,
    next: Phase,
    action: Action,
)
    requires
        follows(h, config, probe, before, event, phase, Action::Run(plan)),
        follows(h, config, probe, phase, failure, next, action),
        failure is SpawnFailed || failure is Failed,
        failure is SpawnFailed ==> failure->SpawnFailed_0@ == cause,
        failure is Failed ==> failure->Failed_0@ == cause,
    ensures
        failure is SpawnFailed ==> ends_broken(
            next,
            action,
            spawn_failure_text(plan.program@, views(plan.args@), cause),
        ),
        failure is Failed ==> ends_broken(
            next,
            action,
            "running "@ + command_text(plan.program@, views(plan.args@)) + ": "@ + cause,
        ),
{
}

/// Whatever difference ends a comparison, its report holds both sides
/// whole. A difference between the piped runs is reported with both runs
/// as they were observed: standard output, standard error and exit code of
/// each. A difference between the files is reported with the bytes read
/// back from both files, the exit codes of both redirected runs, and both
/// lengths. A stream that did not arrive is reported with the run of the
/// program whole and with what was expected of it.
pub proof fn lemma_difference_reported_whole(
    h: &Harness,
    config: Config,
    probe: &Probe,
    phases: Seq<Phase>,
    events: Seq<Event>,
    actions: Seq<Action>,
)
    requires
        is_course(h, config, probe, phases, events, actions),
        events.len() > 0,
        actions.last() is Finish,
        actions.last()->Finish_0 is Mismatch,
    ensures
        ({
            let n = events.len() as int;
            let report = actions.last()->Finish_0->Mismatch_0;
            match report {
                Mismatch::Output { subject, reference, .. } => {
                    &&& n >= 2
                    &&& events[n - 2] == Event::Ran(subject)
                    &&& events[n - 1] == Event::Ran(reference)
                    &&& !outputs_agree(subject, reference)
                },
                Mismatch::File { .. } => {
                    &&& n >= 4
                    &&& events[n - 4] is Wrote
                    &&& events[n - 3] is Wrote
                    &&& events[n - 2] is Read
                    &&& events[n - 1] is Read
                    &&& is_file_report(
                        report,
                        events[n - 2]->Read_0@,
                        events[n - 1]->Read_0@,
                        events[n - 4]->Wrote_0,
                        events[n - 3]->Wrote_0,
                    )
                    &&& events[n - 2]->Read_0@ != events[n - 1]->Read_0@
                },
                Mismatch::Stream { subject, expected } => {
                    &&& events[n - 1] == Event::Ran(subject)
                    &&& probe.check is Expect
                    &&& expected@ == probe.check->Expect_0@
                    &&& subject.stdout@ != expected@
                },
            }
        }),
{
    let n = events.len() as int;
    let report = actions.last()->Finish_0->Mismatch_0;
    assert(follows(h, config, probe, phases[n - 1], events[n - 1], phases[n], actions[n - 1]));
    if report is Output {
        assert(phases[n - 1] is ReferencePiped);
        lemma_way_in(h, config, probe, phases[n - 2], events[n - 2], phases[n - 1], actions[n - 2]);
    } else if report is File {
        assert(phases[n - 1] is ReferenceRead);
        lemma_way_in(h, config, probe, phases[n - 2], events[n - 2], phases[n - 1], actions[n - 2]);
        lemma_way_in(h, config, probe, phases[n - 3], events[n - 3], phases[n - 2], actions[n - 3]);
        lemma_way_in(h, config, probe, phases[n - 4], events[n - 4], phases[n - 3], actions[n - 4]);
    }
}

/// A comparison of a stream passes only if the program under test passed
/// on exactly the bytes that were expected, and the two files were alike
/// in every byte; the reference is not run with its output on a pipe.
pub proof fn lemma_stream_pass_means_agreement(
    h: &Harness,
    config: Config,
    probe: &Probe,
    phases: Seq<Phase>,
    events: Seq<Event>,
    actions: Seq<Action>,
)
    requires
        is_course(h, config, probe, phases, events, actions),
        events.len() > 0,
        actions.last() matches Action::Finish(Outcome::Pass),
        probe.check is Expect,
    ensures
        events.len() == 7,
        events[1] is Ran,
        events[1]->Ran_0.stdout@ == probe.check->Expect_0@,
        events[5] is Read,
        events[6] is Read,
        events[5]->Read_0@ == events[6]->Read_0@,
{
    let n = events.len() as int;
    lemma_pass_is_earned(
        h,
        config,
        probe,
        phases[n - 1],
        events[n - 1],
        phases[n],
        actions[n - 1],
    );
    assert(n >= 2);
    lemma_way_in(h, config, probe, phases[n - 2], events[n - 2], phases[n - 1], actions[n - 2]);
    lemma_way_in(h, config, probe, phases[n - 3], events[n - 3], phases[n - 2], actions[n - 3]);
    lemma_way_in(h, config, probe, phases[n - 4], events[n - 4], phases[n - 3], actions[n - 4]);
    lemma_way_in(h, config, probe, phases[n - 5], events[n - 5], phases[n - 4], actions[n - 5]);
    lemma_way_in(h, config, probe, phases[n - 6], events[n - 6], phases[n - 5], actions[n - 6]);
    lemma_way_in(h, config, probe, phases[n - 7], events[n - 7], phases[n - 6], actions[n - 7]);
    assert(n == 7) by {
        if n > 7 {
            lemma_way_in(
                h,
                config,
                probe,
                phases[n - 8],
                events[n - 8],
                phases[n - 7],
                actions[n - 8],
            );
        }
    }
}

} // verus!
