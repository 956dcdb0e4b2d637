//! Launching one process: how its streams are connected and in which
//! order the steps of a run are taken.
//!
//! A payload for standard input is written by a feeder that runs beside the
//! wait for the process. Writing it first and reading afterwards would
//! stall as soon as both pipes are full, so the order of the steps is part
//! of the plan, not left to the caller.
//!
//! A step that fails makes the run fail, but it leaves nothing behind: a
//! feeder or a producer that was started is joined all the same, and a
//! process that could not be started is reported with its command.

use crate::text::{clone_strings, join, joined, views};
use vstd::string::StringExecFns;
use vstd::prelude::*;

verus! {

/// Settings of a run of the harness, fixed at start.
#[derive(Clone, Copy, Debug, PartialEq, Eq, Structural)]
pub struct Config {
    /// Whether each command and each case is announced.
    pub verbose: bool,
}

/// What a finished process left behind.
#[derive(Clone, Debug, PartialEq, Eq)]
pub struct CmdOutput {
    /// The exit code; `None` where a signal ended the process.
    pub code: Option<i32>,
    pub stdout: Vec<u8>,
    pub stderr: Vec<u8>,
}

/// What is handed to a program: its arguments in order, the bytes for its
/// standard input if any, and the name it is to see as its own if that is
/// not the path it is started from.
#[derive(Clone, Debug, PartialEq, Eq)]
pub struct CommandSpec {
    pub args: Vec<String>,
    pub stdin: Option<Vec<u8>>,
    pub arg0: Option<String>,
}

/// What a standard stream of the process is connected to.
#[derive(Clone, Debug, PartialEq, Eq)]
pub enum Stream {
    /// The stream of the harness itself.
    Inherit,
    /// A pipe held by the harness.
    Piped,
    /// A file that is created, or emptied, before the process starts.
    File(String),
    /// Nothing: what is written is dropped.
    Null,
}

/// What a stream is connected to, a file being told by its path.
pub enum Sink {
    Inherit,
    Piped,
    File(Seq<char>),
    Null,
}

impl View for Stream {
    type V = Sink;

    open spec fn view(&self) -> Sink {
        match *self {
            Stream::Inherit => Sink::Inherit,
            Stream::Piped => Sink::Piped,
            Stream::File(path) => Sink::File(path@),
            Stream::Null => Sink::Null,
        }
    }
}

/// One write into a named pipe, or one pause between two writes.
#[derive(Clone, Debug, PartialEq, Eq)]
pub enum ProducerStep {
    Write(Vec<u8>),
    Sleep(u64),
}

/// A producer that opens a named pipe for writing and works through its
/// steps while the process under test reads from the pipe.
#[derive(Clone, Debug, PartialEq, Eq)]
pub struct Producer {
    pub fifo: String,
    pub steps: Vec<ProducerStep>,
}

/// What a producer step is: a write of some bytes, or a pause of some
/// milliseconds.
pub enum Beat {
    Write(Seq<u8>),
    Sleep(u64),
}

impl View for ProducerStep {
    type V = Beat;

    open spec fn view(&self) -> Beat {
        match *self {
            ProducerStep::Write(bytes) => Beat::Write(bytes@),
            ProducerStep::Sleep(millis) => Beat::Sleep(millis),
        }
    }
}

/// The steps of a producer, by what they are.
pub open spec fn beats(steps: Seq<ProducerStep>) -> Seq<Beat> {
    Seq::new(steps.len(), |i: int| steps[i]@)
}

/// What a producer is: the pipe it writes into, and its steps.
pub struct ProducerModel {
    pub fifo: Seq<char>,
    pub beats: Seq<Beat>,
}

impl View for Producer {
    type V = ProducerModel;

    open spec fn view(&self) -> ProducerModel {
        ProducerModel { fifo: self.fifo@, beats: beats(self.steps@) }
    }
}

/// The view of an optional producer.
pub open spec fn opt_producer(p: Option<Producer>) -> Option<ProducerModel> {
    match p {
        Some(p) => Some(p@),
        None => None,
    }
}

/// A step of a run.
#[derive(Clone, Copy, Debug, PartialEq, Eq, Structural)]
pub enum RunStep {
    /// Start the producer that writes into the named pipe.
    StartProducer,
    /// Create the file that takes standard output.
    OpenOutput,
    /// Start the process.
    Spawn,
    /// Start the feeder that writes the payload to standard input.
    StartFeeder,
    /// Collect what the process writes to its pipes until it exits.
    Wait,
    /// Wait for the feeder and take over its error, if it had one.
    JoinFeeder,
    /// Report the command and what came of it.
    Announce,
    /// Wait for the producer and take over its error, if it had one.
    JoinProducer,
}

/// Everything needed to run one process.
#[derive(Clone, Debug, PartialEq, Eq)]
pub struct RunPlan {
    /// The executable.
    pub program: String,
    /// The name the process sees as its own, where it is not `program`.
    pub arg0: Option<String>,
    pub args: Vec<String>,
    pub stdin: Stream,
    pub stdout: Stream,
    pub stderr: Stream,
    /// The bytes for standard input.
    pub feed: Option<Vec<u8>>,
    /// The producer of the named pipe the process reads, if it reads one.
    pub producer: Option<Producer>,
    /// The steps, in the order in which they are taken. A step that fails
    /// makes the run fail, and of the steps after it only the joins that
    /// are still owed are taken: see [`owed_after`].
    pub steps: Vec<RunStep>,
}

/// `part` if `wanted`, else nothing.
pub open spec fn when(wanted: bool, part: Seq<RunStep>) -> Seq<RunStep> {
    if wanted {
        part
    } else {
        Seq::empty()
    }
}

/// The steps of a run. The producer, where there is one, brackets
/// everything. The output file is created before the process starts. The
/// feeder starts once the process exists and before the wait, and is joined
/// after it.
pub open spec fn run_steps(producer: bool, to_file: bool, feed: bool, verbose: bool) -> Seq<
    RunStep,
> {
    when(producer, seq![RunStep::StartProducer]) + when(to_file, seq![RunStep::OpenOutput])
        + seq![RunStep::Spawn] + when(feed, seq![RunStep::StartFeeder]) + seq![RunStep::Wait]
        + when(feed, seq![RunStep::JoinFeeder]) + when(verbose, seq![RunStep::Announce]) + when(
        producer,
        seq![RunStep::JoinProducer],
    )
}

impl RunPlan {
    /// Whether the plan runs `program` piped or into the file `output`,
    /// with the given arguments, payload, name and producer.
    pub open spec fn describes(
        &self,
        program: Seq<char>,
        args: Seq<Seq<char>>,
        feed: Option<Seq<u8>>,
        arg0: Option<Seq<char>>,
        output: Option<Seq<char>>,
        producer: Option<ProducerModel>,
        verbose: bool,
    ) -> bool {
        &&& self.program@ == program
        &&& views(self.args@) == args
        &&& match self.arg0 {
            Some(name) => arg0 == Some(name@),
            None => arg0 is None,
        }
        &&& match self.feed {
            Some(bytes) => feed == Some(bytes@),
            None => feed is None,
        }
        &&& self.stdin@ == if feed is Some {
            Sink::Piped
        } else {
            Sink::Inherit
        }
        &&& self.stdout@ == match output {
            Some(path) => Sink::File(path),
            None => Sink::Piped,
        }
        &&& self.stderr@ == Sink::Piped
        &&& opt_producer(self.producer) == producer
        &&& self.steps@ == run_steps(producer is Some, output is Some, feed is Some, verbose)
    }
}

/// The view of an optional string.
pub open spec fn opt_view(s: Option<String>) -> Option<Seq<char>> {
    match s {
        Some(s) => Some(s@),
        None => None,
    }
}

/// The view of an optional buffer.
pub open spec fn opt_bytes(b: Option<Vec<u8>>) -> Option<Seq<u8>> {
    match b {
        Some(b) => Some(b@),
        None => None,
    }
}

/// The steps of a run, in order.
fn steps_for(producer: bool, to_file: bool, feed: bool, verbose: bool) -> (steps: Vec<RunStep>)
    ensures
        steps@ == run_steps(producer, to_file, feed, verbose),
{
    let mut steps: Vec<RunStep> = Vec::new();
    if producer {
        steps.push(RunStep::StartProducer);
    }
    if to_file {
        steps.push(RunStep::OpenOutput);
    }
    steps.push(RunStep::Spawn);
    if feed {
        steps.push(RunStep::StartFeeder);
    }
    steps.push(RunStep::Wait);
    if feed {
        steps.push(RunStep::JoinFeeder);
    }
    if verbose {
        steps.push(RunStep::Announce);
    }
    if producer {
        steps.push(RunStep::JoinProducer);
    }
    steps
}

/// Plans a run of `program` whose standard output and standard error are
/// both captured through pipes.
///
/// Standard input is a pipe exactly where a payload is given; otherwise the
/// process shares the standard input of the harness.
pub fn plan_run(
    config: Config,
    program: &str,
    command: CommandSpec,
    producer: Option<Producer>,
) -> (plan: RunPlan)
    ensures
        plan.describes(
            program@,
            views(command.args@),
            opt_bytes(command.stdin),
            opt_view(command.arg0),
            None,
            opt_producer(producer),
            config.verbose,
        ),
{
    let feed = command.stdin.is_some();
    let steps = steps_for(producer.is_some(), false, feed, config.verbose);
    RunPlan {
        program: program.to_owned(),
        arg0: command.arg0,
        args: command.args,
        stdin: if feed {
            Stream::Piped
        } else {
            Stream::Inherit
        },
        stdout: Stream::Piped,
        stderr: Stream::Piped,
        feed: command.stdin,
        producer,
        steps,
    }
}

/// Plans a run of `program` whose standard output goes to the file
/// `output`, which is created first; standard error is still captured
/// through a pipe.
pub fn plan_run_to_file(
    config: Config,
    program: &str,
    command: CommandSpec,
    producer: Option<Producer>,
    output: &str,
) -> (plan: RunPlan)
    ensures
        plan.describes(
            program@,
            views(command.args@),
            opt_bytes(command.stdin),
            opt_view(command.arg0),
            Some(output@),
            opt_producer(producer),
            config.verbose,
        ),
{
    let feed = command.stdin.is_some();
    let steps = steps_for(producer.is_some(), true, feed, config.verbose);
    RunPlan {
        program: program.to_owned(),
        arg0: command.arg0,
        args: command.args,
        stdin: if feed {
            Stream::Piped
        } else {
            Stream::Inherit
        },
        stdout: Stream::File(output.to_owned()),
        stderr: Stream::Piped,
        feed: command.stdin,
        producer,
        steps,
    }
}

/// `step` stands in `steps` before position `upto`.
pub open spec fn taken_before(steps: Seq<RunStep>, step: RunStep, upto: int) -> bool {
    exists|i: int| 0 <= i < upto && i < steps.len() && steps[i] == step
}

/// Once step `failed` has failed, the join `join` is still owed: `start`
/// was taken before the step that failed, and `join` was not taken yet.
pub open spec fn owes(steps: Seq<RunStep>, failed: int, start: RunStep, join: RunStep) -> bool {
    taken_before(steps, start, failed) && !taken_before(steps, join, failed + 1)
}

/// The steps that are still taken once step `failed` of `steps` has
/// failed: whatever was started before is joined, the feeder first and
/// the producer last, and nothing else is done. The run has failed all the
/// same, with the failure of step `failed`.
pub open spec fn owed_after(steps: Seq<RunStep>, failed: int) -> Seq<RunStep> {
    when(owes(steps, failed, RunStep::StartFeeder, RunStep::JoinFeeder), seq![RunStep::JoinFeeder])
        + when(
        owes(steps, failed, RunStep::StartProducer, RunStep::JoinProducer),
        seq![RunStep::JoinProducer],
    )
}

/// The steps that are taken in a run: all of them where none fails, else
/// those up to the one that fails and then the joins still owed.
pub open spec fn course(steps: Seq<RunStep>, failed: Option<int>) -> Seq<RunStep> {
    match failed {
        None => steps,
        Some(at) => steps.take(at + 1) + owed_after(steps, at),
    }
}

/// Whether `step` stands among the first `upto` of `steps`.
fn has_before(steps: &[RunStep], step: RunStep, upto: usize) -> (found: bool)
    ensures
        found == taken_before(steps@, step, upto as int),
{
    let mut i: usize = 0;
    while i < steps.len() && i < upto
        invariant
            i <= steps.len(),
            i <= upto,
            forall|k: int| 0 <= k < i ==> steps@[k] != step,
        decreases steps.len() - i,
    {
        if steps[i] == step {
            return true;
        }
        i += 1;
    }
    false
}

/// The steps that are still to be taken once step `failed` of `steps` has
/// failed, in the order in which they are taken.
pub fn owed_after_failure(steps: &[RunStep], failed: usize) -> (owed: Vec<RunStep>)
    ensures
        owed@ == owed_after(steps@, failed as int),
{
    let mut owed: Vec<RunStep> = Vec::new();
    let upto: usize = if failed < steps.len() {
        failed + 1
    } else {
        steps.len()
    };
    assert(forall|step: RunStep|
        taken_before(steps@, step, upto as int) == taken_before(steps@, step, failed + 1));
    if has_before(steps, RunStep::StartFeeder, failed) && !has_before(
        steps,
        RunStep::JoinFeeder,
        upto,
    ) {
        owed.push(RunStep::JoinFeeder);
    }
    if has_before(steps, RunStep::StartProducer, failed) && !has_before(
        steps,
        RunStep::JoinProducer,
        upto,
    ) {
        owed.push(RunStep::JoinProducer);
    }
    assert(owed@ =~= owed_after(steps@, failed as int));
    owed
}

/// A command as reports show it: the program, then its arguments in
/// order, between brackets and parted by blanks.
pub open spec fn command_text(program: Seq<char>, args: Seq<Seq<char>>) -> Seq<char> {
    program + " ["@ + joined(args, " "@) + "]"@
}

/// The report of a process that could not be started: the program, its
/// arguments in order, and why it did not start.
pub open spec fn spawn_failure_text(
    program: Seq<char>,
    args: Seq<Seq<char>>,
    cause: Seq<char>,
) -> Seq<char> {
    "cannot start "@ + command_text(program, args) + ": "@ + cause
}

/// A command as reports show it.
pub fn command_line(program: &str, args: &[String]) -> (line: String)
    ensures
        line@ == command_text(program@, views(args@)),
{
    let mut line = program.to_owned();
    line.append(" [");
    let list = join(args, " ");
    line.append(list.as_str());
    line.append("]");
    line
}

/// The report of a process that could not be started.
pub fn spawn_failure(program: &str, args: &[String], cause: &str) -> (report: String)
    ensures
        report@ == spawn_failure_text(program@, views(args@), cause@),
{
    let mut report = String::from_str("cannot start ");
    let line = command_line(program, args);
    report.append(line.as_str());
    report.append(": ");
    report.append(cause);
    report
}

/// Step `a` stands before step `b` in `steps`.
pub open spec fn precedes(steps: Seq<RunStep>, a: RunStep, b: RunStep) -> bool {
    exists|i: int, j: int|
        0 <= i < j < steps.len() && #[trigger] steps[i] == a && #[trigger] steps[j] == b
}

/// Every run starts its process once and waits for it once, in this order.
pub proof fn lemma_spawn_then_wait(producer: bool, to_file: bool, feed: bool, verbose: bool)
    ensures
        precedes(run_steps(producer, to_file, feed, verbose), RunStep::Spawn, RunStep::Wait),
{
    let steps = run_steps(producer, to_file, feed, verbose);
    let i = when(producer, seq![RunStep::StartProducer]).len() + when(
        to_file,
        seq![RunStep::OpenOutput],
    ).len();
    let j = i + 1 + when(feed, seq![RunStep::StartFeeder]).len();
    assert(steps[i as int] == RunStep::Spawn);
    assert(steps[j as int] == RunStep::Wait);
}

/// A payload is fed beside the wait: the feeder is started after the
/// process and before the wait for it, and is joined after the wait.
pub proof fn lemma_feeder_brackets_wait(producer: bool, to_file: bool, verbose: bool)
    ensures
        precedes(run_steps(producer, to_file, true, verbose), RunStep::Spawn, RunStep::StartFeeder),
        precedes(run_steps(producer, to_file, true, verbose), RunStep::StartFeeder, RunStep::Wait),
        precedes(run_steps(producer, to_file, true, verbose), RunStep::Wait, RunStep::JoinFeeder),
{
    let steps = run_steps(producer, to_file, true, verbose);
    let i = (when(producer, seq![RunStep::StartProducer]).len() + when(
        to_file,
        seq![RunStep::OpenOutput],
    ).len()) as int;
    assert(steps[i] == RunStep::Spawn);
    assert(steps[i + 1] == RunStep::StartFeeder);
    assert(steps[i + 2] == RunStep::Wait);
    assert(steps[i + 3] == RunStep::JoinFeeder);
}

/// A producer is started before the process that reads its pipe, and is
/// joined after that process has exited, as the last step of the run.
pub proof fn lemma_producer_brackets_run(to_file: bool, feed: bool, verbose: bool)
    ensures
        run_steps(true, to_file, feed, verbose).first() == RunStep::StartProducer,
        run_steps(true, to_file, feed, verbose).last() == RunStep::JoinProducer,
        precedes(run_steps(true, to_file, feed, verbose), RunStep::StartProducer, RunStep::Spawn),
        precedes(run_steps(true, to_file, feed, verbose), RunStep::Wait, RunStep::JoinProducer),
{
    let steps = run_steps(true, to_file, feed, verbose);
    let i = (1 + when(to_file, seq![RunStep::OpenOutput]).len()) as int;
    let j = i + 1 + when(feed, seq![RunStep::StartFeeder]).len();
    assert(steps[i] == RunStep::Spawn);
    assert(steps[j] == RunStep::Wait);
}

/// The file that takes standard output exists before the process starts.
pub proof fn lemma_output_opened_first(producer: bool, feed: bool, verbose: bool)
    ensures
        precedes(run_steps(producer, true, feed, verbose), RunStep::OpenOutput, RunStep::Spawn),
{
    let steps = run_steps(producer, true, feed, verbose);
    let i = when(producer, seq![RunStep::StartProducer]).len() as int;
    assert(steps[i] == RunStep::OpenOutput);
    assert(steps[i + 1] == RunStep::Spawn);
}

/// Nothing is started that is not needed: without a payload there is no
/// feeder, without a named pipe no producer, without a file no file.
pub proof fn lemma_no_idle_steps(producer: bool, to_file: bool, feed: bool, verbose: bool)
    ensures
        !feed ==> !run_steps(producer, to_file, feed, verbose).contains(RunStep::StartFeeder),
        !feed ==> !run_steps(producer, to_file, feed, verbose).contains(RunStep::JoinFeeder),
        !producer ==> !run_steps(producer, to_file, feed, verbose).contains(
            RunStep::StartProducer,
        ),
        !producer ==> !run_steps(producer, to_file, feed, verbose).contains(RunStep::JoinProducer),
        !to_file ==> !run_steps(producer, to_file, feed, verbose).contains(RunStep::OpenOutput),
        !verbose ==> !run_steps(producer, to_file, feed, verbose).contains(RunStep::Announce),
{
    let steps = run_steps(producer, to_file, feed, verbose);
    assert forall|i: int| 0 <= i < steps.len() implies {
        &&& !feed ==> steps[i] != RunStep::StartFeeder && steps[i] != RunStep::JoinFeeder
        &&& !producer ==> steps[i] != RunStep::StartProducer && steps[i] != RunStep::JoinProducer
        &&& !to_file ==> steps[i] != RunStep::OpenOutput
        &&& !verbose ==> steps[i] != RunStep::Announce
    } by {
        lemma_step_origin(producer, to_file, feed, verbose, i);
    }
}

/// Every step of a run is one of the eight, each only where it is wanted.
proof fn lemma_step_origin(producer: bool, to_file: bool, feed: bool, verbose: bool, i: int)
    requires
        0 <= i < run_steps(producer, to_file, feed, verbose).len(),
    ensures
        match run_steps(producer, to_file, feed, verbose)[i] {
            RunStep::StartProducer => producer,
            RunStep::OpenOutput => to_file,
            RunStep::Spawn => true,
            RunStep::StartFeeder => feed,
            RunStep::Wait => true,
            RunStep::JoinFeeder => feed,
            RunStep::Announce => verbose,
            RunStep::JoinProducer => producer,
        },
{
}

/// The library keeps no state between runs: whenever the same program is
/// planned with the same arguments, payload, name, output and producer,
/// the plan is the same in everything that the run depends on.
pub proof fn lemma_same_plan(
    first: RunPlan,
    second: RunPlan,
    program: Seq<char>,
    args: Seq<Seq<char>>,
    feed: Option<Seq<u8>>,
    arg0: Option<Seq<char>>,
    output: Option<Seq<char>>,
    producer: Option<ProducerModel>,
    verbose: bool,
)
    requires
        first.describes(program, args, feed, arg0, output, producer, verbose),
        second.describes(program, args, feed, arg0, output, producer, verbose),
    ensures
        first.program@ == second.program@,
        views(first.args@) == views(second.args@),
        opt_view(first.arg0) == opt_view(second.arg0),
        opt_bytes(first.feed) == opt_bytes(second.feed),
        first.stdin@ == second.stdin@,
        first.stdout@ == second.stdout@,
        first.stderr@ == second.stderr@,
        opt_producer(first.producer) == opt_producer(second.producer),
        first.steps@ == second.steps@,
{
}

/// A producer that was started is joined on every path, and joined last.
/// Where no step fails, the join is the last step of the plan. Where a
/// step fails after the producer was started, the join is still taken,
/// after everything else: a process that cannot be started, a wait that
/// fails or a feeder that fails leaves no producer behind. Where starting
/// the producer is what fails, there is nothing to join and nothing more
/// is done.
pub proof fn lemma_producer_always_joined(to_file: bool, feed: bool, verbose: bool, failed: int)
    requires
        0 <= failed < run_steps(true, to_file, feed, verbose).len(),
    ensures
        course(run_steps(true, to_file, feed, verbose), None).last() == RunStep::JoinProducer,
        failed > 0 ==> course(run_steps(true, to_file, feed, verbose), Some(failed)).last()
            == RunStep::JoinProducer,
        failed == 0 ==> course(run_steps(true, to_file, feed, verbose), Some(failed))
            == seq![RunStep::StartProducer],
{
    let steps = run_steps(true, to_file, feed, verbose);
    let last = steps.len() - 1;
    assert(steps[0] == RunStep::StartProducer);
    assert(steps[last] == RunStep::JoinProducer);
    assert forall|i: int| 0 <= i < last implies steps[i] != RunStep::JoinProducer by {
        lemma_step_origin(true, to_file, feed, verbose, i);
    }
    assert forall|i: int| 0 < i <= last implies steps[i] != RunStep::StartProducer by {
        lemma_step_origin(true, to_file, feed, verbose, i);
    }
    if failed == 0 {
        assert(!taken_before(steps, RunStep::StartProducer, 0));
        assert(!taken_before(steps, RunStep::StartFeeder, 0));
        assert(course(steps, Some(failed)) =~= seq![RunStep::StartProducer]);
    } else if failed < last {
        assert(owes(steps, failed, RunStep::StartProducer, RunStep::JoinProducer));
    } else {
        assert(steps.take(failed + 1) =~= steps);
        assert(taken_before(steps, RunStep::JoinProducer, failed + 1));
        assert(!owes(steps, failed, RunStep::StartFeeder, RunStep::JoinFeeder)) by {
            if feed {
                let at = last - 1 - when(verbose, seq![RunStep::Announce]).len();
                assert(steps[at] == RunStep::JoinFeeder);
            }
        }
    }
}

/// A feeder that was started is joined on every path: where a step after
/// its start fails before the feeder was joined, the join is the first
/// thing still done.
pub proof fn lemma_feeder_always_joined(
    producer: bool,
    to_file: bool,
    verbose: bool,
    failed: int,
)
    requires
        0 <= failed < run_steps(producer, to_file, true, verbose).len(),
        taken_before(run_steps(producer, to_file, true, verbose), RunStep::StartFeeder, failed),
        !taken_before(
            run_steps(producer, to_file, true, verbose),
            RunStep::JoinFeeder,
            failed + 1,
        ),
    ensures
        owed_after(run_steps(producer, to_file, true, verbose), failed).len() > 0,
        owed_after(run_steps(producer, to_file, true, verbose), failed)[0] == RunStep::JoinFeeder,
{
}

/// No join is taken for what was never started, and none is taken twice:
/// what is owed after a failure stands in the plan after the step that
/// failed, and its start stands before it.
pub proof fn lemma_owed_is_pending(steps: Seq<RunStep>, failed: int, k: int)
    requires
        0 <= k < owed_after(steps, failed).len(),
    ensures
        owed_after(steps, failed)[k] is JoinFeeder || owed_after(steps, failed)[k] is JoinProducer,
        owed_after(steps, failed)[k] is JoinFeeder ==> owes(
            steps,
            failed,
            RunStep::StartFeeder,
            RunStep::JoinFeeder,
        ),
        owed_after(steps, failed)[k] is JoinProducer ==> owes(
            steps,
            failed,
            RunStep::StartProducer,
            RunStep::JoinProducer,
        ),
{
}

/// A copy of a producer.
pub fn clone_producer(producer: &Producer) -> (copy: Producer)
    ensures
        copy@ == producer@,
{
    let mut steps: Vec<ProducerStep> = Vec::new();
    let mut i: usize = 0;
    while i < producer.steps.len()
        invariant
            i <= producer.steps.len(),
            steps@.len() == i,
            beats(steps@) == beats(producer.steps@).take(i as int),
        decreases producer.steps.len() - i,
    {
        let step = match &producer.steps[i] {
            ProducerStep::Write(bytes) => ProducerStep::Write(bytes.clone()),
            ProducerStep::Sleep(millis) => ProducerStep::Sleep(*millis),
        };
        let ghost before = steps@;
        steps.push(step);
        assert forall|k: int| 0 <= k < i + 1 implies beats(steps@)[k] == beats(
            producer.steps@,
        )[k] by {
            if k < i {
                assert(beats(before)[k] == beats(producer.steps@).take(i as int)[k]);
            }
        }
        i += 1;
    }
    assert(beats(steps@) =~= beats(producer.steps@));
    Producer { fifo: producer.fifo.clone(), steps }
}

/// A copy of a command.
pub fn clone_command(command: &CommandSpec) -> (copy: CommandSpec)
    ensures
        views(copy.args@) == views(command.args@),
        opt_bytes(copy.stdin) == opt_bytes(command.stdin),
        opt_view(copy.arg0) == opt_view(command.arg0),
{
    CommandSpec {
        args: clone_strings(command.args.as_slice()),
        stdin: match &command.stdin {
            Some(bytes) => Some(bytes.clone()),
            None => None,
        },
        arg0: match &command.arg0 {
            Some(name) => Some(name.clone()),
            None => None,
        },
    }
}

} // verus!
