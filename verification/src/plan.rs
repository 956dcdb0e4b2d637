//! Turning the description of a case into what is actually done: paths,
//! bytes, and the commands on which the two programs are compared.

use crate::cases::{
    CaseKind, Invocation, Payload, Place, Script, Setup, Shape, Spot, TestCase, Token,
};
use crate::compare::{PipeCheck, Probe};
use crate::fifo::{
    chunk_views, concatenated, expected_stream, lemma_script_writes_all, script, single_write,
    streaming, written,
};
use crate::fixtures::{artifact_content, child, child_path, content_of, FixtureKey, Fixtures};
use crate::harness::{
    build_args_with_file, build_args_with_multi, build_args_with_specific_file,
    build_args_with_stdin, build_args_with_stdin_file, fixture_bytes, Harness,
};
use crate::options::{fixture_key_for, pick_fixture_key};
use crate::random::random_bytes;
use crate::runner::{opt_bytes, opt_producer, Beat, ProducerModel};
use crate::text::{clone_strings, views};
use vstd::prelude::*;
use vstd::string::StringExecFns;

verus! {

/// A change to the file system, with every path and every byte fixed.
#[derive(Clone, Debug, PartialEq, Eq)]
pub enum FsAction {
    Write { path: String, content: Vec<u8> },
    Symlink { target: String, link: String },
    HardLink { existing: String, link: String },
    MakeDir { path: String },
    SetMode { path: String, mode: u32 },
    MakeFifo { path: String, mode: u32 },
}

/// What a change to the file system undertakes, as the report of a
/// failure names it.
pub open spec fn action_text(action: FsAction) -> Seq<char> {
    match action {
        FsAction::Write { path, .. } => "writing "@ + path@,
        FsAction::Symlink { target, link } => "linking "@ + link@ + " to "@ + target@,
        FsAction::HardLink { existing, link } => "linking "@ + link@ + " to "@ + existing@,
        FsAction::MakeDir { path } => "creating the directory "@ + path@,
        FsAction::SetMode { path, .. } => "setting the mode of "@ + path@,
        FsAction::MakeFifo { path, .. } => "creating the named pipe "@ + path@,
    }
}

/// The report of a change to the file system that failed: what was
/// undertaken, on which paths, and why it failed.
pub fn action_failure(action: &FsAction, cause: &str) -> (report: String)
    ensures
        report@ == action_text(*action) + ": "@ + cause@,
{
    let mut report = String::new();
    match action {
        FsAction::Write { path, .. } => {
            report.append("writing ");
            report.append(path.as_str());
        },
        FsAction::Symlink { target, link } => {
            report.append("linking ");
            report.append(link.as_str());
            report.append(" to ");
            report.append(target.as_str());
        },
        FsAction::HardLink { existing, link } => {
            report.append("linking ");
            report.append(link.as_str());
            report.append(" to ");
            report.append(existing.as_str());
        },
        FsAction::MakeDir { path } => {
            report.append("creating the directory ");
            report.append(path.as_str());
        },
        FsAction::SetMode { path, .. } => {
            report.append("setting the mode of ");
            report.append(path.as_str());
        },
        FsAction::MakeFifo { path, .. } => {
            report.append("creating the named pipe ");
            report.append(path.as_str());
        },
    }
    assert(report@ =~= action_text(*action));
    report.append(": ");
    report.append(cause);
    report
}

/// What is done for a case.
#[derive(Clone, Debug, PartialEq, Eq)]
pub enum CasePlan {
    /// Carry out `setup` in order; compare the two programs on each probe
    /// in turn, up to the first that does not pass; then carry out
    /// `cleanup`, whatever the comparisons gave.
    Compare { setup: Vec<FsAction>, probes: Vec<Probe>, cleanup: Vec<FsAction> },
    /// Carry out one of the scripted checks.
    Scripted(Script),
}

/// The path of a place below the fixture directory.
pub open spec fn spot_path(fx: Fixtures, spot: Spot) -> Seq<char> {
    match spot {
        Spot::InDir(name) => child(fx.dir@, name@),
        Spot::InSubdir(name) => child(fx.dir_path@, name@),
    }
}

/// The path of a place.
pub open spec fn place_path(fx: Fixtures, place: Place) -> Seq<char> {
    match place {
        Place::Artifact(artifact) => fx.place_of(artifact),
        Place::Own(spot) => spot_path(fx, spot),
        Place::Literal(path) => path@,
    }
}

/// The text of an argument.
pub open spec fn token_text(fx: Fixtures, token: Token) -> Seq<char> {
    match token {
        Token::Lit(text) => text@,
        Token::At(place) => place_path(fx, place),
    }
}

/// The texts of a list of arguments, in order.
pub open spec fn tokens_text(fx: Fixtures, tokens: Seq<Token>) -> Seq<Seq<char>> {
    Seq::new(tokens.len(), |i: int| token_text(fx, tokens[i]))
}

/// `unit`, `times` times over.
pub open spec fn repeated(unit: Seq<u8>, times: nat) -> Seq<u8>
    decreases times,
{
    if times == 0 {
        Seq::empty()
    } else {
        repeated(unit, (times - 1) as nat) + unit
    }
}

/// `bytes` is what the payload stands for. Random bytes are fixed in
/// their number only.
pub open spec fn payload_yields(fx: Fixtures, payload: Payload, bytes: Seq<u8>) -> bool {
    match payload {
        Payload::Bytes(b) => bytes == b@,
        Payload::Content(artifact) => bytes == artifact_content(artifact, fx.binary_data@),
        Payload::StdinData => bytes == fx.stdin_data@,
        Payload::StdinMix => bytes == fx.stdin_mix@,
        Payload::Random(len) => bytes.len() == len,
        Payload::Repeated { unit, times } => bytes == repeated(unit@, times as nat),
    }
}

/// `action` is the change that `setup` describes.
pub open spec fn setup_yields(fx: Fixtures, setup: Setup, action: FsAction) -> bool {
    match setup {
        Setup::Write { at, content } => {
            &&& action matches FsAction::Write { path, content: bytes }
            &&& path@ == spot_path(fx, at)
            &&& payload_yields(fx, content, bytes@)
        },
        Setup::Symlink { target, link } => {
            &&& action matches FsAction::Symlink { target: t, link: l }
            &&& t@ == place_path(fx, target)
            &&& l@ == spot_path(fx, link)
        },
        Setup::HardLink { existing, link } => {
            &&& action matches FsAction::HardLink { existing: o, link: l }
            &&& o@ == place_path(fx, existing)
            &&& l@ == spot_path(fx, link)
        },
        Setup::MakeDir(at) => {
            &&& action matches FsAction::MakeDir { path }
            &&& path@ == spot_path(fx, at)
        },
        Setup::SetMode { at, mode } => {
            &&& action matches FsAction::SetMode { path, mode: m }
            &&& path@ == spot_path(fx, at)
            &&& m == mode
        },
    }
}

/// `actions` are the changes that `setups` describe, in order.
pub open spec fn setups_yield(fx: Fixtures, setups: Seq<Setup>, actions: Seq<FsAction>) -> bool {
    &&& actions.len() == setups.len()
    &&& forall|i: int| 0 <= i < setups.len() ==> setup_yields(fx, setups[i], #[trigger] actions[i])
}

/// `probe` compares the two programs on these arguments and this
/// standard input, without a named pipe.
pub open spec fn is_plain_probe(
    probe: Probe,
    args: Seq<Seq<char>>,
    stdin: Option<Seq<u8>>,
) -> bool {
    &&& views(probe.args@) == args
    &&& opt_bytes(probe.stdin) == stdin
    &&& probe.producer is None
    &&& probe.check is AgainstReference
}

/// `probe` is the comparison that `run` describes.
pub open spec fn invocation_yields(fx: Fixtures, run: Invocation, probe: Probe) -> bool {
    &&& views(probe.args@) == tokens_text(fx, run.args@)
    &&& match run.stdin {
        Some(payload) => probe.stdin matches Some(bytes) && payload_yields(fx, payload, bytes@),
        None => probe.stdin is None,
    }
    &&& probe.producer is None
    &&& probe.check is AgainstReference
}

/// `probes` are the comparisons that `runs` describe, in order.
pub open spec fn invocations_yield(
    fx: Fixtures,
    runs: Seq<Invocation>,
    probes: Seq<Probe>,
) -> bool {
    &&& probes.len() == runs.len()
    &&& forall|i: int|
        0 <= i < runs.len() ==> invocation_yields(fx, runs[i], #[trigger] probes[i])
}

/// The plan creates a named pipe at `path` and nothing else, runs one
/// probe, and cleans nothing up.
pub open spec fn is_pipe_plan(plan: CasePlan, path: Seq<char>, mode: u32) -> bool {
    &&& plan matches CasePlan::Compare { setup, probes, cleanup }
    &&& setup@.len() == 1
    &&& setup@[0] matches FsAction::MakeFifo { path: p, mode: m }
    &&& p@ == path
    &&& m == mode
    &&& probes@.len() == 1
    &&& cleanup@.len() == 0
}

/// The only probe of a plan.
pub open spec fn only_probe(plan: CasePlan) -> Probe {
    plan->probes@[0]
}

/// The arguments and the standard input of a generated case.
pub open spec fn matrix_probe(h: &Harness, shape: Shape, opts: Seq<Seq<char>>) -> (
    Seq<Seq<char>>,
    Option<Seq<u8>>,
) {
    let key = fixture_key_for(opts);
    let fixture = h.fixtures.path_of(key);
    let content = content_of(key, h.fixtures.binary_data@);
    match shape {
        Shape::File => (opts.push(fixture), None),
        Shape::Multi => (opts.push(fixture).push(h.fixtures.sample_b@), None),
        Shape::Stdin => (opts.push("-"@), Some(content)),
        Shape::StdinFile => (opts.push("-"@).push(h.fixtures.sample_b@), Some(content)),
        Shape::Binary => (opts.push(h.fixtures.path_of(FixtureKey::Binary)), None),
    }
}

/// `plan` is what is done for a case of this kind.
pub open spec fn plan_matches(h: &Harness, kind: CaseKind, plan: CasePlan) -> bool {
    match kind {
        CaseKind::Matrix { shape, opts } => {
            &&& plan matches CasePlan::Compare { setup, probes, cleanup }
            &&& setup@.len() == 0
            &&& cleanup@.len() == 0
            &&& probes@.len() == 1
            &&& is_plain_probe(
                probes@[0],
                matrix_probe(h, shape, views(opts@)).0,
                matrix_probe(h, shape, views(opts@)).1,
            )
        },
        CaseKind::Compare { setup, runs, cleanup } => {
            &&& plan matches CasePlan::Compare { setup: before, probes, cleanup: after }
            &&& setups_yield(h.fixtures, setup@, before@)
            &&& invocations_yield(h.fixtures, runs@, probes@)
            &&& setups_yield(h.fixtures, cleanup@, after@)
        },
        CaseKind::Fifo { fifo, mode, flags, payload, .. } => {
            let path = spot_path(h.fixtures, fifo);
            &&& is_pipe_plan(plan, path, mode)
            &&& views(only_probe(plan).args@) == views(flags@).push(path)
            &&& only_probe(plan).stdin is None
            &&& only_probe(plan).check is AgainstReference
            &&& only_probe(plan).producer matches Some(producer)
            &&& producer@.fifo == path
            &&& producer@.beats.len() == 1
            &&& producer@.beats[0] matches Beat::Write(bytes)
            &&& payload_yields(h.fixtures, payload, bytes)
        },
        CaseKind::Stream { fifo, mode, chunks, delay } => {
            let path = spot_path(h.fixtures, fifo);
            &&& is_pipe_plan(plan, path, mode)
            &&& views(only_probe(plan).args@) == seq![path]
            &&& only_probe(plan).stdin is None
            &&& only_probe(plan).check matches PipeCheck::Expect(bytes)
            &&& bytes@ == concatenated(chunk_views(chunks@))
            &&& opt_producer(only_probe(plan).producer) == Some(
                ProducerModel { fifo: path, beats: script(chunk_views(chunks@), delay) },
            )
        },
        CaseKind::Scripted(script) => plan == CasePlan::Scripted(script),
    }
}

/// The path of a place below the fixture directory.
pub fn resolve_spot(fx: &Fixtures, spot: &Spot) -> (path: String)
    ensures
        path@ == spot_path(*fx, *spot),
{
    match spot {
        Spot::InDir(name) => child_path(fx.dir.as_str(), name.as_str()),
        Spot::InSubdir(name) => child_path(fx.dir_path.as_str(), name.as_str()),
    }
}

/// The path of a place.
pub fn resolve_place(fx: &Fixtures, place: &Place) -> (path: String)
    ensures
        path@ == place_path(*fx, *place),
{
    match place {
        Place::Artifact(artifact) => fx.artifact_path(*artifact).clone(),
        Place::Own(spot) => resolve_spot(fx, spot),
        Place::Literal(path) => path.clone(),
    }
}

/// The texts of a list of arguments.
pub fn resolve_tokens(fx: &Fixtures, tokens: &Vec<Token>) -> (args: Vec<String>)
    ensures
        views(args@) == tokens_text(*fx, tokens@),
{
    let mut args: Vec<String> = Vec::new();
    let mut i: usize = 0;
    while i < tokens.len()
        invariant
            i <= tokens.len(),
            views(args@) == tokens_text(*fx, tokens@).take(i as int),
        decreases tokens.len() - i,
    {
        let text = match &tokens[i] {
            Token::Lit(text) => text.clone(),
            Token::At(place) => resolve_place(fx, place),
        };
        args.push(text);
        assert(tokens_text(*fx, tokens@).take(i + 1) =~= tokens_text(*fx, tokens@).take(
            i as int,
        ).push(token_text(*fx, tokens@[i as int])));
        i += 1;
    }
    args
}

/// `unit`, `times` times over.
pub fn repeat_bytes(unit: &Vec<u8>, times: usize) -> (bytes: Vec<u8>)
    ensures
        bytes@ == repeated(unit@, times as nat),
{
    let mut bytes: Vec<u8> = Vec::new();
    let mut done: usize = 0;
    while done < times
        invariant
            done <= times,
            bytes@ == repeated(unit@, done as nat),
        decreases times - done,
    {
        let ghost before = bytes@;
        let mut j: usize = 0;
        while j < unit.len()
            invariant
                j <= unit.len(),
                bytes@ == before + unit@.take(j as int),
            decreases unit.len() - j,
        {
            bytes.push(unit[j]);
            j += 1;
        }
        done += 1;
    }
    bytes
}

/// The bytes that a payload stands for. Random bytes are drawn here.
pub fn resolve_payload(fx: &Fixtures, payload: &Payload) -> (bytes: Vec<u8>)
    ensures
        payload_yields(*fx, *payload, bytes@),
{
    match payload {
        Payload::Bytes(b) => b.clone(),
        Payload::Content(artifact) => fx.artifact_bytes(*artifact),
        Payload::StdinData => fx.stdin_data.clone(),
        Payload::StdinMix => fx.stdin_mix.clone(),
        Payload::Random(len) => random_bytes(*len),
        Payload::Repeated { unit, times } => repeat_bytes(unit, *times),
    }
}

/// The change that a setup describes.
pub fn resolve_setup(fx: &Fixtures, setup: &Setup) -> (action: FsAction)
    ensures
        setup_yields(*fx, *setup, action),
{
    match setup {
        Setup::Write { at, content } => FsAction::Write {
            path: resolve_spot(fx, at),
            content: resolve_payload(fx, content),
        },
        Setup::Symlink { target, link } => FsAction::Symlink {
            target: resolve_place(fx, target),
            link: resolve_spot(fx, link),
        },
        Setup::HardLink { existing, link } => FsAction::HardLink {
            existing: resolve_place(fx, existing),
            link: resolve_spot(fx, link),
        },
        Setup::MakeDir(at) => FsAction::MakeDir { path: resolve_spot(fx, at) },
        Setup::SetMode { at, mode } => FsAction::SetMode {
            path: resolve_spot(fx, at),
            mode: *mode,
        },
    }
}

/// The changes that a list of setups describes, in order.
pub fn resolve_setups(fx: &Fixtures, setups: &Vec<Setup>) -> (actions: Vec<FsAction>)
    ensures
        setups_yield(*fx, setups@, actions@),
{
    let mut actions: Vec<FsAction> = Vec::new();
    let mut i: usize = 0;
    while i < setups.len()
        invariant
            i <= setups.len(),
            actions@.len() == i,
            forall|k: int| 0 <= k < i ==> setup_yields(*fx, setups@[k], #[trigger] actions@[k]),
        decreases setups.len() - i,
    {
        let action = resolve_setup(fx, &setups[i]);
        actions.push(action);
        i += 1;
    }
    actions
}

/// The comparison that an invocation describes.
pub fn resolve_invocation(fx: &Fixtures, run: &Invocation) -> (probe: Probe)
    ensures
        invocation_yields(*fx, *run, probe),
{
    Probe {
        args: resolve_tokens(fx, &run.args),
        stdin: match &run.stdin {
            Some(payload) => Some(resolve_payload(fx, payload)),
            None => None,
        },
        producer: None,
        check: PipeCheck::AgainstReference,
    }
}

/// The comparison of a generated case.
fn matrix_case_probe(h: &Harness, shape: Shape, opts: &Vec<String>) -> (probe: Probe)
    ensures
        is_plain_probe(
            probe,
            matrix_probe(h, shape, views(opts@)).0,
            matrix_probe(h, shape, views(opts@)).1,
        ),
{
    let flags = opts.as_slice();
    let (args, stdin) = match shape {
        Shape::File => (build_args_with_file(h, flags), None),
        Shape::Multi => (build_args_with_multi(h, flags), None),
        Shape::Stdin => {
            let key = pick_fixture_key(flags);
            (build_args_with_stdin(flags), Some(fixture_bytes(h, key)))
        },
        Shape::StdinFile => {
            let key = pick_fixture_key(flags);
            (build_args_with_stdin_file(h, flags), Some(fixture_bytes(h, key)))
        },
        Shape::Binary => (build_args_with_specific_file(h, flags, FixtureKey::Binary), None),
    };
    Probe { args, stdin, producer: None, check: PipeCheck::AgainstReference }
}

/// Works out what is done for a case: which changes to the file system
/// come first, on which commands the two programs are compared, and which
/// changes come last.
pub fn plan_case(h: &Harness, case: &TestCase) -> (plan: CasePlan)
    ensures
        plan_matches(h, case.kind, plan),
{
    let fx = &h.fixtures;
    match &case.kind {
        CaseKind::Matrix { shape, opts } => {
            let mut probes: Vec<Probe> = Vec::new();
            probes.push(matrix_case_probe(h, *shape, opts));
            CasePlan::Compare { setup: Vec::new(), probes, cleanup: Vec::new() }
        },
        CaseKind::Compare { setup, runs, cleanup } => {
            let before = resolve_setups(fx, setup);
            let mut probes: Vec<Probe> = Vec::new();
            let mut i: usize = 0;
            while i < runs.len()
                invariant
                    i <= runs.len(),
                    probes@.len() == i,
                    forall|k: int|
                        0 <= k < i ==> invocation_yields(*fx, runs@[k], #[trigger] probes@[k]),
                decreases runs.len() - i,
            {
                let probe = resolve_invocation(fx, &runs[i]);
                probes.push(probe);
                i += 1;
            }
            let after = resolve_setups(fx, cleanup);
            CasePlan::Compare { setup: before, probes, cleanup: after }
        },
        CaseKind::Fifo { fifo, mode, flags, payload, .. } => {
            let path = resolve_spot(fx, fifo);
            let bytes = resolve_payload(fx, payload);
            let producer = single_write(path.as_str(), bytes.as_slice());
            let mut args = clone_strings(flags.as_slice());
            args.push(path.clone());
            assert(views(args@) =~= views(flags@).push(path@));
            let mut setup: Vec<FsAction> = Vec::new();
            setup.push(FsAction::MakeFifo { path, mode: *mode });
            let mut probes: Vec<Probe> = Vec::new();
            probes.push(
                Probe {
                    args,
                    stdin: None,
                    producer: Some(producer),
                    check: PipeCheck::AgainstReference,
                },
            );
            CasePlan::Compare { setup, probes, cleanup: Vec::new() }
        },
        CaseKind::Stream { fifo, mode, chunks, delay } => {
            let path = resolve_spot(fx, fifo);
            let producer = streaming(path.as_str(), chunks, *delay);
            let expected = expected_stream(chunks);
            let mut args: Vec<String> = Vec::new();
            args.push(path.clone());
            assert(views(args@) =~= seq![path@]);
            let mut setup: Vec<FsAction> = Vec::new();
            setup.push(FsAction::MakeFifo { path, mode: *mode });
            let mut probes: Vec<Probe> = Vec::new();
            probes.push(
                Probe {
                    args,
                    stdin: None,
                    producer: Some(producer),
                    check: PipeCheck::Expect(expected),
                },
            );
            CasePlan::Compare { setup, probes, cleanup: Vec::new() }
        },
        CaseKind::Scripted(script) => CasePlan::Scripted(*script),
    }
}


/// The path that a change to the file system creates or alters.
pub open spec fn touched(action: FsAction) -> Seq<char> {
    match action {
        FsAction::Write { path, .. } => path@,
        FsAction::Symlink { link, .. } => link@,
        FsAction::HardLink { link, .. } => link@,
        FsAction::MakeDir { path } => path@,
        FsAction::SetMode { path, .. } => path@,
        FsAction::MakeFifo { path, .. } => path@,
    }
}

/// `path` lies below the directory `dir`.
pub open spec fn lies_below(path: Seq<char>, dir: Seq<char>) -> bool {
    &&& path.len() > dir.len()
    &&& path.subrange(0, dir.len() as int) == dir
    &&& path[dir.len() as int] == '/'
}

/// Every place of a case's own lies below the fixture directory.
pub proof fn lemma_spot_below(fx: Fixtures, spot: Spot)
    requires
        fx.wf(),
    ensures
        lies_below(spot_path(fx, spot), fx.dir@),
{
    let path = spot_path(fx, spot);
    assert(path.subrange(0, fx.dir@.len() as int) =~= fx.dir@);
}

/// Whatever a case creates or alters before or after its comparisons lies
/// below the fixture directory: nothing outside the directory of the run
/// is touched.
pub proof fn lemma_setup_stays_inside(fx: Fixtures, setup: Setup, action: FsAction)
    requires
        fx.wf(),
        setup_yields(fx, setup, action),
    ensures
        lies_below(touched(action), fx.dir@),
{
    match setup {
        Setup::Write { at, .. } => lemma_spot_below(fx, at),
        Setup::Symlink { link, .. } => lemma_spot_below(fx, link),
        Setup::HardLink { link, .. } => lemma_spot_below(fx, link),
        Setup::MakeDir(at) => lemma_spot_below(fx, at),
        Setup::SetMode { at, .. } => lemma_spot_below(fx, at),
    }
}

/// The same of a whole plan: every change that it makes to the file
/// system lies below the fixture directory.
pub proof fn lemma_plan_stays_inside(h: &Harness, kind: CaseKind, plan: CasePlan, i: int)
    requires
        h.fixtures.wf(),
        plan_matches(h, kind, plan),
        plan is Compare,
    ensures
        0 <= i < plan->setup@.len() ==> lies_below(touched(plan->setup@[i]), h.fixtures.dir@),
        0 <= i < plan->cleanup@.len() ==> lies_below(touched(plan->cleanup@[i]), h.fixtures.dir@),
{
    let fx = h.fixtures;
    match kind {
        CaseKind::Matrix { .. } => {},
        CaseKind::Compare { setup, cleanup, .. } => {
            if 0 <= i < plan->setup@.len() {
                lemma_setup_stays_inside(fx, setup@[i], plan->setup@[i]);
            }
            if 0 <= i < plan->cleanup@.len() {
                lemma_setup_stays_inside(fx, cleanup@[i], plan->cleanup@[i]);
            }
        },
        CaseKind::Fifo { fifo, .. } => {
            lemma_spot_below(fx, fifo);
        },
        CaseKind::Stream { fifo, .. } => {
            lemma_spot_below(fx, fifo);
        },
        CaseKind::Scripted(_) => {},
    }
}


/// A stream case expects out of the program exactly what its producer
/// writes into the pipe: the chunks, in the order in which they are
/// written, whatever the pause between them.
pub proof fn lemma_stream_expects_what_is_written(h: &Harness, kind: CaseKind, plan: CasePlan)
    requires
        kind is Stream,
        plan_matches(h, kind, plan),
    ensures
        only_probe(plan).check is Expect,
        only_probe(plan).producer is Some,
        only_probe(plan).check->Expect_0@ == written(only_probe(plan).producer->Some_0@.beats),
{
    lemma_script_writes_all(chunk_views(kind->chunks@), kind->delay);
}

} // verus!
