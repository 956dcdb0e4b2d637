//! The hand-written cases: flag handling, operand handling, error paths
//! and special files, each under its own name.

use crate::cases::{CaseKind, Invocation, Payload, Place, Script, Setup, Spot, TestCase, Token};
use crate::fixtures::Artifact;
use crate::generated::{add_matrix_cases, matrix_cases};
use crate::names::{generated_names, lemma_generated_names_distinct, lemma_generated_names_marked};
use crate::roster::{
    hand_written_names, lemma_hand_written_names_distinct, lemma_hand_written_names_unmarked,
    names_1, names_10, names_11, names_12, names_2, names_3, names_4, names_5, names_6, names_7,
    names_8, names_9,
};
use crate::suite::{case_names, distinct, Registry};
use crate::text::{push_text, utf8};
use vstd::prelude::*;
use vstd::string::StringExecFns;

verus! {

/// None of the cases is a generated one.
pub open spec fn none_generated(cases: Seq<TestCase>) -> bool {
    forall|i: int| 0 <= i < cases.len() ==> !((#[trigger] cases[i]).kind is Matrix)
}

/// The bytes of a text.
fn bytes_of(content: &str) -> (bytes: Vec<u8>)
    ensures
        bytes@ == utf8(content@),
{
    let mut bytes: Vec<u8> = Vec::new();
    push_text(&mut bytes, content);
    bytes
}

/// A payload of text.
fn text(content: &str) -> (payload: Payload)
    ensures
        payload matches Payload::Bytes(bytes) && bytes@ == utf8(content@),
{
    Payload::Bytes(bytes_of(content))
}

/// `unit`, `times` times over.
fn repeat_text(unit: &str, times: usize) -> (out: String)
    ensures
        out@.len() == times * unit@.len(),
{
    let mut out = String::new();
    let mut done: usize = 0;
    while done < times
        invariant
            done <= times,
            out@.len() == done * unit@.len(),
        decreases times - done,
    {
        out.append(unit);
        assert((done + 1) * unit@.len() == done * unit@.len() + unit@.len()) by (nonlinear_arith);
        done += 1;
    }
    out
}

/// An argument that is passed as it stands.
fn lit(token: &str) -> (arg: Token)
    ensures
        arg matches Token::Lit(t) && t@ == token@,
{
    Token::Lit(String::from_str(token))
}

/// An argument that is the path of an artifact.
fn file(artifact: Artifact) -> (arg: Token)
    ensures
        arg == Token::At(Place::Artifact(artifact)),
{
    Token::At(Place::Artifact(artifact))
}

/// The entry `name` of the fixture directory.
fn spot(name: &str) -> (at: Spot)
    ensures
        at matches Spot::InDir(n) && n@ == name@,
{
    Spot::InDir(String::from_str(name))
}

/// The entry `name` of the subdirectory.
fn sub_spot(name: &str) -> (at: Spot)
    ensures
        at matches Spot::InSubdir(n) && n@ == name@,
{
    Spot::InSubdir(String::from_str(name))
}

/// A case that compares the two programs on one command.
fn compare(name: &str, args: Vec<Token>, stdin: Option<Payload>) -> (case: TestCase)
    ensures
        case.name@ == name@,
        case.kind is Compare,
        case.kind->setup@.len() == 0,
        case.kind->runs@ == seq![Invocation { args, stdin }],
        case.kind->cleanup@.len() == 0,
{
    TestCase {
        name: String::from_str(name),
        kind: CaseKind::Compare {
            setup: Vec::new(),
            runs: vec![Invocation { args, stdin }],
            cleanup: Vec::new(),
        },
    }
}

/// A case that prepares the file system and then compares the two
/// programs on one command.
fn prepared(name: &str, setup: Vec<Setup>, args: Vec<Token>, stdin: Option<Payload>) -> (case:
    TestCase)
    ensures
        case.name@ == name@,
        case.kind is Compare,
        case.kind->setup == setup,
        case.kind->runs@ == seq![Invocation { args, stdin }],
        case.kind->cleanup@.len() == 0,
{
    TestCase {
        name: String::from_str(name),
        kind: CaseKind::Compare {
            setup,
            runs: vec![Invocation { args, stdin }],
            cleanup: Vec::new(),
        },
    }
}

/// A case that prepares the file system, compares the two programs on
/// several commands and puts things back.
fn guarded(name: &str, setup: Vec<Setup>, runs: Vec<Invocation>, cleanup: Vec<Setup>) -> (case:
    TestCase)
    ensures
        case.name@ == name@,
        case.kind == (CaseKind::Compare { setup, runs, cleanup }),
{
    TestCase { name: String::from_str(name), kind: CaseKind::Compare { setup, runs, cleanup } }
}

/// A case that compares the two programs on a named pipe.
fn fifo(
    name: &str,
    at: Spot,
    mode: u32,
    flags: Vec<String>,
    payload: Payload,
    label: &str,
) -> (case: TestCase)
    ensures
        case.name@ == name@,
        case.kind is Fifo,
        case.kind->Fifo_fifo == at,
        case.kind->Fifo_mode == mode,
        case.kind->flags == flags,
        case.kind->payload == payload,
        case.kind->label@ == label@,
{
    TestCase {
        name: String::from_str(name),
        kind: CaseKind::Fifo { fifo: at, mode, flags, payload, label: String::from_str(label) },
    }
}

/// A case that feeds the program under test through a named pipe in
/// chunks.
fn stream(name: &str, at: Spot, mode: u32, chunks: Vec<Vec<u8>>, delay: u64) -> (case: TestCase)
    ensures
        case.name@ == name@,
        case.kind == (CaseKind::Stream { fifo: at, mode, chunks, delay }),
{
    TestCase {
        name: String::from_str(name),
        kind: CaseKind::Stream { fifo: at, mode, chunks, delay },
    }
}

/// A case that carries out a scripted check.
fn scripted(name: &str, script: Script) -> (case: TestCase)
    ensures
        case.name@ == name@,
        case.kind == CaseKind::Scripted(script),
{
    TestCase { name: String::from_str(name), kind: CaseKind::Scripted(script) }
}

/// Puts a hand-written case behind the others.
fn enter(cases: &mut Vec<TestCase>, case: TestCase)
    requires
        none_generated(old(cases)@),
        !(case.kind is Matrix),
    ensures
        none_generated(final(cases)@),
        final(cases)@ == old(cases)@.push(case),
        case_names(final(cases)@) == case_names(old(cases)@).push(case.name@),
{
    cases.push(case);
    assert(case_names(cases@) =~= case_names(old(cases)@).push(case.name@));
}

/// Cases 1 to 24.
#[verifier::rlimit(30)]
fn part_1(cases: &mut Vec<TestCase>)
    requires
        none_generated(old(cases)@),
    ensures
        none_generated(final(cases)@),
        final(cases)@.len() == old(cases)@.len() + 24,
        case_names(final(cases)@) == case_names(old(cases)@) + names_1(),
{
    enter(cases, compare("single file", vec![file(Artifact::SampleA)], None));
    enter(
        cases,
        compare(
            "multiple files",
            vec![file(Artifact::SampleA), file(Artifact::SampleB), file(Artifact::Blank)],
            None,
        ),
    );
    enter(cases, compare("stdin only", vec![lit("-")], Some(Payload::StdinData)));
    enter(
        cases,
        compare(
            "dash operand",
            vec![file(Artifact::SampleA), lit("-"), file(Artifact::SampleB)],
            Some(Payload::StdinMix),
        ),
    );
    enter(cases, compare("dash filename", vec![lit("--"), file(Artifact::DashName)], None));
    enter(cases, compare("-n option", vec![lit("-n"), file(Artifact::Blank)], None));
    enter(
        cases,
        compare(
            "-n across files",
            vec![lit("-n"), file(Artifact::SampleA), file(Artifact::Blank)],
            None,
        ),
    );
    enter(cases, compare("-E option", vec![lit("-E"), file(Artifact::Blank)], None));
    enter(cases, compare("-T option (file)", vec![lit("-T"), file(Artifact::Tabs)], None));
    enter(
        cases,
        compare(
            "-T option (stdin)",
            vec![lit("-T"), lit("-")],
            Some(Payload::Content(Artifact::Tabs)),
        ),
    );
    enter(cases, compare("-E option large", vec![lit("-E"), file(Artifact::Large)], None));
    enter(cases, compare("-E option huge", vec![lit("-E"), file(Artifact::Huge)], None));
    enter(
        cases,
        fifo(
            "-T fifo fast path",
            spot("tabs_fast.fifo"),
            0o644,
            vec![String::from_str("-T")],
            Payload::Content(Artifact::Tabs),
            "-T fifo",
        ),
    );
    enter(cases, compare("-nET combo", vec![lit("-nET"), file(Artifact::Tabs)], None));
    enter(cases, compare("-EnT combo order", vec![lit("-EnT"), file(Artifact::Tabs)], None));
    enter(cases, compare("stdin numbered", vec![lit("-n"), lit("-")], Some(Payload::StdinData)));
    enter(cases, compare("empty file", vec![file(Artifact::Empty)], None));
    enter(cases, compare("no newline + -E", vec![lit("-E"), file(Artifact::NoNewline)], None));
    enter(cases, compare("large file streaming", vec![file(Artifact::Large)], None));
    enter(cases, compare("-n large file", vec![lit("-n"), file(Artifact::Large)], None));
    enter(
        cases,
        compare(
            "dash filename with numbering",
            vec![lit("-n"), lit("--"), file(Artifact::DashName)],
            None,
        ),
    );
    enter(cases, compare("bundle -nb", vec![lit("-nb"), file(Artifact::Blank)], None));
    enter(cases, compare("bundle -bn", vec![lit("-bn"), file(Artifact::Blank)], None));
    enter(cases, compare("bundle -ns", vec![lit("-ns"), file(Artifact::Blank)], None));
    assert(case_names(cases@) =~= case_names(old(cases)@) + names_1());
}

/// Cases 25 to 48.
#[verifier::rlimit(30)]
fn part_2(cases: &mut Vec<TestCase>)
    requires
        none_generated(old(cases)@),
    ensures
        none_generated(final(cases)@),
        final(cases)@.len() == old(cases)@.len() + 24,
        case_names(final(cases)@) == case_names(old(cases)@) + names_2(),
{
    enter(cases, compare("bundle -sn", vec![lit("-sn"), file(Artifact::Blank)], None));
    enter(cases, compare("-n empty file", vec![lit("-n"), file(Artifact::Empty)], None));
    enter(cases, compare("-b empty file", vec![lit("-b"), file(Artifact::Empty)], None));
    enter(cases, compare("-s empty file", vec![lit("-s"), file(Artifact::Empty)], None));
    enter(cases, compare("-v with tabs file", vec![lit("-v"), file(Artifact::Tabs)], None));
    enter(cases, compare("-T with no tabs", vec![lit("-T"), file(Artifact::SampleA)], None));
    enter(cases, compare("-E with tabs file", vec![lit("-E"), file(Artifact::Tabs)], None));
    enter(cases, compare("-A with tabs file", vec![lit("-A"), file(Artifact::Tabs)], None));
    enter(cases, compare("-e with no newline", vec![lit("-e"), file(Artifact::NoNewline)], None));
    enter(
        cases,
        compare(
            "-t with tabs via stdin",
            vec![lit("-t"), lit("-")],
            Some(Payload::Content(Artifact::Tabs)),
        ),
    );
    enter(cases, compare("-b option", vec![lit("-b"), file(Artifact::Blank)], None));
    enter(cases, compare("-s option", vec![lit("-s"), file(Artifact::Blank)], None));
    enter(cases, compare("-v option", vec![lit("-v"), file(Artifact::Control)], None));
    enter(cases, compare("-A shortcut", vec![lit("-A"), file(Artifact::Control)], None));
    enter(cases, compare("-e shortcut", vec![lit("-e"), file(Artifact::Control)], None));
    enter(cases, compare("-t shortcut", vec![lit("-t"), file(Artifact::Tabs)], None));
    enter(cases, compare("-u option", vec![lit("-u"), file(Artifact::SampleA)], None));
    enter(
        cases,
        compare("bundled options -bnEs", vec![lit("-bnEs"), file(Artifact::Blank)], None),
    );
    enter(
        cases,
        compare(
            "option-like operand after file",
            vec![file(Artifact::SampleA), file(Artifact::OptionLike)],
            None,
        ),
    );
    enter(
        cases,
        compare("-- stops option parsing", vec![lit("--"), file(Artifact::DashVFile)], None),
    );
    enter(
        cases,
        compare(
            "-- mid-argv parsing",
            vec![lit("-n"), lit("--"), lit("-n"), file(Artifact::SampleA)],
            None,
        ),
    );
    enter(
        cases,
        compare(
            "stdin then option-like operand",
            vec![lit("-"), lit("-n")],
            Some(Payload::StdinData),
        ),
    );
    enter(
        cases,
        prepared(
            "multiple -- markers",
            vec![Setup::Write { at: sub_spot("--"), content: text("double dash file\n") }],
            vec![
                lit("--"),
                file(Artifact::SampleA),
                Token::At(Place::Own(sub_spot("--"))),
                file(Artifact::SampleB),
            ],
            None,
        ),
    );
    enter(
        cases,
        compare("redundant -n flags", vec![lit("-n"), lit("-n"), file(Artifact::SampleA)], None),
    );
    assert(case_names(cases@) =~= case_names(old(cases)@) + names_2());
}

/// Cases 49 to 72.
#[verifier::rlimit(30)]
fn part_3(cases: &mut Vec<TestCase>)
    requires
        none_generated(old(cases)@),
    ensures
        none_generated(final(cases)@),
        final(cases)@.len() == old(cases)@.len() + 24,
        case_names(final(cases)@) == case_names(old(cases)@) + names_3(),
{
    enter(
        cases,
        compare("options after operand parsed", vec![file(Artifact::SampleA), lit("-n")], None),
    );
    enter(
        cases,
        compare("long option after operand", vec![file(Artifact::SampleA), lit("--number")], None),
    );
    enter(
        cases,
        compare("long option stdin", vec![lit("--number"), lit("-")], Some(Payload::StdinData)),
    );
    enter(
        cases,
        guarded(
            "long options",
            Vec::new(),
            vec![
                Invocation { args: vec![lit("--number"), file(Artifact::Blank)], stdin: None },
                Invocation {
                    args: vec![lit("--number-nonblank"), file(Artifact::Blank)],
                    stdin: None,
                },
                Invocation {
                    args: vec![lit("--squeeze-blank"), file(Artifact::Blank)],
                    stdin: None,
                },
                Invocation { args: vec![lit("--show-ends"), file(Artifact::Blank)], stdin: None },
                Invocation { args: vec![lit("--show-tabs"), file(Artifact::Tabs)], stdin: None },
                Invocation {
                    args: vec![lit("--show-nonprinting"), file(Artifact::Control)],
                    stdin: None,
                },
                Invocation { args: vec![lit("--show-all"), file(Artifact::Control)], stdin: None },
            ],
            Vec::new(),
        ),
    );
    enter(
        cases,
        compare(
            "option permutation mixed",
            vec![file(Artifact::SampleA), lit("-n"), file(Artifact::SampleB), lit("--show-ends")],
            None,
        ),
    );
    enter(
        cases,
        compare(
            "option permutation stdin",
            vec![file(Artifact::SampleA), lit("-"), lit("-n"), file(Artifact::SampleB)],
            Some(text("stdin line 1\nstdin line 2\n")),
        ),
    );
    enter(cases, compare("double dash no operands", vec![lit("--")], Some(Payload::StdinData)));
    enter(cases, compare("invalid long option", vec![lit("--nope")], None));
    enter(cases, compare("invalid long option equals", vec![lit("--number=1")], None));
    enter(cases, compare("unknown long option equals", vec![lit("--nope=1")], None));
    enter(cases, compare("long option disallow arg", vec![lit("--help=1")], None));
    enter(cases, compare("huge file numbering", vec![lit("-n"), file(Artifact::Huge)], None));
    enter(cases, compare("binary passthrough", vec![file(Artifact::Binary)], None));
    enter(
        cases,
        fifo(
            "plain stdout fifo fast path",
            spot("plain_out.fifo"),
            0o644,
            Vec::new(),
            Payload::Content(Artifact::Large),
            "fifo plain",
        ),
    );
    enter(
        cases,
        fifo(
            "-n fifo fast path",
            spot("num_fast.fifo"),
            0o644,
            vec![String::from_str("-n")],
            Payload::Content(Artifact::Large),
            "-n fifo",
        ),
    );
    enter(
        cases,
        fifo(
            "-v fifo fast path",
            spot("vis_fast.fifo"),
            0o644,
            vec![String::from_str("-v")],
            Payload::Content(Artifact::Control),
            "-v fifo",
        ),
    );
    enter(
        cases,
        stream(
            "fifo streaming",
            spot("stream.fifo"),
            0o644,
            vec![bytes_of("chunk1\n"), bytes_of("chunk2\n")],
            50,
        ),
    );
    enter(cases, scripted("--help switch", Script::HelpOutput));
    enter(cases, scripted("--version switch", Script::VersionOutput));
    enter(cases, scripted("--help stdout closed", Script::HelpStdoutClosed));
    enter(
        cases,
        guarded(
            "ENOENT vs EACCES messaging",
            vec![
                Setup::Write { at: sub_spot("locked.txt"), content: text("locked") },
                Setup::SetMode { at: sub_spot("locked.txt"), mode: 0o000 },
            ],
            vec![
                Invocation { args: vec![Token::At(Place::Own(sub_spot("nope")))], stdin: None },
                Invocation {
                    args: vec![Token::At(Place::Own(sub_spot("locked.txt")))],
                    stdin: None,
                },
            ],
            vec![Setup::SetMode { at: sub_spot("locked.txt"), mode: 0o600 }],
        ),
    );
    enter(cases, compare("directory operand error", vec![file(Artifact::Subdir)], None));
    enter(
        cases,
        compare(
            "very long path ENAMETOOLONG",
            vec![Token::At(Place::Own(Spot::InSubdir(repeat_text("a", 5000))))],
            None,
        ),
    );
    enter(
        cases,
        compare("missing file error", vec![Token::At(Place::Own(spot("missing.txt")))], None),
    );
    assert(case_names(cases@) =~= case_names(old(cases)@) + names_3());
}

/// Cases 73 to 96.
#[verifier::rlimit(30)]
fn part_4(cases: &mut Vec<TestCase>)
    requires
        none_generated(old(cases)@),
    ensures
        none_generated(final(cases)@),
        final(cases)@.len() == old(cases)@.len() + 24,
        case_names(final(cases)@) == case_names(old(cases)@) + names_4(),
{
    enter(
        cases,
        compare(
            "missing among files",
            vec![
                file(Artifact::SampleA),
                Token::At(Place::Own(spot("missing.txt"))),
                file(Artifact::SampleB),
            ],
            None,
        ),
    );
    enter(cases, compare("bad option error", vec![lit("-x")], None));
    enter(cases, compare("-bs combo", vec![lit("-b"), lit("-s"), file(Artifact::Blank)], None));
    enter(
        cases,
        compare("-- then -n filename", vec![lit("--"), file(Artifact::OptionLike)], None),
    );
    enter(cases, compare("-nT combo", vec![lit("-nT"), file(Artifact::Tabs)], None));
    enter(
        cases,
        compare(
            "stdin huge numbering",
            vec![lit("-n"), lit("-")],
            Some(Payload::Content(Artifact::Huge)),
        ),
    );
    enter(cases, compare("stdin empty", vec![lit("-")], Some(text(""))));
    enter(
        cases,
        compare(
            "dash file before options",
            vec![lit("--"), file(Artifact::DashName), lit("-n")],
            None,
        ),
    );
    enter(
        cases,
        prepared(
            "literal dash filename",
            vec![Setup::Write { at: spot("-"), content: text("dash literal\n") }],
            vec![lit("--"), Token::At(Place::Own(spot("-")))],
            None,
        ),
    );
    enter(
        cases,
        compare("double stdin operands", vec![lit("-"), lit("-")], Some(Payload::StdinData)),
    );
    enter(
        cases,
        compare(
            "stdin via -- then file",
            vec![lit("--"), lit("-"), file(Artifact::SampleA)],
            Some(Payload::StdinData),
        ),
    );
    enter(cases, scripted("broken pipe write error", Script::BrokenPipe));
    enter(
        cases,
        fifo(
            "fifo decorated -vE",
            sub_spot("decorated.fifo"),
            0o700,
            vec![String::from_str("-vE")],
            text("line1\n\nline2\tend\n"),
            "fifo decorated",
        ),
    );
    enter(
        cases,
        compare("binary passthrough pipe", vec![lit("-")], Some(Payload::Random(2 * 1024 * 1024))),
    );
    enter(
        cases,
        compare(
            "mixed stdin and file numbering",
            vec![lit("-n"), lit("-"), file(Artifact::SampleA), lit("-")],
            Some(text("stdin first\nstdin second\n")),
        ),
    );
    enter(cases, compare("no newline + -n", vec![lit("-n"), file(Artifact::NoNewline)], None));
    enter(cases, compare("no newline + -b", vec![lit("-b"), file(Artifact::NoNewline)], None));
    enter(cases, compare("-s with no blanks", vec![lit("-s"), file(Artifact::SampleA)], None));
    enter(
        cases,
        compare(
            "combo -ns across files",
            vec![lit("-ns"), file(Artifact::SampleA), file(Artifact::Blank)],
            None,
        ),
    );
    enter(cases, compare("binary with -v", vec![lit("-v"), file(Artifact::Binary)], None));
    enter(cases, compare("binary with -A", vec![lit("-A"), file(Artifact::Binary)], None));
    enter(
        cases,
        prepared(
            "visible DEL",
            vec![Setup::Write { at: spot("del.txt"), content: text("del:\u{7f}!\n") }],
            vec![lit("-v"), Token::At(Place::Own(spot("del.txt")))],
            None,
        ),
    );
    enter(
        cases,
        prepared(
            "line state across files",
            vec![
                Setup::Write { at: spot("no_newline_boundary.txt"), content: text("first") },
                Setup::Write { at: spot("newline_boundary.txt"), content: text("second\n") },
            ],
            vec![
                lit("-n"),
                Token::At(Place::Own(spot("no_newline_boundary.txt"))),
                Token::At(Place::Own(spot("newline_boundary.txt"))),
            ],
            None,
        ),
    );
    enter(
        cases,
        prepared(
            "squeeze across files",
            vec![
                Setup::Write { at: spot("blank_a.txt"), content: text("line1\n\n") },
                Setup::Write { at: spot("blank_b.txt"), content: text("\n\nline2\n") },
            ],
            vec![
                lit("-s"),
                Token::At(Place::Own(spot("blank_a.txt"))),
                Token::At(Place::Own(spot("blank_b.txt"))),
            ],
            None,
        ),
    );
    assert(case_names(cases@) =~= case_names(old(cases)@) + names_4());
}

/// Cases 97 to 120.
#[verifier::rlimit(30)]
fn part_5(cases: &mut Vec<TestCase>)
    requires
        none_generated(old(cases)@),
    ensures
        none_generated(final(cases)@),
        final(cases)@.len() == old(cases)@.len() + 24,
        case_names(final(cases)@) == case_names(old(cases)@) + names_5(),
{
    enter(
        cases,
        prepared(
            "number nonblank across files",
            vec![
                Setup::Write { at: spot("b_across_a.txt"), content: text("line1\n\n") },
                Setup::Write { at: spot("b_across_b.txt"), content: text("\nline2\n") },
            ],
            vec![
                lit("-b"),
                Token::At(Place::Own(spot("b_across_a.txt"))),
                Token::At(Place::Own(spot("b_across_b.txt"))),
            ],
            None,
        ),
    );
    enter(
        cases,
        prepared(
            "squeeze + no newline boundary",
            vec![
                Setup::Write { at: spot("squeeze_no_nl_a.txt"), content: text("line1\n\n") },
                Setup::Write { at: spot("squeeze_no_nl_b.txt"), content: text("\nline2") },
            ],
            vec![
                lit("-s"),
                Token::At(Place::Own(spot("squeeze_no_nl_a.txt"))),
                Token::At(Place::Own(spot("squeeze_no_nl_b.txt"))),
            ],
            None,
        ),
    );
    enter(
        cases,
        prepared(
            "large line numbers",
            vec![
                Setup::Write {
                    at: spot("million_lines.txt"),
                    content: Payload::Repeated { unit: bytes_of("x\n"), times: 1_000_005 },
                },
            ],
            vec![lit("-n"), Token::At(Place::Own(spot("million_lines.txt")))],
            None,
        ),
    );
    enter(cases, compare("combo -nE", vec![lit("-nE"), file(Artifact::Blank)], None));
    enter(cases, compare("combo -bE", vec![lit("-bE"), file(Artifact::Blank)], None));
    enter(cases, compare("combo -bT", vec![lit("-bT"), file(Artifact::Tabs)], None));
    enter(cases, compare("combo -sE", vec![lit("-sE"), file(Artifact::Blank)], None));
    enter(cases, compare("combo -sT", vec![lit("-sT"), file(Artifact::Tabs)], None));
    enter(cases, compare("combo -A -s", vec![lit("-As"), file(Artifact::Blank)], None));
    enter(cases, compare("combo -e -s", vec![lit("-es"), file(Artifact::Blank)], None));
    enter(cases, compare("combo -t -s", vec![lit("-ts"), file(Artifact::Blank)], None));
    enter(
        cases,
        compare("order -b then -n", vec![lit("-b"), lit("-n"), file(Artifact::Blank)], None),
    );
    enter(
        cases,
        compare("order -n then -b", vec![lit("-n"), lit("-b"), file(Artifact::Blank)], None),
    );
    enter(
        cases,
        compare(
            "order --number then --number-nonblank",
            vec![lit("--number"), lit("--number-nonblank"), file(Artifact::Blank)],
            None,
        ),
    );
    enter(
        cases,
        compare(
            "order --number-nonblank then --number",
            vec![lit("--number-nonblank"), lit("--number"), file(Artifact::Blank)],
            None,
        ),
    );
    enter(
        cases,
        compare("order -s then -n", vec![lit("-s"), lit("-n"), file(Artifact::Blank)], None),
    );
    enter(
        cases,
        compare("order -n then -s", vec![lit("-n"), lit("-s"), file(Artifact::Blank)], None),
    );
    enter(
        cases,
        compare("order -E then -T", vec![lit("-E"), lit("-T"), file(Artifact::Tabs)], None),
    );
    enter(
        cases,
        compare("order -T then -E", vec![lit("-T"), lit("-E"), file(Artifact::Tabs)], None),
    );
    enter(cases, compare("combo -nsvE", vec![lit("-nsvE"), file(Artifact::Control)], None));
    enter(cases, compare("combo -bsvE", vec![lit("-bsvE"), file(Artifact::Control)], None));
    enter(
        cases,
        prepared(
            "file named --help with --",
            vec![Setup::Write { at: spot("--help"), content: text("help file\n") }],
            vec![lit("--"), Token::At(Place::Own(spot("--help")))],
            None,
        ),
    );
    enter(
        cases,
        prepared(
            "file named --version with --",
            vec![Setup::Write { at: spot("--version"), content: text("version file\n") }],
            vec![lit("--"), Token::At(Place::Own(spot("--version")))],
            None,
        ),
    );
    enter(
        cases,
        compare("double dash then dash", vec![lit("--"), lit("-")], Some(Payload::StdinData)),
    );
    assert(case_names(cases@) =~= case_names(old(cases)@) + names_5());
}

/// Cases 121 to 144.
#[verifier::rlimit(30)]
fn part_6(cases: &mut Vec<TestCase>)
    requires
        none_generated(old(cases)@),
    ensures
        none_generated(final(cases)@),
        final(cases)@.len() == old(cases)@.len() + 24,
        case_names(final(cases)@) == case_names(old(cases)@) + names_6(),
{
    enter(
        cases,
        compare(
            "stdin with option between dashes",
            vec![lit("-"), lit("-n"), lit("-")],
            Some(text("first\nsecond\n")),
        ),
    );
    enter(
        cases,
        prepared(
            "space in filename",
            vec![Setup::Write { at: spot("space name.txt"), content: text("space\n") }],
            vec![Token::At(Place::Own(spot("space name.txt")))],
            None,
        ),
    );
    enter(
        cases,
        compare(
            "multiple stdin operands with options",
            vec![lit("-n"), lit("-"), lit("-"), lit("-")],
            Some(text("a\nb\n")),
        ),
    );
    enter(
        cases,
        prepared(
            "ENOTDIR path",
            vec![Setup::Write { at: spot("notdir"), content: text("data") }],
            vec![Token::At(Place::Own(spot("notdir/child")))],
            None,
        ),
    );
    enter(
        cases,
        prepared(
            "ELOOP symlink",
            vec![
                Setup::Symlink { target: Place::Own(spot("loop_b")), link: spot("loop_a") },
                Setup::Symlink { target: Place::Own(spot("loop_a")), link: spot("loop_b") },
            ],
            vec![Token::At(Place::Own(spot("loop_a")))],
            None,
        ),
    );
    enter(
        cases,
        compare("directory operand with -n", vec![lit("-n"), file(Artifact::Subdir)], None),
    );
    enter(
        cases,
        compare("directory operand with -v", vec![lit("-v"), file(Artifact::Subdir)], None),
    );
    enter(
        cases,
        compare(
            "missing file with -n",
            vec![lit("-n"), Token::At(Place::Own(spot("missing_numbered.txt")))],
            None,
        ),
    );
    enter(
        cases,
        compare(
            "missing file with -v among files",
            vec![
                lit("-v"),
                file(Artifact::SampleA),
                Token::At(Place::Own(spot("missing_visible.txt"))),
                file(Artifact::SampleB),
            ],
            None,
        ),
    );
    enter(
        cases,
        prepared(
            "visible CR",
            vec![Setup::Write { at: spot("cr.txt"), content: text("carriage\rreturn\n") }],
            vec![lit("-v"), Token::At(Place::Own(spot("cr.txt")))],
            None,
        ),
    );
    enter(
        cases,
        prepared(
            "visible NUL",
            vec![Setup::Write { at: spot("nul.txt"), content: text("nul:\u{0}x\n") }],
            vec![lit("-v"), Token::At(Place::Own(spot("nul.txt")))],
            None,
        ),
    );
    enter(
        cases,
        prepared(
            "visible 0xFF",
            vec![
                Setup::Write {
                    at: spot("ff.txt"),
                    content: Payload::Bytes(vec![102u8, 102u8, 58u8, 255u8, 33u8, 10u8]),
                },
            ],
            vec![lit("-v"), Token::At(Place::Own(spot("ff.txt")))],
            None,
        ),
    );
    enter(
        cases,
        prepared(
            "tabs without newline -T",
            vec![Setup::Write { at: spot("tabs_no_nl.txt"), content: text("a\tb") }],
            vec![lit("-T"), Token::At(Place::Own(spot("tabs_no_nl.txt")))],
            None,
        ),
    );
    enter(
        cases,
        prepared(
            "tabs without newline -A",
            vec![Setup::Write { at: spot("tabs_no_nl_a.txt"), content: text("a\tb") }],
            vec![lit("-A"), Token::At(Place::Own(spot("tabs_no_nl_a.txt")))],
            None,
        ),
    );
    enter(
        cases,
        prepared(
            "long line no newline -n",
            vec![
                Setup::Write {
                    at: spot("long_line.txt"),
                    content: Payload::Repeated { unit: vec![120u8], times: 600_000 },
                },
            ],
            vec![lit("-n"), Token::At(Place::Own(spot("long_line.txt")))],
            None,
        ),
    );
    enter(
        cases,
        prepared(
            "only newlines file -s",
            vec![Setup::Write { at: spot("only_newlines.txt"), content: text("\n\n\n\n") }],
            vec![lit("-s"), Token::At(Place::Own(spot("only_newlines.txt")))],
            None,
        ),
    );
    enter(
        cases,
        compare("stdin only newlines -s", vec![lit("-s"), lit("-")], Some(text("\n\n\n\n"))),
    );
    enter(cases, compare("stdin empty with -n", vec![lit("-n"), lit("-")], Some(text(""))));
    enter(cases, compare("binary with -T", vec![lit("-T"), file(Artifact::Binary)], None));
    enter(cases, compare("binary with -E", vec![lit("-E"), file(Artifact::Binary)], None));
    enter(
        cases,
        fifo(
            "fifo squeeze blank",
            spot("squeeze.fifo"),
            0o644,
            vec![String::from_str("-s")],
            text("one\n\n\n\nthree\n"),
            "fifo squeeze",
        ),
    );
    enter(
        cases,
        fifo(
            "fifo show ends",
            spot("show_ends.fifo"),
            0o644,
            vec![String::from_str("-E")],
            text("one\n\n"),
            "fifo show ends",
        ),
    );
    enter(
        cases,
        fifo(
            "fifo numbered show ends",
            spot("num_ends.fifo"),
            0o644,
            vec![String::from_str("-nE")],
            text("one\n\n"),
            "fifo numbered ends",
        ),
    );
    enter(
        cases,
        compare("--show-ends stdin", vec![lit("--show-ends"), lit("-")], Some(Payload::StdinData)),
    );
    assert(case_names(cases@) =~= case_names(old(cases)@) + names_6());
}

/// Cases 145 to 168.
#[verifier::rlimit(30)]
fn part_7(cases: &mut Vec<TestCase>)
    requires
        none_generated(old(cases)@),
    ensures
        none_generated(final(cases)@),
        final(cases)@.len() == old(cases)@.len() + 24,
        case_names(final(cases)@) == case_names(old(cases)@) + names_7(),
{
    enter(
        cases,
        compare(
            "--show-tabs stdin",
            vec![lit("--show-tabs"), lit("-")],
            Some(Payload::Content(Artifact::Tabs)),
        ),
    );
    enter(
        cases,
        compare(
            "--show-nonprinting stdin",
            vec![lit("--show-nonprinting"), lit("-")],
            Some(Payload::Content(Artifact::Control)),
        ),
    );
    enter(
        cases,
        compare(
            "--show-all stdin",
            vec![lit("--show-all"), lit("-")],
            Some(Payload::Content(Artifact::Control)),
        ),
    );
    enter(
        cases,
        compare(
            "--number-nonblank stdin",
            vec![lit("--number-nonblank"), lit("-")],
            Some(Payload::Content(Artifact::Blank)),
        ),
    );
    enter(
        cases,
        compare(
            "--squeeze-blank stdin",
            vec![lit("--squeeze-blank"), lit("-")],
            Some(Payload::Content(Artifact::Blank)),
        ),
    );
    enter(cases, compare("repeat -n", vec![lit("-nn"), file(Artifact::Blank)], None));
    enter(
        cases,
        compare(
            "--number --show-ends",
            vec![lit("--number"), lit("--show-ends"), file(Artifact::Blank)],
            None,
        ),
    );
    enter(
        cases,
        compare(
            "--number --show-tabs",
            vec![lit("--number"), lit("--show-tabs"), file(Artifact::Tabs)],
            None,
        ),
    );
    enter(
        cases,
        compare(
            "--number --show-nonprinting",
            vec![lit("--number"), lit("--show-nonprinting"), file(Artifact::Control)],
            None,
        ),
    );
    enter(
        cases,
        compare(
            "--number --show-all",
            vec![lit("--number"), lit("--show-all"), file(Artifact::Control)],
            None,
        ),
    );
    enter(
        cases,
        compare(
            "--number-nonblank --show-ends",
            vec![lit("--number-nonblank"), lit("--show-ends"), file(Artifact::Blank)],
            None,
        ),
    );
    enter(
        cases,
        compare(
            "--number-nonblank --show-tabs",
            vec![lit("--number-nonblank"), lit("--show-tabs"), file(Artifact::Tabs)],
            None,
        ),
    );
    enter(
        cases,
        compare(
            "--number-nonblank --show-nonprinting",
            vec![lit("--number-nonblank"), lit("--show-nonprinting"), file(Artifact::Control)],
            None,
        ),
    );
    enter(
        cases,
        compare(
            "--number-nonblank --show-all",
            vec![lit("--number-nonblank"), lit("--show-all"), file(Artifact::Control)],
            None,
        ),
    );
    enter(
        cases,
        compare(
            "--squeeze-blank --number",
            vec![lit("--squeeze-blank"), lit("--number"), file(Artifact::Blank)],
            None,
        ),
    );
    enter(
        cases,
        compare(
            "--squeeze-blank --number-nonblank",
            vec![lit("--squeeze-blank"), lit("--number-nonblank"), file(Artifact::Blank)],
            None,
        ),
    );
    enter(
        cases,
        compare(
            "--squeeze-blank --show-ends",
            vec![lit("--squeeze-blank"), lit("--show-ends"), file(Artifact::Blank)],
            None,
        ),
    );
    enter(
        cases,
        compare(
            "--squeeze-blank --show-tabs",
            vec![lit("--squeeze-blank"), lit("--show-tabs"), file(Artifact::Tabs)],
            None,
        ),
    );
    enter(
        cases,
        compare(
            "--squeeze-blank --show-nonprinting",
            vec![lit("--squeeze-blank"), lit("--show-nonprinting"), file(Artifact::Control)],
            None,
        ),
    );
    enter(
        cases,
        compare(
            "--squeeze-blank --show-all",
            vec![lit("--squeeze-blank"), lit("--show-all"), file(Artifact::Control)],
            None,
        ),
    );
    enter(
        cases,
        compare(
            "stdin + file --number",
            vec![lit("--number"), lit("-"), file(Artifact::SampleA)],
            Some(Payload::StdinData),
        ),
    );
    enter(
        cases,
        compare(
            "stdin + file --number-nonblank",
            vec![lit("--number-nonblank"), lit("-"), file(Artifact::SampleA)],
            Some(Payload::Content(Artifact::Blank)),
        ),
    );
    enter(
        cases,
        compare(
            "stdin + file --show-ends",
            vec![lit("--show-ends"), lit("-"), file(Artifact::SampleA)],
            Some(Payload::StdinData),
        ),
    );
    enter(
        cases,
        compare(
            "stdin + file --show-tabs",
            vec![lit("--show-tabs"), lit("-"), file(Artifact::SampleA)],
            Some(Payload::Content(Artifact::Tabs)),
        ),
    );
    assert(case_names(cases@) =~= case_names(old(cases)@) + names_7());
}

/// Cases 169 to 192.
#[verifier::rlimit(30)]
fn part_8(cases: &mut Vec<TestCase>)
    requires
        none_generated(old(cases)@),
    ensures
        none_generated(final(cases)@),
        final(cases)@.len() == old(cases)@.len() + 24,
        case_names(final(cases)@) == case_names(old(cases)@) + names_8(),
{
    enter(
        cases,
        compare(
            "stdin + file --show-nonprinting",
            vec![lit("--show-nonprinting"), lit("-"), file(Artifact::SampleA)],
            Some(Payload::Content(Artifact::Control)),
        ),
    );
    enter(
        cases,
        compare(
            "stdin + file --show-all",
            vec![lit("--show-all"), lit("-"), file(Artifact::SampleA)],
            Some(Payload::Content(Artifact::Control)),
        ),
    );
    enter(
        cases,
        prepared(
            "number across empty then data",
            vec![Setup::Write { at: spot("empty_then_data.txt"), content: text("") }],
            vec![
                lit("-n"),
                Token::At(Place::Own(spot("empty_then_data.txt"))),
                file(Artifact::SampleA),
            ],
            None,
        ),
    );
    enter(
        cases,
        prepared(
            "number-nonblank across empty then data",
            vec![Setup::Write { at: spot("empty_then_data_b.txt"), content: text("") }],
            vec![
                lit("-b"),
                Token::At(Place::Own(spot("empty_then_data_b.txt"))),
                file(Artifact::SampleA),
            ],
            None,
        ),
    );
    enter(
        cases,
        prepared(
            "squeeze across empty then blank",
            vec![Setup::Write { at: spot("empty_then_blank.txt"), content: text("") }],
            vec![
                lit("-s"),
                Token::At(Place::Own(spot("empty_then_blank.txt"))),
                file(Artifact::Blank),
            ],
            None,
        ),
    );
    enter(
        cases,
        compare(
            "show-ends across no-newline then file",
            vec![lit("-E"), file(Artifact::NoNewline), file(Artifact::SampleB)],
            None,
        ),
    );
    enter(
        cases,
        compare(
            "number across no-newline then file",
            vec![lit("-n"), file(Artifact::NoNewline), file(Artifact::SampleB)],
            None,
        ),
    );
    enter(
        cases,
        compare(
            "number-nonblank across no-newline then file",
            vec![lit("-b"), file(Artifact::NoNewline), file(Artifact::SampleB)],
            None,
        ),
    );
    enter(
        cases,
        prepared(
            "symlink to file",
            vec![
                Setup::Symlink {
                    target: Place::Artifact(Artifact::SampleA),
                    link: spot("link_to_a.txt"),
                },
            ],
            vec![Token::At(Place::Own(spot("link_to_a.txt")))],
            None,
        ),
    );
    enter(
        cases,
        prepared(
            "symlink to directory",
            vec![
                Setup::Symlink {
                    target: Place::Artifact(Artifact::Subdir),
                    link: spot("link_to_dir"),
                },
            ],
            vec![Token::At(Place::Own(spot("link_to_dir")))],
            None,
        ),
    );
    enter(
        cases,
        prepared(
            "hardlink to file",
            vec![
                Setup::HardLink {
                    existing: Place::Artifact(Artifact::SampleB),
                    link: spot("hardlink_b.txt"),
                },
            ],
            vec![Token::At(Place::Own(spot("hardlink_b.txt")))],
            None,
        ),
    );
    enter(cases, compare("dev null operand", vec![lit("/dev/null")], None));
    enter(
        cases,
        fifo(
            "fifo number nonblank",
            spot("num_nonblank.fifo"),
            0o644,
            vec![String::from_str("-b")],
            text("one\n\nthree\n"),
            "fifo number nonblank",
        ),
    );
    enter(
        cases,
        prepared(
            "file named --show-ends with --",
            vec![Setup::Write { at: spot("--show-ends"), content: text("show ends file\n") }],
            vec![lit("--"), Token::At(Place::Own(spot("--show-ends")))],
            None,
        ),
    );
    enter(
        cases,
        prepared(
            "crlf file -E",
            vec![Setup::Write { at: spot("crlf_e.txt"), content: text("one\\r\\ntwo\\r\\n") }],
            vec![lit("-E"), Token::At(Place::Own(spot("crlf_e.txt")))],
            None,
        ),
    );
    enter(
        cases,
        prepared(
            "crlf file -v",
            vec![Setup::Write { at: spot("crlf_v.txt"), content: text("one\\r\\ntwo\\r\\n") }],
            vec![lit("-v"), Token::At(Place::Own(spot("crlf_v.txt")))],
            None,
        ),
    );
    enter(
        cases,
        prepared(
            "tabs + control -A",
            vec![Setup::Write { at: spot("tabs_control.txt"), content: text("tab\\t\\x01\\n") }],
            vec![lit("-A"), Token::At(Place::Own(spot("tabs_control.txt")))],
            None,
        ),
    );
    enter(
        cases,
        prepared(
            "utf8 bytes -v",
            vec![Setup::Write { at: spot("utf8_v.txt"), content: text("\u{e9}\n") }],
            vec![lit("-v"), Token::At(Place::Own(spot("utf8_v.txt")))],
            None,
        ),
    );
    enter(
        cases,
        prepared(
            "nul file -A",
            vec![Setup::Write { at: spot("nul_a.txt"), content: text("nul\\0end\\n") }],
            vec![lit("-A"), Token::At(Place::Own(spot("nul_a.txt")))],
            None,
        ),
    );
    enter(
        cases,
        compare(
            "redundant --number -n",
            vec![lit("--number"), lit("-n"), file(Artifact::Blank)],
            None,
        ),
    );
    enter(
        cases,
        compare(
            "redundant --number-nonblank -b",
            vec![lit("--number-nonblank"), lit("-b"), file(Artifact::Blank)],
            None,
        ),
    );
    enter(
        cases,
        compare(
            "redundant --squeeze-blank -s",
            vec![lit("--squeeze-blank"), lit("-s"), file(Artifact::Blank)],
            None,
        ),
    );
    enter(
        cases,
        compare(
            "redundant --show-ends -E",
            vec![lit("--show-ends"), lit("-E"), file(Artifact::Blank)],
            None,
        ),
    );
    enter(
        cases,
        compare(
            "redundant --show-tabs -T",
            vec![lit("--show-tabs"), lit("-T"), file(Artifact::Tabs)],
            None,
        ),
    );
    assert(case_names(cases@) =~= case_names(old(cases)@) + names_8());
}

/// Cases 193 to 216.
#[verifier::rlimit(30)]
fn part_9(cases: &mut Vec<TestCase>)
    requires
        none_generated(old(cases)@),
    ensures
        none_generated(final(cases)@),
        final(cases)@.len() == old(cases)@.len() + 24,
        case_names(final(cases)@) == case_names(old(cases)@) + names_9(),
{
    enter(
        cases,
        compare(
            "redundant --show-nonprinting -v",
            vec![lit("--show-nonprinting"), lit("-v"), file(Artifact::Control)],
            None,
        ),
    );
    enter(
        cases,
        compare(
            "redundant --show-all -A",
            vec![lit("--show-all"), lit("-A"), file(Artifact::Control)],
            None,
        ),
    );
    enter(cases, compare("combo -e -t", vec![lit("-e"), lit("-t"), file(Artifact::Tabs)], None));
    enter(cases, compare("combo -t -e", vec![lit("-t"), lit("-e"), file(Artifact::Tabs)], None));
    enter(cases, compare("combo -e -n", vec![lit("-e"), lit("-n"), file(Artifact::Blank)], None));
    enter(cases, compare("combo -t -n", vec![lit("-t"), lit("-n"), file(Artifact::Tabs)], None));
    enter(cases, compare("combo -e -b", vec![lit("-e"), lit("-b"), file(Artifact::Blank)], None));
    enter(cases, compare("combo -t -b", vec![lit("-t"), lit("-b"), file(Artifact::Tabs)], None));
    enter(cases, compare("combo -u -n", vec![lit("-u"), lit("-n"), file(Artifact::Blank)], None));
    enter(cases, compare("combo -u -b", vec![lit("-u"), lit("-b"), file(Artifact::Blank)], None));
    enter(cases, compare("combo -u -s", vec![lit("-u"), lit("-s"), file(Artifact::Blank)], None));
    enter(
        cases,
        compare("combo -u -v", vec![lit("-u"), lit("-v"), file(Artifact::Control)], None),
    );
    enter(
        cases,
        compare(
            "combo -u --show-all",
            vec![lit("-u"), lit("--show-all"), file(Artifact::Control)],
            None,
        ),
    );
    enter(
        cases,
        compare(
            "file stdin file --number",
            vec![lit("--number"), file(Artifact::SampleA), lit("-"), file(Artifact::SampleB)],
            Some(text("stdin line 1\\nstdin line 2\\n")),
        ),
    );
    enter(
        cases,
        compare(
            "file stdin file --number-nonblank",
            vec![
                lit("--number-nonblank"),
                file(Artifact::SampleA),
                lit("-"),
                file(Artifact::SampleB),
            ],
            Some(text("\\nstdin\\n\\n")),
        ),
    );
    enter(
        cases,
        compare(
            "file stdin file --squeeze-blank",
            vec![
                lit("--squeeze-blank"),
                file(Artifact::SampleA),
                lit("-"),
                file(Artifact::SampleB),
            ],
            Some(text("line1\\n\\n\\nline2\\n")),
        ),
    );
    enter(
        cases,
        compare(
            "file stdin file --show-ends",
            vec![lit("--show-ends"), file(Artifact::SampleA), lit("-"), file(Artifact::SampleB)],
            Some(text("stdin\\n")),
        ),
    );
    enter(
        cases,
        compare(
            "file stdin file --show-tabs",
            vec![lit("--show-tabs"), file(Artifact::SampleA), lit("-"), file(Artifact::SampleB)],
            Some(Payload::Content(Artifact::Tabs)),
        ),
    );
    enter(
        cases,
        compare(
            "file stdin file --show-all",
            vec![lit("--show-all"), file(Artifact::SampleA), lit("-"), file(Artifact::SampleB)],
            Some(Payload::Content(Artifact::Control)),
        ),
    );
    enter(
        cases,
        prepared(
            "file named --number with --",
            vec![Setup::Write { at: spot("--number"), content: text("number file\\n") }],
            vec![lit("--"), Token::At(Place::Own(spot("--number")))],
            None,
        ),
    );
    enter(
        cases,
        prepared(
            "file named --show-tabs with --",
            vec![Setup::Write { at: spot("--show-tabs"), content: text("tabs file\\n") }],
            vec![lit("--"), Token::At(Place::Own(spot("--show-tabs")))],
            None,
        ),
    );
    enter(
        cases,
        prepared(
            "file named --squeeze-blank with --",
            vec![Setup::Write { at: spot("--squeeze-blank"), content: text("squeeze file\\n") }],
            vec![lit("--"), Token::At(Place::Own(spot("--squeeze-blank")))],
            None,
        ),
    );
    enter(
        cases,
        prepared(
            "file named -e with --",
            vec![Setup::Write { at: spot("-e"), content: text("dash e file\\n") }],
            vec![lit("--"), Token::At(Place::Own(spot("-e")))],
            None,
        ),
    );
    enter(
        cases,
        prepared(
            "file named -- with -n",
            vec![Setup::Write { at: spot("--"), content: text("double dash file\\n") }],
            vec![lit("-n"), lit("--"), Token::At(Place::Own(spot("--")))],
            None,
        ),
    );
    assert(case_names(cases@) =~= case_names(old(cases)@) + names_9());
}

/// Cases 217 to 240.
#[verifier::rlimit(30)]
fn part_10(cases: &mut Vec<TestCase>)
    requires
        none_generated(old(cases)@),
    ensures
        none_generated(final(cases)@),
        final(cases)@.len() == old(cases)@.len() + 24,
        case_names(final(cases)@) == case_names(old(cases)@) + names_10(),
{
    enter(
        cases,
        prepared(
            "file named --number with -n",
            vec![Setup::Write { at: spot("--number"), content: text("number file\\n") }],
            vec![lit("-n"), lit("--"), Token::At(Place::Own(spot("--number")))],
            None,
        ),
    );
    enter(
        cases,
        compare(
            "stdin -A tabs",
            vec![lit("-A"), lit("-")],
            Some(Payload::Content(Artifact::Tabs)),
        ),
    );
    enter(
        cases,
        compare(
            "stdin -b blanks",
            vec![lit("-b"), lit("-")],
            Some(Payload::Content(Artifact::Blank)),
        ),
    );
    enter(
        cases,
        compare(
            "stdin -nE blanks",
            vec![lit("-nE"), lit("-")],
            Some(Payload::Content(Artifact::Blank)),
        ),
    );
    enter(
        cases,
        compare(
            "stdin -bE blanks",
            vec![lit("-bE"), lit("-")],
            Some(Payload::Content(Artifact::Blank)),
        ),
    );
    enter(
        cases,
        compare(
            "stdin -sE blanks",
            vec![lit("-sE"), lit("-")],
            Some(Payload::Content(Artifact::Blank)),
        ),
    );
    enter(
        cases,
        compare(
            "stdin -v binary",
            vec![lit("-v"), lit("-")],
            Some(Payload::Content(Artifact::Binary)),
        ),
    );
    enter(
        cases,
        compare(
            "stdin --show-ends no newline",
            vec![lit("--show-ends"), lit("-")],
            Some(Payload::Content(Artifact::NoNewline)),
        ),
    );
    enter(
        cases,
        prepared(
            "crlf file -A",
            vec![Setup::Write { at: spot("crlf_a.txt"), content: text("one\\r\\ntwo\\r\\n") }],
            vec![lit("-A"), Token::At(Place::Own(spot("crlf_a.txt")))],
            None,
        ),
    );
    enter(
        cases,
        prepared(
            "trailing spaces -E",
            vec![
                Setup::Write {
                    at: spot("trail_spaces.txt"),
                    content: text("space \\t \\nnext line \\n"),
                },
            ],
            vec![lit("-E"), Token::At(Place::Own(spot("trail_spaces.txt")))],
            None,
        ),
    );
    enter(
        cases,
        prepared(
            "leading blanks -b",
            vec![
                Setup::Write {
                    at: spot("leading_blanks.txt"),
                    content: text("\\n\\nstart\\n\\nend\\n"),
                },
            ],
            vec![lit("-b"), Token::At(Place::Own(spot("leading_blanks.txt")))],
            None,
        ),
    );
    enter(
        cases,
        prepared(
            "only tabs -T",
            vec![Setup::Write { at: spot("only_tabs.txt"), content: text("\\t\\t\\n\\tend\\n") }],
            vec![lit("-T"), Token::At(Place::Own(spot("only_tabs.txt")))],
            None,
        ),
    );
    enter(
        cases,
        prepared(
            "tabs + blanks -sT",
            vec![
                Setup::Write {
                    at: spot("tabs_blanks.txt"),
                    content: text("\\n\\n\\tcol\\n\\n\\n"),
                },
            ],
            vec![lit("-sT"), Token::At(Place::Own(spot("tabs_blanks.txt")))],
            None,
        ),
    );
    enter(
        cases,
        prepared(
            "squeeze across three files",
            vec![
                Setup::Write { at: spot("squeeze_three_a.txt"), content: text("line1\\n\\n") },
                Setup::Write { at: spot("squeeze_three_b.txt"), content: text("\\n\\nline2\\n") },
                Setup::Write { at: spot("squeeze_three_c.txt"), content: text("\\n\\nline3\\n") },
            ],
            vec![
                lit("-s"),
                Token::At(Place::Own(spot("squeeze_three_a.txt"))),
                Token::At(Place::Own(spot("squeeze_three_b.txt"))),
                Token::At(Place::Own(spot("squeeze_three_c.txt"))),
            ],
            None,
        ),
    );
    enter(cases, compare("no newline + -A", vec![lit("-A"), file(Artifact::NoNewline)], None));
    enter(
        cases,
        prepared(
            "visible formfeed",
            vec![Setup::Write { at: spot("formfeed.txt"), content: text("form\\x0cfeed\\n") }],
            vec![lit("-v"), Token::At(Place::Own(spot("formfeed.txt")))],
            None,
        ),
    );
    enter(
        cases,
        prepared(
            "symlink chain",
            vec![
                Setup::Write { at: spot("chain_target.txt"), content: text("chain target\n") },
                Setup::Symlink {
                    target: Place::Own(spot("chain_target.txt")),
                    link: spot("chain_link1"),
                },
                Setup::Symlink {
                    target: Place::Own(spot("chain_link1")),
                    link: spot("chain_link2"),
                },
            ],
            vec![Token::At(Place::Own(spot("chain_link2")))],
            None,
        ),
    );
    enter(
        cases,
        prepared(
            "relative symlink",
            vec![
                Setup::MakeDir(spot("rel_dir")),
                Setup::Write { at: spot("rel_dir/rel_target.txt"), content: text("relative\n") },
                Setup::Symlink {
                    target: Place::Literal(String::from_str("rel_dir/rel_target.txt")),
                    link: spot("rel_link.txt"),
                },
            ],
            vec![Token::At(Place::Own(spot("rel_link.txt")))],
            None,
        ),
    );
    enter(
        cases,
        fifo(
            "fifo show all",
            spot("show_all.fifo"),
            0o644,
            vec![String::from_str("-A")],
            text("tab\t\u{1}\n"),
            "fifo show all",
        ),
    );
    enter(
        cases,
        fifo(
            "fifo show tabs and ends",
            spot("show_tabs_ends.fifo"),
            0o644,
            vec![String::from_str("-ET")],
            text("one\tend\n\n"),
            "fifo show tabs and ends",
        ),
    );
    enter(
        cases,
        compare("directory operand with -E", vec![lit("-E"), file(Artifact::Subdir)], None),
    );
    enter(
        cases,
        compare(
            "redundant --show-ends --show-ends",
            vec![lit("--show-ends"), lit("--show-ends"), file(Artifact::Blank)],
            None,
        ),
    );
    enter(
        cases,
        compare(
            "long combo --show-nonprinting --show-ends",
            vec![lit("--show-nonprinting"), lit("--show-ends"), file(Artifact::Control)],
            None,
        ),
    );
    enter(
        cases,
        compare(
            "long combo --show-nonprinting --show-tabs",
            vec![lit("--show-nonprinting"), lit("--show-tabs"), file(Artifact::Control)],
            None,
        ),
    );
    assert(case_names(cases@) =~= case_names(old(cases)@) + names_10());
}

/// Cases 241 to 264.
#[verifier::rlimit(30)]
fn part_11(cases: &mut Vec<TestCase>)
    requires
        none_generated(old(cases)@),
    ensures
        none_generated(final(cases)@),
        final(cases)@.len() == old(cases)@.len() + 24,
        case_names(final(cases)@) == case_names(old(cases)@) + names_11(),
{
    enter(
        cases,
        compare(
            "long combo --show-all --number",
            vec![lit("--show-all"), lit("--number"), file(Artifact::Control)],
            None,
        ),
    );
    enter(
        cases,
        compare(
            "long combo --show-all --number-nonblank",
            vec![lit("--show-all"), lit("--number-nonblank"), file(Artifact::Control)],
            None,
        ),
    );
    enter(
        cases,
        compare(
            "long combo --show-tabs --number",
            vec![lit("--show-tabs"), lit("--number"), file(Artifact::Tabs)],
            None,
        ),
    );
    enter(
        cases,
        compare("combo -A -n", vec![lit("-A"), lit("-n"), file(Artifact::Control)], None),
    );
    enter(
        cases,
        compare("combo -A -b", vec![lit("-A"), lit("-b"), file(Artifact::Control)], None),
    );
    enter(
        cases,
        compare(
            "stdin -A control",
            vec![lit("-A"), lit("-")],
            Some(Payload::Content(Artifact::Control)),
        ),
    );
    enter(
        cases,
        compare(
            "--show-ends with -n",
            vec![lit("--show-ends"), lit("-n"), file(Artifact::Blank)],
            None,
        ),
    );
    enter(
        cases,
        compare(
            "--show-tabs with -n",
            vec![lit("--show-tabs"), lit("-n"), file(Artifact::Tabs)],
            None,
        ),
    );
    enter(
        cases,
        compare(
            "--show-nonprinting with -n",
            vec![lit("--show-nonprinting"), lit("-n"), file(Artifact::Control)],
            None,
        ),
    );
    enter(
        cases,
        compare(
            "--show-all with -n",
            vec![lit("--show-all"), lit("-n"), file(Artifact::Control)],
            None,
        ),
    );
    enter(
        cases,
        compare(
            "--show-ends with -b",
            vec![lit("--show-ends"), lit("-b"), file(Artifact::Blank)],
            None,
        ),
    );
    enter(
        cases,
        compare(
            "--show-tabs with -b",
            vec![lit("--show-tabs"), lit("-b"), file(Artifact::Tabs)],
            None,
        ),
    );
    enter(
        cases,
        compare(
            "--show-nonprinting with -b",
            vec![lit("--show-nonprinting"), lit("-b"), file(Artifact::Control)],
            None,
        ),
    );
    enter(
        cases,
        compare(
            "--show-all with -b",
            vec![lit("--show-all"), lit("-b"), file(Artifact::Control)],
            None,
        ),
    );
    enter(
        cases,
        compare("-s with --number", vec![lit("-s"), lit("--number"), file(Artifact::Blank)], None),
    );
    enter(
        cases,
        compare(
            "-s with --number-nonblank",
            vec![lit("-s"), lit("--number-nonblank"), file(Artifact::Blank)],
            None,
        ),
    );
    enter(
        cases,
        compare(
            "-s with --show-ends",
            vec![lit("-s"), lit("--show-ends"), file(Artifact::Blank)],
            None,
        ),
    );
    enter(
        cases,
        compare(
            "-s with --show-tabs",
            vec![lit("-s"), lit("--show-tabs"), file(Artifact::Tabs)],
            None,
        ),
    );
    enter(
        cases,
        compare(
            "-s with --show-nonprinting",
            vec![lit("-s"), lit("--show-nonprinting"), file(Artifact::Control)],
            None,
        ),
    );
    enter(
        cases,
        compare(
            "-s with --show-all",
            vec![lit("-s"), lit("--show-all"), file(Artifact::Control)],
            None,
        ),
    );
    enter(
        cases,
        compare(
            "double stdin --number",
            vec![lit("--number"), lit("-"), lit("-")],
            Some(Payload::StdinData),
        ),
    );
    enter(
        cases,
        compare(
            "--show-nonprinting binary",
            vec![lit("--show-nonprinting"), file(Artifact::Binary)],
            None,
        ),
    );
    enter(
        cases,
        compare("--show-all binary", vec![lit("--show-all"), file(Artifact::Binary)], None),
    );
    enter(
        cases,
        compare(
            "--show-tabs with no tabs",
            vec![lit("--show-tabs"), file(Artifact::SampleA)],
            None,
        ),
    );
    assert(case_names(cases@) =~= case_names(old(cases)@) + names_11());
}

/// Cases 265 to 281.
#[verifier::rlimit(30)]
fn part_12(cases: &mut Vec<TestCase>)
    requires
        none_generated(old(cases)@),
    ensures
        none_generated(final(cases)@),
        final(cases)@.len() == old(cases)@.len() + 17,
        case_names(final(cases)@) == case_names(old(cases)@) + names_12(),
{
    enter(
        cases,
        compare(
            "--show-ends no newline file",
            vec![lit("--show-ends"), file(Artifact::NoNewline)],
            None,
        ),
    );
    enter(
        cases,
        compare("--number empty file", vec![lit("--number"), file(Artifact::Empty)], None),
    );
    enter(
        cases,
        compare(
            "--number-nonblank empty file",
            vec![lit("--number-nonblank"), file(Artifact::Empty)],
            None,
        ),
    );
    enter(
        cases,
        compare(
            "--squeeze-blank empty file",
            vec![lit("--squeeze-blank"), file(Artifact::Empty)],
            None,
        ),
    );
    enter(
        cases,
        compare("--show-all empty file", vec![lit("--show-all"), file(Artifact::Empty)], None),
    );
    enter(
        cases,
        compare(
            "--show-nonprinting empty file",
            vec![lit("--show-nonprinting"), file(Artifact::Empty)],
            None,
        ),
    );
    enter(
        cases,
        prepared(
            "only newlines file -b",
            vec![Setup::Write { at: spot("only_newlines_b.txt"), content: text("\n\n\n\n") }],
            vec![lit("-b"), Token::At(Place::Own(spot("only_newlines_b.txt")))],
            None,
        ),
    );
    enter(
        cases,
        compare("stdin only newlines -b", vec![lit("-b"), lit("-")], Some(text("\n\n\n"))),
    );
    enter(
        cases,
        prepared(
            "only newlines file -n",
            vec![Setup::Write { at: spot("only_newlines_n.txt"), content: text("\n\n\n\n") }],
            vec![lit("-n"), Token::At(Place::Own(spot("only_newlines_n.txt")))],
            None,
        ),
    );
    enter(
        cases,
        compare("stdin only newlines -n", vec![lit("-n"), lit("-")], Some(text("\n\n\n"))),
    );
    enter(
        cases,
        compare(
            "stdin only newlines --number-nonblank",
            vec![lit("--number-nonblank"), lit("-")],
            Some(text("\n\n\n")),
        ),
    );
    enter(
        cases,
        compare(
            "stdin only newlines --show-ends",
            vec![lit("--show-ends"), lit("-")],
            Some(text("\n\n\n")),
        ),
    );
    enter(
        cases,
        prepared(
            "file named -A with --",
            vec![Setup::Write { at: spot("-A"), content: text("dash A file\n") }],
            vec![lit("--"), Token::At(Place::Own(spot("-A")))],
            None,
        ),
    );
    enter(
        cases,
        prepared(
            "file named --show-all with --",
            vec![Setup::Write { at: spot("--show-all"), content: text("show all file\n") }],
            vec![lit("--"), Token::At(Place::Own(spot("--show-all")))],
            None,
        ),
    );
    enter(
        cases,
        prepared(
            "file named --show-nonprinting with --",
            vec![
                Setup::Write {
                    at: spot("--show-nonprinting"),
                    content: text("show nonprinting file\n"),
                },
            ],
            vec![lit("--"), Token::At(Place::Own(spot("--show-nonprinting")))],
            None,
        ),
    );
    enter(cases, compare("bad option bundle", vec![lit("-nZ")], None));
    enter(cases, scripted("process asm keeps comment-only lines", Script::CommentPreservation));
    assert(case_names(cases@) =~= case_names(old(cases)@) + names_12());
}

/// Number of hand-written cases.
pub const HAND_WRITTEN: usize = 281;

/// The names of all cases of a run, in the order in which they are run.
pub open spec fn all_names() -> Seq<Seq<char>> {
    hand_written_names() + generated_names()
}

/// Every case of a run has a name of its own: no two hand-written cases
/// share a name, no two generated cases do, and a generated case is told
/// from a hand-written one by the beginning of its name.
pub proof fn lemma_all_names_distinct()
    ensures
        distinct(all_names()),
{
    let written = hand_written_names();
    let made = generated_names();
    assert forall|i: int, j: int| 0 <= i < j < all_names().len() implies all_names()[i]
        != all_names()[j] by {
        if j < written.len() {
            lemma_hand_written_names_distinct(i, j);
        } else if i < written.len() {
            lemma_hand_written_names_unmarked(i);
            lemma_generated_names_marked(j - written.len());
        } else {
            lemma_generated_names_distinct(i - written.len(), j - written.len());
        }
    }
}

/// The hand-written cases, in the order in which they are run. Each has
/// the name that is listed for it, so no two share a name.
pub fn hand_written_cases() -> (cases: Vec<TestCase>)
    ensures
        cases@.len() == HAND_WRITTEN,
        none_generated(cases@),
        case_names(cases@) == hand_written_names(),
        distinct(case_names(cases@)),
{
    let mut cases: Vec<TestCase> = Vec::new();
    assert(case_names(cases@) =~= Seq::<Seq<char>>::empty());
    part_1(&mut cases);
    assert(case_names(cases@) =~= names_1());
    part_2(&mut cases);
    part_3(&mut cases);
    part_4(&mut cases);
    part_5(&mut cases);
    part_6(&mut cases);
    part_7(&mut cases);
    part_8(&mut cases);
    part_9(&mut cases);
    part_10(&mut cases);
    part_11(&mut cases);
    part_12(&mut cases);
    proof {
        assert forall|i: int, j: int| 0 <= i < j < hand_written_names().len() implies
            hand_written_names()[i] != hand_written_names()[j] by {
            lemma_hand_written_names_distinct(i, j);
        }
    }
    cases
}

/// Every case of a run, in the order in which they are run: the
/// hand-written cases, then the generated ones. No two share a name.
pub fn all_cases() -> (cases: Vec<TestCase>)
    ensures
        cases@.len() == HAND_WRITTEN + matrix_cases().len(),
        none_generated(cases@.take(HAND_WRITTEN as int)),
        forall|i: int|
            0 <= i < matrix_cases().len() ==> (#[trigger] cases@[HAND_WRITTEN + i]).is_matrix(
                matrix_cases()[i],
            ),
        case_names(cases@) == all_names(),
        distinct(case_names(cases@)),
{
    let mut cases = hand_written_cases();
    let ghost written = cases@;
    add_matrix_cases(&mut cases);
    proof {
        assert(cases@.take(HAND_WRITTEN as int) =~= written);
        assert(case_names(cases@) =~= all_names()) by {
            assert forall|k: int| 0 <= k < cases@.len() implies case_names(cases@)[k]
                == all_names()[k] by {
                if k >= written.len() {
                    assert(cases@[HAND_WRITTEN + (k - written.len())].is_matrix(
                        matrix_cases()[k - written.len()],
                    ));
                } else {
                    assert(cases@[k] == written[k]);
                    assert(case_names(written)[k] == written[k].name@);
                }
            }
        }
        lemma_all_names_distinct();
    }
    cases
}

/// The registry of a run: every case, registered under its own name.
pub fn full_registry() -> (registry: Registry)
    ensures
        registry.names() == all_names(),
        registry@.len() == HAND_WRITTEN + matrix_cases().len(),
        none_generated(registry@.take(HAND_WRITTEN as int)),
        forall|i: int|
            0 <= i < matrix_cases().len() ==> (#[trigger] registry@[HAND_WRITTEN + i]).is_matrix(
                matrix_cases()[i],
            ),
{
    let cases = all_cases();
    let mut registry = Registry::new();
    let outcome = registry.register_all(cases);
    proof {
        assert(Seq::<TestCase>::empty() + cases@ =~= cases@);
        if let Err(refused) = outcome {
            let k = choose|k: int|
                {
                    &&& 0 <= k < cases@.len()
                    &&& refused.case == #[trigger] cases@[k]
                    &&& registry@ == Seq::<TestCase>::empty() + cases@.take(k)
                    &&& case_names(registry@).contains(cases@[k].name@)
                };
            assert(Seq::<TestCase>::empty() + cases@.take(k) =~= cases@.take(k));
            let m = choose|m: int|
                0 <= m < case_names(registry@).len() && case_names(registry@)[m]
                    == cases@[k].name@;
            assert(case_names(cases@)[m] == cases@[m].name@);
            assert(case_names(cases@)[k] == cases@[k].name@);
            assert(false);
        }
    }
    registry
}

} // verus!
