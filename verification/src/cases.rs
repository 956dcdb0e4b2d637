//! Test cases as values: a unique name and a description of what to run.
//!
//! A description names artifacts and places instead of paths, so that it
//! can be written down before the fixture directory exists. It is turned
//! into concrete commands when the case is run.

use crate::fixtures::Artifact;
use crate::text::views;
use vstd::prelude::*;

verus! {

/// How a generated case feeds its input to the program.
#[derive(Clone, Copy, Debug, PartialEq, Eq, Structural)]
pub enum Shape {
    /// The fixture file is the only operand.
    File,
    /// The fixture file is followed by a second, fixed file.
    Multi,
    /// The fixture's bytes arrive on standard input.
    Stdin,
    /// Standard input is followed by a second, fixed file.
    StdinFile,
    /// The binary fixture is the only operand, whatever the flags.
    Binary,
}

/// A place below the fixture directory. Whatever a case creates or
/// changes lies at such a place, so that no case touches anything outside
/// the directory of the run.
#[derive(Clone, Debug, PartialEq, Eq)]
pub enum Spot {
    /// An entry of this name in the fixture directory.
    InDir(String),
    /// An entry of this name in the subdirectory of the fixture directory.
    InSubdir(String),
}

/// Where something lies in the file system.
#[derive(Clone, Debug, PartialEq, Eq)]
pub enum Place {
    /// One of the artifacts that exist before the first case runs.
    Artifact(Artifact),
    /// A place below the fixture directory.
    Own(Spot),
    /// This path, as it stands.
    Literal(String),
}

/// One argument of a command.
#[derive(Clone, Debug, PartialEq, Eq)]
pub enum Token {
    /// This text, as it stands.
    Lit(String),
    /// The path of a place.
    At(Place),
}

/// Bytes that a case feeds to a program or writes to a file.
#[derive(Clone, Debug, PartialEq, Eq)]
pub enum Payload {
    /// These bytes.
    Bytes(Vec<u8>),
    /// What an artifact holds.
    Content(Artifact),
    /// The standard payload for standard input.
    StdinData,
    /// The standard payload for standard input between two files.
    StdinMix,
    /// This many random bytes, drawn when the case is run.
    Random(usize),
    /// `unit`, `times` times over.
    Repeated { unit: Vec<u8>, times: usize },
}

/// A change to the file system that a case needs before it runs, or that
/// puts things back afterwards.
#[derive(Clone, Debug, PartialEq, Eq)]
pub enum Setup {
    /// Write a file.
    Write { at: Spot, content: Payload },
    /// Create a symbolic link at `link` that points to `target`.
    Symlink { target: Place, link: Spot },
    /// Create a hard link at `link` to the file at `existing`.
    HardLink { existing: Place, link: Spot },
    /// Create a directory.
    MakeDir(Spot),
    /// Set the permission bits of a file.
    SetMode { at: Spot, mode: u32 },
}

/// One command on which the two programs are compared.
#[derive(Clone, Debug, PartialEq, Eq)]
pub struct Invocation {
    pub args: Vec<Token>,
    pub stdin: Option<Payload>,
}

/// A check that is not a comparison on a command.
#[derive(Clone, Copy, Debug, PartialEq, Eq, Structural)]
pub enum Script {
    /// The help text is the program's own.
    HelpOutput,
    /// The version text is the program's own.
    VersionOutput,
    /// Asking for help with standard output closed ends as it does for the
    /// reference.
    HelpStdoutClosed,
    /// Writing into a pipe whose reader has gone ends as it does for the
    /// reference.
    BrokenPipe,
    /// The comment filter leaves comment-only lines standing.
    CommentPreservation,
}

/// What a case runs.
#[derive(Clone, Debug, PartialEq, Eq)]
pub enum CaseKind {
    /// A generated case: a flag combination in one of the five shapes.
    Matrix { shape: Shape, opts: Vec<String> },
    /// Prepare the file system, compare the two programs on each command
    /// in turn up to the first difference, then put things back, whether
    /// or not a difference was found.
    Compare { setup: Vec<Setup>, runs: Vec<Invocation>, cleanup: Vec<Setup> },
    /// Compare the two programs on a named pipe into which the payload is
    /// written in one piece. The pipe is created first, with these
    /// permission bits; its path follows the flags as the only operand.
    /// The label names the check in reports.
    Fifo { fifo: Spot, mode: u32, flags: Vec<String>, payload: Payload, label: String },
    /// Run the program under test on a named pipe into which the chunks
    /// are written with a pause of `delay` milliseconds between them. Its
    /// output must be the chunks joined; after that both programs are run
    /// with their output in a file and the files are compared.
    Stream { fifo: Spot, mode: u32, chunks: Vec<Vec<u8>>, delay: u64 },
    /// One of the scripted checks.
    Scripted(Script),
}

/// A named check.
#[derive(Clone, Debug, PartialEq, Eq)]
pub struct TestCase {
    pub name: String,
    pub kind: CaseKind,
}

/// A generated case, by what it holds.
pub struct MatrixCase {
    pub name: Seq<char>,
    pub shape: Shape,
    pub opts: Seq<Seq<char>>,
}

impl TestCase {
    /// This case is the generated case `m`.
    pub open spec fn is_matrix(&self, m: MatrixCase) -> bool {
        &&& self.name@ == m.name
        &&& self.kind matches CaseKind::Matrix { shape, opts }
        &&& shape == m.shape
        &&& views(opts@) == m.opts
    }
}

} // verus!
