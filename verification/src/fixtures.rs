//! The input artifacts of a run: where each lives and what it holds.
//!
//! A run works in one throwaway directory. The library decides the layout
//! and the contents; the caller creates the directory beforehand and writes
//! out what [`Fixtures::files`] lists. After that the artifacts are only read.

use crate::random::random_bytes;
use crate::text::{decimal_bytes, push_decimal_bytes, push_text, utf8};
use vstd::prelude::*;
use vstd::string::StringExecFns;

verus! {

/// Selects the content that accompanies a flag combination.
#[derive(Clone, Copy, Debug, PartialEq, Eq, Structural)]
pub enum FixtureKey {
    /// Plain text.
    SampleA,
    /// Text with runs of blank lines.
    Blank,
    /// Text with tab characters.
    Tabs,
    /// Tabs together with control characters.
    Mixed,
    /// Control, escape and high-bit bytes.
    Control,
    /// Text whose last line has no newline.
    NoNewline,
    /// Random bytes.
    Binary,
}

/// One of the artifacts that exist before the first case runs.
#[derive(Clone, Copy, Debug, PartialEq, Eq, Structural)]
pub enum Artifact {
    SampleA,
    SampleB,
    Blank,
    Tabs,
    Mixed,
    DashName,
    OptionLike,
    DashVFile,
    Empty,
    NoNewline,
    Large,
    Huge,
    Control,
    Binary,
    /// The subdirectory.
    Subdir,
}

/// Number of random bytes in the binary fixture.
pub const BINARY_LEN: usize = 512;

/// Number of lines in the large fixture.
pub const LARGE_LINES: u64 = 3000;

/// Number of lines in the huge fixture.
pub const HUGE_LINES: u64 = 1000;

/// The path of the entry `name` inside the directory `dir`.
pub open spec fn child(dir: Seq<char>, name: Seq<char>) -> Seq<char> {
    dir + seq!['/'] + name
}

/// The lines `line 1`, `line 2`, up to `line count`, each ended by a newline.
pub open spec fn numbered_lines(count: nat) -> Seq<u8>
    decreases count,
{
    if count == 0 {
        Seq::empty()
    } else {
        numbered_lines((count - 1) as nat) + utf8("line "@) + decimal_bytes(count) + utf8("\n"@)
    }
}

/// The content of the control-character fixture: a plain line, a line with
/// a control character, one with an escape, and one with a byte above 127.
pub open spec fn control_content() -> Seq<u8> {
    utf8("plain\ncontrol:\u{1}here\nesc:\u{1b}X\nmeta:"@) + seq![0x80u8] + utf8("Y\n"@)
}

/// The artifact behind a fixture key.
pub open spec fn artifact_of(key: FixtureKey) -> Artifact {
    match key {
        FixtureKey::SampleA => Artifact::SampleA,
        FixtureKey::Blank => Artifact::Blank,
        FixtureKey::Tabs => Artifact::Tabs,
        FixtureKey::Mixed => Artifact::Mixed,
        FixtureKey::Control => Artifact::Control,
        FixtureKey::NoNewline => Artifact::NoNewline,
        FixtureKey::Binary => Artifact::Binary,
    }
}

/// What an artifact holds, given the random bytes that were drawn for the
/// binary fixture. The subdirectory holds no bytes.
pub open spec fn artifact_content(artifact: Artifact, binary: Seq<u8>) -> Seq<u8> {
    match artifact {
        Artifact::SampleA => utf8("alpha\n"@),
        Artifact::SampleB => utf8("beta\n"@),
        Artifact::Blank => utf8("one\n\n\nthree\n\n\n"@),
        Artifact::Tabs => utf8("col1\tcol2\nline\t2\n"@),
        Artifact::Mixed => utf8("tab\t\u{1}\nline\t2\u{7f}\n"@),
        Artifact::DashName => utf8("dash file\n"@),
        Artifact::OptionLike => utf8("option-looking file\n"@),
        Artifact::DashVFile => utf8("dash-v data\n"@),
        Artifact::Empty => utf8(""@),
        Artifact::NoNewline => utf8("no newline"@),
        Artifact::Large => numbered_lines(LARGE_LINES as nat),
        Artifact::Huge => numbered_lines(HUGE_LINES as nat),
        Artifact::Control => control_content(),
        Artifact::Binary => binary,
        Artifact::Subdir => Seq::empty(),
    }
}

/// What the fixture selected by `key` holds, given the random bytes that
/// were drawn for the binary fixture.
pub open spec fn content_of(key: FixtureKey, binary: Seq<u8>) -> Seq<u8> {
    artifact_content(artifact_of(key), binary)
}

/// The artifacts that are files, in the order in which they are written.
pub open spec fn file_artifacts() -> Seq<Artifact> {
    seq![
        Artifact::SampleA,
        Artifact::SampleB,
        Artifact::Blank,
        Artifact::Tabs,
        Artifact::Mixed,
        Artifact::DashName,
        Artifact::OptionLike,
        Artifact::DashVFile,
        Artifact::Empty,
        Artifact::NoNewline,
        Artifact::Large,
        Artifact::Huge,
        Artifact::Control,
        Artifact::Binary,
    ]
}

/// A file to be written before the run starts.
#[derive(Clone, Debug, PartialEq, Eq)]
pub struct FixtureFile {
    pub path: String,
    pub content: Vec<u8>,
}

impl View for FixtureFile {
    type V = (Seq<char>, Seq<u8>);

    open spec fn view(&self) -> (Seq<char>, Seq<u8>) {
        (self.path@, self.content@)
    }
}

/// The artifacts of one run.
#[derive(Clone, Debug, PartialEq, Eq)]
pub struct Fixtures {
    /// The directory that holds every artifact.
    pub dir: String,
    pub sample_a: String,
    pub sample_b: String,
    pub blank: String,
    pub tabs: String,
    pub mixed: String,
    /// Payload for cases that read standard input.
    pub stdin_data: Vec<u8>,
    /// Payload for cases that read standard input between two files.
    pub stdin_mix: Vec<u8>,
    /// A file whose name begins with a dash.
    pub dash_name: String,
    /// A file whose name is a valid flag.
    pub option_like: String,
    /// A file whose name begins like a bundle of flags.
    pub dash_v_file: String,
    pub empty: String,
    pub no_newline: String,
    pub large: String,
    pub huge: String,
    pub control: String,
    pub binary: String,
    /// A subdirectory.
    pub dir_path: String,
    /// The random bytes held by the binary fixture.
    pub binary_data: Vec<u8>,
}

/// The bytes of `text`.
fn bytes_of(text: &str) -> (out: Vec<u8>)
    ensures
        out@ == utf8(text@),
{
    let mut out: Vec<u8> = Vec::new();
    push_text(&mut out, text);
    out
}

/// The path of the entry `name` inside `dir`.
pub fn child_path(dir: &str, name: &str) -> (path: String)
    ensures
        path@ == child(dir@, name@),
{
    proof {
        reveal_strlit("/");
    }
    let mut path = String::from_str(dir);
    path.append("/");
    path.append(name);
    path
}

/// The lines `line 1` up to `line count`.
pub fn numbered_lines_bytes(count: u64) -> (out: Vec<u8>)
    ensures
        out@ == numbered_lines(count as nat),
{
    let mut out: Vec<u8> = Vec::new();
    let mut i: u64 = 0;
    while i < count
        invariant
            i <= count,
            out@ == numbered_lines(i as nat),
        decreases count - i,
    {
        i += 1;
        push_text(&mut out, "line ");
        push_decimal_bytes(&mut out, i);
        push_text(&mut out, "\n");
    }
    out
}

/// The content of the control-character fixture.
pub fn control_bytes() -> (out: Vec<u8>)
    ensures
        out@ == control_content(),
{
    let mut out: Vec<u8> = Vec::new();
    push_text(&mut out, "plain\ncontrol:\u{1}here\nesc:\u{1b}X\nmeta:");
    out.push(0x80u8);
    push_text(&mut out, "Y\n");
    out
}

impl Fixtures {
    /// Whether every path lies in `self.dir` under its fixed name, the two
    /// standard-input payloads are the fixed ones, and the binary fixture
    /// has its fixed size.
    pub open spec fn wf(&self) -> bool {
        &&& self.sample_a@ == child(self.dir@, "a.txt"@)
        &&& self.sample_b@ == child(self.dir@, "b.txt"@)
        &&& self.blank@ == child(self.dir@, "blank.txt"@)
        &&& self.tabs@ == child(self.dir@, "tabs.txt"@)
        &&& self.mixed@ == child(self.dir@, "mixed.txt"@)
        &&& self.stdin_data@ == utf8("stdin data\n"@)
        &&& self.stdin_mix@ == utf8("middle line\n"@)
        &&& self.dash_name@ == child(self.dir@, "-dash.txt"@)
        &&& self.option_like@ == child(self.dir@, "-n"@)
        &&& self.dash_v_file@ == child(self.dir@, "-vfile.txt"@)
        &&& self.empty@ == child(self.dir@, "empty.txt"@)
        &&& self.no_newline@ == child(self.dir@, "no_newline.txt"@)
        &&& self.large@ == child(self.dir@, "large.txt"@)
        &&& self.huge@ == child(self.dir@, "huge.txt"@)
        &&& self.control@ == child(self.dir@, "control.txt"@)
        &&& self.binary@ == child(self.dir@, "binary.bin"@)
        &&& self.dir_path@ == child(self.dir@, "adir"@)
        &&& self.binary_data@.len() == BINARY_LEN
    }

    /// The path of the fixture selected by `key`.
    pub open spec fn path_of(&self, key: FixtureKey) -> Seq<char> {
        self.place_of(artifact_of(key))
    }

    /// The path of an artifact.
    pub open spec fn place_of(&self, artifact: Artifact) -> Seq<char> {
        match artifact {
            Artifact::SampleA => self.sample_a@,
            Artifact::SampleB => self.sample_b@,
            Artifact::Blank => self.blank@,
            Artifact::Tabs => self.tabs@,
            Artifact::Mixed => self.mixed@,
            Artifact::DashName => self.dash_name@,
            Artifact::OptionLike => self.option_like@,
            Artifact::DashVFile => self.dash_v_file@,
            Artifact::Empty => self.empty@,
            Artifact::NoNewline => self.no_newline@,
            Artifact::Large => self.large@,
            Artifact::Huge => self.huge@,
            Artifact::Control => self.control@,
            Artifact::Binary => self.binary@,
            Artifact::Subdir => self.dir_path@,
        }
    }

    /// The files to write, in order, each as path and content.
    pub open spec fn file_table(&self) -> Seq<(Seq<char>, Seq<u8>)> {
        Seq::new(
            file_artifacts().len(),
            |i: int|
                (
                    self.place_of(file_artifacts()[i]),
                    artifact_content(file_artifacts()[i], self.binary_data@),
                ),
        )
    }

    /// Lays the artifacts out inside `dir` and draws the random bytes of
    /// the binary fixture.
    pub fn new(dir: &str) -> (fixtures: Fixtures)
        ensures
            fixtures.wf(),
            fixtures.dir@ == dir@,
    {
        Fixtures {
            dir: String::from_str(dir),
            sample_a: child_path(dir, "a.txt"),
            sample_b: child_path(dir, "b.txt"),
            blank: child_path(dir, "blank.txt"),
            tabs: child_path(dir, "tabs.txt"),
            mixed: child_path(dir, "mixed.txt"),
            stdin_data: bytes_of("stdin data\n"),
            stdin_mix: bytes_of("middle line\n"),
            dash_name: child_path(dir, "-dash.txt"),
            option_like: child_path(dir, "-n"),
            dash_v_file: child_path(dir, "-vfile.txt"),
            empty: child_path(dir, "empty.txt"),
            no_newline: child_path(dir, "no_newline.txt"),
            large: child_path(dir, "large.txt"),
            huge: child_path(dir, "huge.txt"),
            control: child_path(dir, "control.txt"),
            binary: child_path(dir, "binary.bin"),
            dir_path: child_path(dir, "adir"),
            binary_data: random_bytes(BINARY_LEN),
        }
    }

    /// The files that must exist before the first case runs. The
    /// subdirectory `dir_path` is to be created beside them.
    pub fn files(&self) -> (list: Vec<FixtureFile>)
        ensures
            list@.len() == self.file_table().len(),
            forall|i: int| 0 <= i < list@.len() ==> (#[trigger] list@[i])@ == self.file_table()[i],
    {
        let order = file_order();
        let mut list: Vec<FixtureFile> = Vec::new();
        let mut i: usize = 0;
        while i < order.len()
            invariant
                i <= order.len(),
                order@ == file_artifacts(),
                list@.len() == i,
                forall|k: int| 0 <= k < i ==> (#[trigger] list@[k])@ == self.file_table()[k],
            decreases order.len() - i,
        {
            let artifact = order[i];
            list.push(
                FixtureFile {
                    path: self.artifact_path(artifact).clone(),
                    content: self.artifact_bytes(artifact),
                },
            );
            i += 1;
        }
        list
    }

    /// The path of an artifact.
    pub fn artifact_path(&self, artifact: Artifact) -> (path: &String)
        ensures
            path@ == self.place_of(artifact),
    {
        match artifact {
            Artifact::SampleA => &self.sample_a,
            Artifact::SampleB => &self.sample_b,
            Artifact::Blank => &self.blank,
            Artifact::Tabs => &self.tabs,
            Artifact::Mixed => &self.mixed,
            Artifact::DashName => &self.dash_name,
            Artifact::OptionLike => &self.option_like,
            Artifact::DashVFile => &self.dash_v_file,
            Artifact::Empty => &self.empty,
            Artifact::NoNewline => &self.no_newline,
            Artifact::Large => &self.large,
            Artifact::Huge => &self.huge,
            Artifact::Control => &self.control,
            Artifact::Binary => &self.binary,
            Artifact::Subdir => &self.dir_path,
        }
    }

    /// What an artifact holds.
    pub fn artifact_bytes(&self, artifact: Artifact) -> (bytes: Vec<u8>)
        ensures
            bytes@ == artifact_content(artifact, self.binary_data@),
    {
        match artifact {
            Artifact::SampleA => bytes_of("alpha\n"),
            Artifact::SampleB => bytes_of("beta\n"),
            Artifact::Blank => bytes_of("one\n\n\nthree\n\n\n"),
            Artifact::Tabs => bytes_of("col1\tcol2\nline\t2\n"),
            Artifact::Mixed => bytes_of("tab\t\u{1}\nline\t2\u{7f}\n"),
            Artifact::DashName => bytes_of("dash file\n"),
            Artifact::OptionLike => bytes_of("option-looking file\n"),
            Artifact::DashVFile => bytes_of("dash-v data\n"),
            Artifact::Empty => bytes_of(""),
            Artifact::NoNewline => bytes_of("no newline"),
            Artifact::Large => numbered_lines_bytes(LARGE_LINES),
            Artifact::Huge => numbered_lines_bytes(HUGE_LINES),
            Artifact::Control => control_bytes(),
            Artifact::Binary => self.binary_data.clone(),
            Artifact::Subdir => Vec::new(),
        }
    }

    /// The content of the fixture selected by `key`.
    pub fn content(&self, key: FixtureKey) -> (bytes: Vec<u8>)
        ensures
            bytes@ == content_of(key, self.binary_data@),
    {
        self.artifact_bytes(artifact_for(key))
    }
}

/// The artifact behind a fixture key.
pub fn artifact_for(key: FixtureKey) -> (artifact: Artifact)
    ensures
        artifact == artifact_of(key),
{
    match key {
        FixtureKey::SampleA => Artifact::SampleA,
        FixtureKey::Blank => Artifact::Blank,
        FixtureKey::Tabs => Artifact::Tabs,
        FixtureKey::Mixed => Artifact::Mixed,
        FixtureKey::Control => Artifact::Control,
        FixtureKey::NoNewline => Artifact::NoNewline,
        FixtureKey::Binary => Artifact::Binary,
    }
}

/// The artifacts that are files, in the order in which they are written.
fn file_order() -> (order: Vec<Artifact>)
    ensures
        order@ == file_artifacts(),
{
    let mut order: Vec<Artifact> = Vec::new();
    order.push(Artifact::SampleA);
    order.push(Artifact::SampleB);
    order.push(Artifact::Blank);
    order.push(Artifact::Tabs);
    order.push(Artifact::Mixed);
    order.push(Artifact::DashName);
    order.push(Artifact::OptionLike);
    order.push(Artifact::DashVFile);
    order.push(Artifact::Empty);
    order.push(Artifact::NoNewline);
    order.push(Artifact::Large);
    order.push(Artifact::Huge);
    order.push(Artifact::Control);
    order.push(Artifact::Binary);
    order
}


/// No two artifacts lie at the same path.
pub proof fn lemma_artifacts_apart(fx: Fixtures, a: Artifact, b: Artifact)
    requires
        fx.wf(),
        a != b,
    ensures
        fx.place_of(a) != fx.place_of(b),
{
    reveal_strlit("a.txt");
    reveal_strlit("b.txt");
    reveal_strlit("blank.txt");
    reveal_strlit("tabs.txt");
    reveal_strlit("mixed.txt");
    reveal_strlit("-dash.txt");
    reveal_strlit("-n");
    reveal_strlit("-vfile.txt");
    reveal_strlit("empty.txt");
    reveal_strlit("no_newline.txt");
    reveal_strlit("large.txt");
    reveal_strlit("huge.txt");
    reveal_strlit("control.txt");
    reveal_strlit("binary.bin");
    reveal_strlit("adir");
    let at = (fx.dir@.len() + 1) as int;
    let pa = fx.place_of(a);
    let pb = fx.place_of(b);
    if pa.len() == pb.len() {
        assert(pa[at] != pb[at]);
    }
}

} // verus!
