//! Building the program under test from its assembly source: when a build
//! is due, and which commands make it.

use crate::fixtures::{child, child_path};
use crate::text::views;
use vstd::prelude::*;
use vstd::string::StringExecFns;

verus! {

/// What is known of the build products. Times are counted from a common
/// origin; a later time is a larger number.
#[derive(Clone, Copy, Debug, PartialEq, Eq, Structural)]
pub struct BuildState {
    /// Whether the executable exists.
    pub binary_exists: bool,
    /// When the source was last changed.
    pub source_changed: u128,
    /// When the executable was last changed, if that can be told.
    pub binary_changed: Option<u128>,
}

/// A command of the build, run in the directory `dir`.
#[derive(Clone, Debug, PartialEq, Eq)]
pub struct BuildStep {
    pub program: String,
    pub dir: String,
    pub args: Vec<String>,
}

/// A build is due exactly where the executable is missing or the source is
/// newer than it. Nothing else makes one due: an executable that is not
/// older than the source is left alone, whatever else of an earlier build
/// is still there. An executable whose age cannot be told counts as older
/// than any source.
pub open spec fn build_is_due(state: BuildState) -> bool {
    ||| !state.binary_exists
    ||| state.source_changed > match state.binary_changed {
        Some(at) => at,
        None => 0,
    }
}

/// Whether the program under test has to be built anew.
pub fn needs_rebuild(state: BuildState) -> (due: bool)
    ensures
        due == build_is_due(state),
{
    if !state.binary_exists {
        return true;
    }
    let built: u128 = match state.binary_changed {
        Some(at) => at,
        None => 0,
    };
    state.source_changed > built
}

/// The commands that build the program under test below `root`: the
/// assembler turns the source into an object file, the linker turns the
/// object file into the executable. Both run in the directory of the
/// source.
pub fn build_steps(root: &str) -> (steps: Vec<BuildStep>)
    ensures
        steps@.len() == 2,
        steps@[0].program@ == "nasm"@,
        steps@[0].dir@ == child(root@, "wcat"@),
        views(steps@[0].args@) == seq!["-f"@, "elf64"@, "wcat.asm"@, "-o"@, "wcat.o"@],
        steps@[1].program@ == "ld"@,
        steps@[1].dir@ == child(root@, "wcat"@),
        views(steps@[1].args@) == seq!["-o"@, "wcat"@, "wcat.o"@],
{
    let mut assemble: Vec<String> = Vec::new();
    assemble.push(String::from_str("-f"));
    assemble.push(String::from_str("elf64"));
    assemble.push(String::from_str("wcat.asm"));
    assemble.push(String::from_str("-o"));
    assemble.push(String::from_str("wcat.o"));
    let mut link: Vec<String> = Vec::new();
    link.push(String::from_str("-o"));
    link.push(String::from_str("wcat"));
    link.push(String::from_str("wcat.o"));
    let mut steps: Vec<BuildStep> = Vec::new();
    steps.push(
        BuildStep {
            program: String::from_str("nasm"),
            dir: child_path(root, "wcat"),
            args: assemble,
        },
    );
    steps.push(
        BuildStep { program: String::from_str("ld"), dir: child_path(root, "wcat"), args: link },
    );
    steps
}

} // verus!
