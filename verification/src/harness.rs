//! The two programs under comparison and the artifacts they are run on,
//! and the argument lists of the generated cases.

use crate::fixtures::{artifact_for, child, child_path, content_of, FixtureKey, Fixtures};
use crate::options::{fixture_key_for, pick_fixture_key};
use crate::text::{clone_strings, views};
use vstd::prelude::*;
use vstd::string::StringExecFns;

verus! {

/// What every case works with.
#[derive(Clone, Debug, PartialEq, Eq)]
pub struct Harness {
    /// The program under test.
    pub wcat: String,
    /// The program whose behaviour is the measure.
    pub cat: String,
    pub fixtures: Fixtures,
}

impl Harness {
    /// A harness for the program under test that is built at
    /// `wcat/wcat` below `root`, compared against the program at `cat`.
    pub fn new(root: &str, cat: String, fixtures: Fixtures) -> (h: Harness)
        ensures
            h.wcat@ == child(root@, "wcat/wcat"@),
            h.cat == cat,
            h.fixtures == fixtures,
    {
        Harness { wcat: child_path(root, "wcat/wcat"), cat, fixtures }
    }
}

/// The path of the fixture selected by `key`.
pub fn fixture_path(h: &Harness, key: FixtureKey) -> (path: &String)
    ensures
        path@ == h.fixtures.path_of(key),
{
    h.fixtures.artifact_path(artifact_for(key))
}

/// The bytes of the fixture selected by `key`.
pub fn fixture_bytes(h: &Harness, key: FixtureKey) -> (bytes: Vec<u8>)
    ensures
        bytes@ == content_of(key, h.fixtures.binary_data@),
{
    h.fixtures.content(key)
}

/// The flags, then the fixture selected by `key`.
pub fn build_args_with_specific_file(h: &Harness, opts: &[String], key: FixtureKey) -> (args: Vec<
    String,
>)
    ensures
        views(args@) == views(opts@).push(h.fixtures.path_of(key)),
{
    let mut args = clone_strings(opts);
    args.push(fixture_path(h, key).clone());
    args
}

/// The flags, then the fixture that lets them show an effect.
pub fn build_args_with_file(h: &Harness, opts: &[String]) -> (args: Vec<String>)
    ensures
        views(args@) == views(opts@).push(h.fixtures.path_of(fixture_key_for(views(opts@)))),
{
    let key = pick_fixture_key(opts);
    build_args_with_specific_file(h, opts, key)
}

/// The flags, then the fixture that lets them show an effect, then the
/// second plain-text fixture.
pub fn build_args_with_multi(h: &Harness, opts: &[String]) -> (args: Vec<String>)
    ensures
        views(args@) == views(opts@).push(h.fixtures.path_of(fixture_key_for(views(opts@)))).push(
            h.fixtures.sample_b@,
        ),
{
    let key = pick_fixture_key(opts);
    let mut args = clone_strings(opts);
    args.push(fixture_path(h, key).clone());
    args.push(h.fixtures.sample_b.clone());
    assert(views(args@) =~= views(opts@).push(
        h.fixtures.path_of(fixture_key_for(views(opts@))),
    ).push(h.fixtures.sample_b@));
    args
}

/// The flags, then a dash: the operand that stands for standard input.
pub fn build_args_with_stdin(opts: &[String]) -> (args: Vec<String>)
    ensures
        views(args@) == views(opts@).push("-"@),
{
    let mut args = clone_strings(opts);
    args.push(String::from_str("-"));
    args
}

/// The flags, then a dash, then the second plain-text fixture.
pub fn build_args_with_stdin_file(h: &Harness, opts: &[String]) -> (args: Vec<String>)
    ensures
        views(args@) == views(opts@).push("-"@).push(h.fixtures.sample_b@),
{
    let mut args = clone_strings(opts);
    args.push(String::from_str("-"));
    args.push(h.fixtures.sample_b.clone());
    args
}

} // verus!
