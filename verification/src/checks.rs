//! Checks that are not a comparison of the two programs: what the help
//! and version texts must hold, how exit codes are held against each
//! other, and what the comment filter must leave standing.

use crate::preprocess::{find, first_visible, is_space_char, line_at};
use crate::runner::{CmdOutput, RunPlan, RunStep, Sink, Stream};
use crate::compare::same_bytes;
use crate::text::{
    bytes_contain, chars_contain, chars_of, clone_strings, contains_run, push_signed, signed_text,
    utf8, views,
};
use vstd::prelude::*;
use vstd::string::StringExecFns;

verus! {

/// How an exit code reads in a report.
pub open spec fn code_text(code: Option<i32>) -> Seq<char> {
    match code {
        Some(n) => "Some("@ + signed_text(n as int) + ")"@,
        None => "None"@,
    }
}

/// The report of two exit codes that differ.
pub open spec fn exit_mismatch_text(
    what: Seq<char>,
    subject: Option<i32>,
    reference: Option<i32>,
) -> Seq<char> {
    what + " exit mismatch "@ + code_text(subject) + " vs "@ + code_text(reference)
}

/// What a banner check finds: the program's own text must differ from the
/// reference's, and must hold the mark that shows whose it is.
pub open spec fn banner_verdict(
    subject: Seq<u8>,
    reference: Seq<u8>,
    mark: Seq<u8>,
    same: Seq<char>,
    missing: Seq<char>,
) -> Option<Seq<char>> {
    if subject == reference {
        Some(same)
    } else if !contains_run(subject, mark) {
        Some(missing)
    } else {
        None
    }
}

/// Why a check failed, if it did.
pub open spec fn reason(verdict: Result<(), String>) -> Option<Seq<char>> {
    match verdict {
        Ok(()) => None,
        Err(why) => Some(why@),
    }
}

/// How an exit code reads in a report.
fn push_code(out: &mut String, code: Option<i32>)
    ensures
        final(out)@ == old(out)@ + code_text(code),
{
    match code {
        Some(n) => {
            out.append("Some(");
            push_signed(out, n as i64);
            out.append(")");
            assert(final(out)@ =~= old(out)@ + code_text(code));
        },
        None => {
            out.append("None");
        },
    }
}

/// Holds two exit codes against each other. `what` names the check in the
/// report.
pub fn check_exit_codes(what: &str, subject: Option<i32>, reference: Option<i32>) -> (verdict:
    Result<(), String>)
    ensures
        reason(verdict) == if subject == reference {
            None
        } else {
            Some(exit_mismatch_text(what@, subject, reference))
        },
{
    let same = match (subject, reference) {
        (Some(a), Some(b)) => a == b,
        (None, None) => true,
        _ => false,
    };
    if same {
        return Ok(());
    }
    let mut why = String::from_str(what);
    why.append(" exit mismatch ");
    push_code(&mut why, subject);
    why.append(" vs ");
    push_code(&mut why, reference);
    assert(why@ =~= exit_mismatch_text(what@, subject, reference));
    Err(why)
}

/// Checks a text that the program under test prints about itself: it must
/// not be the reference's text, and it must hold `mark`.
pub fn check_banner(
    subject: &CmdOutput,
    reference: &CmdOutput,
    mark: &str,
    same: &str,
    missing: &str,
) -> (verdict: Result<(), String>)
    ensures
        reason(verdict) == banner_verdict(
            subject.stdout@,
            reference.stdout@,
            utf8(mark@),
            same@,
            missing@,
        ),
{
    if same_bytes(subject.stdout.as_slice(), reference.stdout.as_slice()) {
        return Err(String::from_str(same));
    }
    if !bytes_contain(subject.stdout.as_slice(), mark.as_bytes()) {
        return Err(String::from_str(missing));
    }
    Ok(())
}

/// Checks the help text of the program under test: it must be its own,
/// and name the program in its usage line.
pub fn check_help_output(subject: &CmdOutput, reference: &CmdOutput) -> (verdict: Result<
    (),
    String,
>)
    ensures
        reason(verdict) == banner_verdict(
            subject.stdout@,
            reference.stdout@,
            utf8("Usage: wcat"@),
            "help output should remain wcat-specific"@,
            "help missing usage"@,
        ),
{
    check_banner(
        subject,
        reference,
        "Usage: wcat",
        "help output should remain wcat-specific",
        "help missing usage",
    )
}

/// Checks the version text of the program under test: it must be its own,
/// and name the program and its version.
pub fn check_version_output(subject: &CmdOutput, reference: &CmdOutput) -> (verdict: Result<
    (),
    String,
>)
    ensures
        reason(verdict) == banner_verdict(
            subject.stdout@,
            reference.stdout@,
            utf8("wcat 0.1"@),
            "version output should remain wcat-specific"@,
            "version string mismatch"@,
        ),
{
    check_banner(
        subject,
        reference,
        "wcat 0.1",
        "version output should remain wcat-specific",
        "version string mismatch",
    )
}

/// Plans a run of `program` whose output nobody reads: standard output
/// and standard error are dropped, and only the exit code counts.
pub fn plan_silent(program: &str, args: &[String]) -> (plan: RunPlan)
    ensures
        plan.program@ == program@,
        views(plan.args@) == views(args@),
        plan.arg0 is None,
        plan.feed is None,
        plan.producer is None,
        plan.stdin@ == Sink::Inherit,
        plan.stdout@ == Sink::Null,
        plan.stderr@ == Sink::Null,
        plan.steps@ == seq![RunStep::Spawn, RunStep::Wait],
{
    let mut steps: Vec<RunStep> = Vec::new();
    steps.push(RunStep::Spawn);
    steps.push(RunStep::Wait);
    assert(steps@ =~= seq![RunStep::Spawn, RunStep::Wait]);
    RunPlan {
        program: String::from_str(program),
        arg0: None,
        args: clone_strings(args),
        stdin: Stream::Inherit,
        stdout: Stream::Null,
        stderr: Stream::Null,
        feed: None,
        producer: None,
        steps,
    }
}


/// Where line `k` of `text` begins: behind the line feed of the line
/// before it.
pub open spec fn line_start(text: Seq<char>, k: nat) -> int
    decreases k,
{
    if k == 0 {
        0
    } else {
        let before = line_start(text, (k - 1) as nat);
        if before >= text.len() {
            before
        } else {
            find(text, before, '\n') + 1
        }
    }
}

/// Line `k` of `text`, counted from zero, without its line ending; none if
/// the text has no such line.
pub open spec fn nth_line(text: Seq<char>, k: nat) -> Option<Seq<char>> {
    let start = line_start(text, k);
    if 0 <= start < text.len() {
        Some(line_at(text, start, find(text, start, '\n')))
    } else {
        None
    }
}

/// `line` without the white space at its start.
pub open spec fn without_indent(line: Seq<char>) -> Seq<char> {
    line.skip(first_visible(line, 0))
}

/// Line `k` of `text` is there and, apart from white space at its start,
/// is exactly `wanted`.
pub open spec fn line_reads(text: Seq<char>, k: nat, wanted: Seq<char>) -> bool {
    match nth_line(text, k) {
        Some(line) => without_indent(line) == wanted,
        None => false,
    }
}

/// Line `k` of `text` is there, holds `code` and holds no semicolon.
pub open spec fn line_is_code(text: Seq<char>, k: nat, code: Seq<char>) -> bool {
    match nth_line(text, k) {
        Some(line) => contains_run(line, code) && !line.contains(';'),
        None => false,
    }
}

/// The source on which the comment filter is tried: a comment-only line, a
/// line of code with a trailing comment, an indented comment-only line, a
/// line of code without a comment.
pub open spec fn comment_sample() -> Seq<char> {
    ";only comment\nmov rax, rbx ; trailing\n  ; indented comment\nlabel: nop\n"@
}

/// What is wrong with a filtered sample, if anything: the first line must
/// still be the comment, the second the code without its comment, the
/// third the indented comment.
pub open spec fn preservation_verdict(processed: Seq<char>) -> Option<Seq<char>> {
    if !line_reads(processed, 0, ";only comment"@) {
        Some("comment-only line removed"@)
    } else if !line_is_code(processed, 1, "mov rax, rbx"@) {
        Some("trailing comment not stripped correctly"@)
    } else if !line_reads(processed, 2, "; indented comment"@) {
        Some("indented comment line lost"@)
    } else {
        None
    }
}

/// The source on which the comment filter is tried.
pub fn comment_sample_text() -> (sample: &'static str)
    ensures
        sample@ == comment_sample(),
{
    ";only comment\nmov rax, rbx ; trailing\n  ; indented comment\nlabel: nop\n"
}

/// The bounds of line `k` of `text`, without its line ending.
fn line_bounds(text: &Vec<char>, k: usize) -> (bounds: Option<(usize, usize)>)
    ensures
        match bounds {
            Some((from, to)) => from <= to <= text.len() && nth_line(text@, k as nat) == Some(
                text@.subrange(from as int, to as int),
            ),
            None => nth_line(text@, k as nat) is None,
        },
{
    let n = text.len();
    let mut start: usize = 0;
    let mut i: usize = 0;
    while i < k
        invariant
            i <= k,
            n == text.len(),
            start <= n,
            start == line_start(text@, i as nat) || (start == n && line_start(text@, i as nat)
                >= n),
        decreases k - i,
    {
        if start < n {
            let mut end: usize = start;
            while end < n && text[end] != '\n'
                invariant
                    start <= end <= n,
                    n == text.len(),
                    find(text@, start as int, '\n') == find(text@, end as int, '\n'),
                decreases n - end,
            {
                end += 1;
            }
            start = if end < n {
                end + 1
            } else {
                n
            };
        }
        i += 1;
    }
    if start >= n {
        return None;
    }
    let mut end: usize = start;
    while end < n && text[end] != '\n'
        invariant
            start <= end <= n,
            n == text.len(),
            find(text@, start as int, '\n') == find(text@, end as int, '\n'),
        decreases n - end,
    {
        end += 1;
    }
    let stop = if end < n && end > start && text[end - 1] == '\r' {
        end - 1
    } else {
        end
    };
    assert(line_at(text@, start as int, end as int) =~= text@.subrange(start as int, stop as int));
    Some((start, stop))
}

/// Whether the part of `text` from `from` up to `to` is exactly `wanted`.
fn part_is(text: &Vec<char>, from: usize, to: usize, wanted: &Vec<char>) -> (same: bool)
    requires
        from <= to <= text.len(),
    ensures
        same == (text@.subrange(from as int, to as int) == wanted@),
{
    if to - from != wanted.len() {
        return false;
    }
    let ghost part = text@.subrange(from as int, to as int);
    let mut i: usize = 0;
    while i < wanted.len()
        invariant
            i <= wanted.len(),
            from <= to <= text.len(),
            to - from == wanted.len(),
            part == text@.subrange(from as int, to as int),
            forall|k: int| 0 <= k < i ==> part[k] == wanted@[k],
        decreases wanted.len() - i,
    {
        if text[from + i] != wanted[i] {
            assert(part[i as int] != wanted@[i as int]);
            return false;
        }
        i += 1;
    }
    assert(part =~= wanted@);
    true
}

/// Whether line `k` of `text`, apart from white space at its start, is
/// exactly `wanted`.
fn line_reads_as(text: &Vec<char>, k: usize, wanted: &str) -> (reads: bool)
    ensures
        reads == line_reads(text@, k as nat, wanted@),
{
    match line_bounds(text, k) {
        Some((from, to)) => {
            let ghost line = text@.subrange(from as int, to as int);
            let mut at: usize = from;
            while at < to && is_space_char(text[at])
                invariant
                    from <= at <= to <= text.len(),
                    line == text@.subrange(from as int, to as int),
                    first_visible(line, 0) == first_visible(line, at - from),
                decreases to - at,
            {
                assert(line[at - from] == text@[at as int]);
                at += 1;
            }
            proof {
                if at < to {
                    assert(line[at - from] == text@[at as int]);
                }
                assert(without_indent(line) =~= text@.subrange(at as int, to as int));
            }
            let w = chars_of(wanted);
            part_is(text, at, to, &w)
        },
        None => false,
    }
}

/// Whether line `k` of `text` holds `code` and no semicolon.
fn line_is_code_of(text: &Vec<char>, k: usize, code: &str) -> (is_code: bool)
    ensures
        is_code == line_is_code(text@, k as nat, code@),
{
    match line_bounds(text, k) {
        Some((from, to)) => {
            let ghost line = text@.subrange(from as int, to as int);
            let mut copy: Vec<char> = Vec::new();
            let mut clean = true;
            let mut i: usize = from;
            while i < to
                invariant
                    from <= i <= to <= text.len(),
                    line == text@.subrange(from as int, to as int),
                    copy@ == line.take(i - from),
                    clean == !line.take(i - from).contains(';'),
                decreases to - i,
            {
                let c = text[i];
                proof {
                    let was = line.take(i - from);
                    let now = line.take(i - from + 1);
                    assert(now =~= was.push(c));
                    if was.contains(';') {
                        let j = choose|j: int| 0 <= j < was.len() && was[j] == ';';
                        assert(now[j] == ';');
                    }
                    if c == ';' {
                        assert(now[i - from] == ';');
                    }
                    if now.contains(';') {
                        let j = choose|j: int| 0 <= j < now.len() && now[j] == ';';
                        if j < was.len() {
                            assert(was[j] == ';');
                        }
                    }
                }
                if c == ';' {
                    clean = false;
                }
                copy.push(c);
                i += 1;
            }
            assert(line.take(to - from) =~= line);
            let wanted = chars_of(code);
            let held = chars_contain(&copy, &wanted);
            held && clean
        },
        None => false,
    }
}

/// Checks what the comment filter made of the sample.
pub fn check_comment_preservation(processed: &str) -> (verdict: Result<(), String>)
    ensures
        reason(verdict) == preservation_verdict(processed@),
{
    let text = chars_of(processed);
    if !line_reads_as(&text, 0, ";only comment") {
        return Err(String::from_str("comment-only line removed"));
    }
    if !line_is_code_of(&text, 1, "mov rax, rbx") {
        return Err(String::from_str("trailing comment not stripped correctly"));
    }
    if !line_reads_as(&text, 2, "; indented comment") {
        return Err(String::from_str("indented comment line lost"));
    }
    Ok(())
}

} // verus!
