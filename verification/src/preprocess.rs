//! Rewriting assembly sources: comments that trail code are cut off, lines
//! that hold nothing but a comment stay as they are.
//!
//! A comment begins at the first semicolon of a line and runs to its end.

use crate::text::chars_of;
use vstd::prelude::*;
use vstd::string::StrSliceExecFns;
use vstd::string::StringExecFns;

verus! {

/// Whether `c` is white space: a tab, a line feed, a vertical tab, a form
/// feed, a carriage return, a blank, or one of the spaces beyond ASCII.
pub open spec fn is_space(c: char) -> bool {
    let u = c as u32;
    ||| 0x09 <= u <= 0x0D
    ||| u == 0x20
    ||| u == 0x85
    ||| u == 0xA0
    ||| u == 0x1680
    ||| 0x2000 <= u <= 0x200A
    ||| u == 0x2028
    ||| u == 0x2029
    ||| u == 0x202F
    ||| u == 0x205F
    ||| u == 0x3000
}

/// The first position at or behind `from` at which `text` holds `c`, or
/// the length of `text` if there is none.
pub open spec fn find(text: Seq<char>, from: int, c: char) -> int
    decreases text.len() - from,
{
    if from < 0 || from >= text.len() {
        text.len() as int
    } else if text[from] == c {
        from
    } else {
        find(text, from + 1, c)
    }
}

/// The first position at or behind `from` at which `line` holds something
/// other than white space, or the length of `line` if there is none.
pub open spec fn first_visible(line: Seq<char>, from: int) -> int
    decreases line.len() - from,
{
    if from < 0 || from >= line.len() {
        line.len() as int
    } else if !is_space(line[from]) {
        from
    } else {
        first_visible(line, from + 1)
    }
}

/// The line holds nothing but a comment: its first visible character is a
/// semicolon.
pub open spec fn is_comment_only(line: Seq<char>) -> bool {
    let at = first_visible(line, 0);
    at < line.len() && line[at] == ';'
}

/// `s` without the characters of `drop` at its end.
pub open spec fn trimmed(s: Seq<char>, drop: Seq<char>) -> Seq<char>
    decreases s.len(),
{
    if s.len() > 0 && drop.contains(s.last()) {
        trimmed(s.drop_last(), drop)
    } else {
        s
    }
}

/// What is kept of a line: all of a comment-only line but carriage returns
/// at its end; of any other line what stands before the first semicolon,
/// without blanks, tabs and carriage returns at its end.
pub open spec fn cleaned(line: Seq<char>) -> Seq<char> {
    if is_comment_only(line) {
        trimmed(line, seq!['\r', '\n'])
    } else {
        trimmed(line.take(find(line, 0, ';')), seq![' ', '\t', '\r', '\n'])
    }
}

/// The line of `text` that runs from `from` up to `end`, where `end` is the
/// position of its line feed or the end of the text. A carriage return
/// directly before the line feed belongs to the line ending.
pub open spec fn line_at(text: Seq<char>, from: int, end: int) -> Seq<char> {
    let raw = text.subrange(from, end);
    if end < text.len() && raw.len() > 0 && raw.last() == '\r' {
        raw.drop_last()
    } else {
        raw
    }
}

/// `find` never goes back, and never beyond the end.
pub proof fn lemma_find_bounds(text: Seq<char>, from: int, c: char)
    requires
        0 <= from <= text.len(),
    ensures
        from <= find(text, from, c) <= text.len(),
        find(text, from, c) < text.len() ==> text[find(text, from, c)] == c,
        forall|k: int| from <= k < find(text, from, c) ==> text[k] != c,
    decreases text.len() - from,
{
    if from < text.len() && text[from] != c {
        lemma_find_bounds(text, from + 1, c);
    }
}

/// The lines of `text` from position `from` on, each cleaned and ended by
/// a line feed.
pub open spec fn stripped_from(text: Seq<char>, from: int) -> Seq<char>
    decreases text.len() + 1 - from,
    via stripped_from_ends
{
    if from < 0 || from >= text.len() {
        Seq::empty()
    } else {
        let end = find(text, from, '\n');
        cleaned(line_at(text, from, end)) + seq!['\n'] + stripped_from(text, end + 1)
    }
}

/// Every line ends at or behind its start, so the lines come to an end.
#[via_fn]
proof fn stripped_from_ends(text: Seq<char>, from: int) {
    if 0 <= from < text.len() {
        lemma_find_bounds(text, from, '\n');
    }
}

/// The text with trailing comments cut off: line by line, each line
/// cleaned and ended by a line feed. A last line without a line feed
/// counts as a line; an empty text has none.
pub open spec fn stripped(text: Seq<char>) -> Seq<char> {
    stripped_from(text, 0)
}

/// Whether `c` is white space.
pub fn is_space_char(c: char) -> (space: bool)
    ensures
        space == is_space(c),
{
    let u: u32 = c as u32;
    (0x09 <= u && u <= 0x0D) || u == 0x20 || u == 0x85 || u == 0xA0 || u == 0x1680 || (0x2000 <= u
        && u <= 0x200A) || u == 0x2028 || u == 0x2029 || u == 0x202F || u == 0x205F || u == 0x3000
}

/// The first position at or behind `from` at which `text` holds `c`.
fn find_from(text: &Vec<char>, from: usize, c: char) -> (at: usize)
    requires
        from <= text.len(),
    ensures
        at == find(text@, from as int, c),
        from <= at <= text.len(),
{
    let mut at: usize = from;
    while at < text.len() && text[at] != c
        invariant
            from <= at <= text.len(),
            find(text@, from as int, c) == find(text@, at as int, c),
        decreases text.len() - at,
    {
        at += 1;
    }
    at
}

/// Whether the part of `text` from `from` up to `to` holds nothing but a
/// comment.
fn comment_only(text: &Vec<char>, from: usize, to: usize) -> (only: bool)
    requires
        from <= to <= text.len(),
    ensures
        only == is_comment_only(text@.subrange(from as int, to as int)),
{
    let ghost line = text@.subrange(from as int, to as int);
    let mut at: usize = from;
    while at < to && is_space_char(text[at])
        invariant
            from <= at <= to <= text.len(),
            line == text@.subrange(from as int, to as int),
            first_visible(line, 0) == first_visible(line, at - from),
        decreases to - at,
    {
        at += 1;
    }
    if at < to {
        text[at] == ';'
    } else {
        false
    }
}

/// Where the part of `text` from `from` up to `to` ends once the
/// characters of `drop` at its end are left off.
fn trimmed_end(text: &Vec<char>, from: usize, to: usize, drop: &Vec<char>) -> (end: usize)
    requires
        from <= to <= text.len(),
    ensures
        from <= end <= to,
        trimmed(text@.subrange(from as int, to as int), drop@) == text@.subrange(
            from as int,
            end as int,
        ),
{
    let mut end: usize = to;
    loop
        invariant
            from <= end <= to <= text.len(),
            trimmed(text@.subrange(from as int, to as int), drop@) == trimmed(
                text@.subrange(from as int, end as int),
                drop@,
            ),
        decreases end - from,
    {
        if end == from {
            return end;
        }
        let last = text[end - 1];
        let mut hit = false;
        let mut k: usize = 0;
        while k < drop.len()
            invariant
                k <= drop.len(),
                hit == drop@.take(k as int).contains(last),
            decreases drop.len() - k,
        {
            if drop[k] == last {
                hit = true;
            }
            proof {
                let now = drop@.take(k + 1);
                if drop@[k as int] == last {
                    assert(now[k as int] == last);
                }
            }
            k += 1;
        }
        assert(drop@.take(drop.len() as int) =~= drop@);
        let ghost part = text@.subrange(from as int, end as int);
        if !hit {
            return end;
        }
        assert(part.drop_last() =~= text@.subrange(from as int, end - 1));
        end -= 1;
    }
}

/// The text with trailing comments cut off. Comment-only lines are kept
/// as they are; every line of the result ends with a line feed.
pub fn strip_comments(content: &str) -> (out: String)
    ensures
        out@ == stripped(content@),
{
    let text = chars_of(content);
    let n = text.len();
    let mut comment_end: Vec<char> = Vec::new();
    comment_end.push('\r');
    comment_end.push('\n');
    let mut code_end: Vec<char> = Vec::new();
    code_end.push(' ');
    code_end.push('\t');
    code_end.push('\r');
    code_end.push('\n');
    proof {
        reveal_strlit("\n");
    }
    let mut out = String::new();
    let mut from: usize = 0;
    while from < n
        invariant
            n == text.len(),
            text@ == content@,
            from <= n,
            comment_end@ == seq!['\r', '\n'],
            code_end@ == seq![' ', '\t', '\r', '\n'],
            "\n"@ == seq!['\n'],
            out@ + stripped_from(text@, from as int) == stripped(text@),
        decreases n - from,
    {
        let end = find_from(&text, from, '\n');
        let stop = if end < n && end > from && text[end - 1] == '\r' {
            end - 1
        } else {
            end
        };
        let ghost line = line_at(text@, from as int, end as int);
        assert(line =~= text@.subrange(from as int, stop as int));
        let keep = if comment_only(&text, from, stop) {
            trimmed_end(&text, from, stop, &comment_end)
        } else {
            let semicolon = find_from(&text, from, ';');
            let code = if semicolon < stop {
                semicolon
            } else {
                stop
            };
            proof {
                lemma_find_within(text@, from as int, stop as int, ';');
                assert(line.take(find(line, 0, ';')) =~= text@.subrange(from as int, code as int));
            }
            trimmed_end(&text, from, code, &code_end)
        };
        let ghost before = out@;
        out.append(content.substring_char(from, keep));
        out.append("\n");
        proof {
            assert(before + cleaned(line) + seq!['\n'] + stripped_from(text@, end + 1) =~= before
                + stripped_from(text@, from as int));
        }
        from = if end < n {
            end + 1
        } else {
            n
        };
    }
    out
}

/// Searching a part of a text from its start is searching the text from
/// where the part begins, cut off at where the part ends.
pub proof fn lemma_find_within(text: Seq<char>, from: int, to: int, c: char)
    requires
        0 <= from <= to <= text.len(),
    ensures
        find(text.subrange(from, to), 0, c) == if find(text, from, c) < to {
            find(text, from, c) - from
        } else {
            to - from
        },
{
    lemma_find_shift(text, from, to, from, c);
}

/// The same, from any position inside the part.
proof fn lemma_find_shift(text: Seq<char>, from: int, to: int, at: int, c: char)
    requires
        0 <= from <= at <= to <= text.len(),
    ensures
        find(text.subrange(from, to), at - from, c) == if find(text, at, c) < to {
            find(text, at, c) - from
        } else {
            to - from
        },
    decreases to - at,
{
    lemma_find_bounds(text, at, c);
    if at < to {
        if text[at] != c {
            lemma_find_shift(text, from, to, at + 1, c);
        }
    }
}

/// A search that meets no `c` runs to the end.
proof fn lemma_find_none(text: Seq<char>, from: int, c: char)
    requires
        0 <= from <= text.len(),
        forall|k: int| from <= k < text.len() ==> text[k] != c,
    ensures
        find(text, from, c) == text.len(),
    decreases text.len() - from,
{
    if from < text.len() {
        lemma_find_none(text, from + 1, c);
    }
}

/// The first visible character stands at or behind the start of the
/// search, and nothing before it is visible.
proof fn lemma_first_visible_bounds(line: Seq<char>, from: int)
    requires
        0 <= from <= line.len(),
    ensures
        from <= first_visible(line, from) <= line.len(),
        first_visible(line, from) < line.len() ==> !is_space(line[first_visible(line, from)]),
    decreases line.len() - from,
{
    if from < line.len() && is_space(line[from]) {
        lemma_first_visible_bounds(line, from + 1);
    }
}

/// Cutting a line off behind its first visible character does not move
/// that character.
proof fn lemma_first_visible_kept(line: Seq<char>, n: int, from: int)
    requires
        0 <= from <= n <= line.len(),
        first_visible(line, from) < n,
    ensures
        first_visible(line.take(n), from) == first_visible(line, from),
    decreases n - from,
{
    lemma_first_visible_bounds(line, from);
    if from < n && is_space(line[from]) {
        lemma_first_visible_kept(line, n, from + 1);
    }
}

/// Trimming cuts characters off the end and nothing else: what is left is
/// the beginning of `s`, everything cut off is of `drop`, and what is left
/// does not end in a character of `drop`.
pub proof fn lemma_trimmed(s: Seq<char>, drop: Seq<char>)
    ensures
        trimmed(s, drop).len() <= s.len(),
        trimmed(s, drop) == s.take(trimmed(s, drop).len() as int),
        trimmed(s, drop).len() > 0 ==> !drop.contains(trimmed(s, drop).last()),
        forall|k: int| trimmed(s, drop).len() <= k < s.len() ==> drop.contains(s[k]),
        trimmed(trimmed(s, drop), drop) == trimmed(s, drop),
    decreases s.len(),
{
    if s.len() > 0 && drop.contains(s.last()) {
        let rest = s.drop_last();
        lemma_trimmed(rest, drop);
        let kept = trimmed(rest, drop).len() as int;
        assert(rest.take(kept) =~= s.take(kept));
        assert forall|k: int| kept <= k < s.len() implies drop.contains(s[k]) by {
            if k < rest.len() {
                assert(rest[k] == s[k]);
            }
        }
    } else {
        assert(s.take(s.len() as int) =~= s);
    }
}

/// What is kept of a line is kept as it is when the line is cleaned once
/// more; it holds no line feed if the line held none, and it does not end
/// in a carriage return.
pub proof fn lemma_cleaned_again(line: Seq<char>)
    ensures
        cleaned(cleaned(line)) == cleaned(line),
        cleaned(line).len() > 0 ==> cleaned(line).last() != '\r',
        !line.contains('\n') ==> !cleaned(line).contains('\n'),
{
    let ends = seq!['\r', '\n'];
    let blanks = seq![' ', '\t', '\r', '\n'];
    assert(ends[0] == '\r' && blanks[2] == '\r');
    let kept = cleaned(line);
    if is_comment_only(line) {
        let at = first_visible(line, 0);
        lemma_first_visible_bounds(line, 0);
        lemma_trimmed(line, ends);
        assert(at < kept.len()) by {
            if at >= kept.len() {
                assert(ends.contains(line[at]));
            }
        }
        lemma_first_visible_kept(line, kept.len() as int, 0);
        assert(kept == line.take(kept.len() as int));
        assert(kept[at] == line[at]);
        assert(is_comment_only(kept));
    } else {
        let cut = find(line, 0, ';');
        lemma_find_bounds(line, 0, ';');
        let front = line.take(cut);
        lemma_trimmed(front, blanks);
        assert forall|k: int| 0 <= k < kept.len() implies kept[k] != ';' by {
            assert(kept[k] == front[k]);
        }
        lemma_first_visible_bounds(kept, 0);
        assert(!is_comment_only(kept));
        lemma_find_none(kept, 0, ';');
        assert(kept.take(kept.len() as int) =~= kept);
    }
    if !line.contains('\n') {
        assert forall|k: int| 0 <= k < kept.len() implies kept[k] != '\n' by {
            if is_comment_only(line) {
                assert(kept[k] == line[k]);
            } else {
                assert(kept[k] == line.take(find(line, 0, ';'))[k]);
            }
            assert(line.contains(line[k]));
        }
    }
}

/// What follows a position of a text is stripped without regard to what
/// stands before it.
proof fn lemma_stripped_from_shift(front: Seq<char>, rest: Seq<char>, from: int)
    requires
        0 <= from,
    ensures
        stripped_from(front + rest, front.len() + from) == stripped_from(rest, from),
    decreases rest.len() + 1 - from,
{
    let text = front + rest;
    let base = front.len() as int;
    if from < rest.len() {
        assert(text.subrange(base, text.len() as int) =~= rest);
        lemma_find_shift(text, base, text.len() as int, base + from, '\n');
        lemma_find_bounds(text, base + from, '\n');
        lemma_find_bounds(rest, from, '\n');
        let end = find(rest, from, '\n');
        assert(find(text, base + from, '\n') == base + end);
        assert(text.subrange(base + from, base + end) =~= rest.subrange(from, end));
        lemma_stripped_from_shift(front, rest, end + 1);
    }
}

/// Stripping is done once and for all: a text that was stripped is left as
/// it is when it is stripped again.
pub proof fn lemma_stripped_again(text: Seq<char>)
    ensures
        stripped(stripped(text)) == stripped(text),
{
    lemma_stripped_from_again(text, 0);
}

/// The same, for what is stripped from any position on.
proof fn lemma_stripped_from_again(text: Seq<char>, from: int)
    requires
        0 <= from,
    ensures
        stripped(stripped_from(text, from)) == stripped_from(text, from),
    decreases text.len() + 1 - from,
{
    if from < text.len() {
        lemma_find_bounds(text, from, '\n');
        let end = find(text, from, '\n');
        let line = line_at(text, from, end);
        let kept = cleaned(line);
        let rest = stripped_from(text, end + 1);
        let front = kept + seq!['\n'];
        let all = stripped_from(text, from);
        assert(all =~= front + rest);
        assert(!line.contains('\n')) by {
            if line.contains('\n') {
                let k = choose|k: int| 0 <= k < line.len() && line[k] == '\n';
                assert(line[k] == text[from + k]);
            }
        }
        lemma_cleaned_again(line);
        lemma_stripped_from_again(text, end + 1);
        lemma_find_bounds(all, 0, '\n');
        assert(all[kept.len() as int] == '\n');
        assert(find(all, 0, '\n') == kept.len()) by {
            let found = find(all, 0, '\n');
            if found < kept.len() {
                assert(all[found] == kept[found]);
                assert(kept.contains(kept[found]));
            }
        }
        assert(all.subrange(0, kept.len() as int) =~= kept);
        assert(line_at(all, 0, kept.len() as int) == kept);
        lemma_stripped_from_shift(front, rest, 0);
        let next = kept.len() as int + 1;
        assert(stripped_from(all, 0) =~= kept + seq!['\n'] + stripped_from(all, next));
    }
}

/// Whether the file at `path` is an assembly source: the last component of
/// the path is a name of at least one character followed by `.asm`.
pub open spec fn is_asm_path(path: Seq<char>) -> bool {
    let n = path.len() as int;
    &&& n > 4
    &&& path.subrange(n - 4, n) == seq!['.', 'a', 's', 'm']
    &&& path[n - 5] != '/'
}

/// Whether the file at `path` is an assembly source.
pub fn has_asm_extension(path: &str) -> (source: bool)
    ensures
        source == is_asm_path(path@),
{
    let p = chars_of(path);
    let n = p.len();
    if n <= 4 {
        return false;
    }
    let hit = p[n - 4] == '.' && p[n - 3] == 'a' && p[n - 2] == 's' && p[n - 1] == 'm';
    if hit {
        assert(p@.subrange(n - 4, n as int) =~= seq!['.', 'a', 's', 'm']);
    }
    hit && p[n - 5] != '/'
}

} // verus!
