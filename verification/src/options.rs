//! Reading a flag combination: which flags it holds, and which content
//! makes them show an effect.

use crate::fixtures::FixtureKey;
use crate::text::{chars_of, views};
use vstd::prelude::*;

verus! {

/// A token that carries single-letter flags: it begins with one dash, not
/// with two.
pub open spec fn is_short_token(token: Seq<char>) -> bool {
    &&& token.len() >= 1
    &&& token[0] == '-'
    &&& !(token.len() >= 2 && token[1] == '-')
}

/// `flag` stands among the letters of the short token `token`.
pub open spec fn short_token_has(token: Seq<char>, flag: char) -> bool {
    is_short_token(token) && exists|j: int| 1 <= j < token.len() && token[j] == flag
}

/// Some token of `opts` is a short token that holds `flag`.
pub open spec fn has_short(opts: Seq<Seq<char>>, flag: char) -> bool {
    exists|i: int| 0 <= i < opts.len() && short_token_has(#[trigger] opts[i], flag)
}

/// Some token of `opts` is exactly `flag`.
pub open spec fn has_long(opts: Seq<Seq<char>>, flag: Seq<char>) -> bool {
    exists|i: int| 0 <= i < opts.len() && #[trigger] opts[i] == flag
}

/// The content that lets the flags of `opts` show an effect. The first rule
/// that applies decides: flags that make everything visible take the mixed
/// content, flags that mark tabs the tab content, flags that mark
/// non-printing characters the control content, flags that number lines or
/// squeeze blank ones the blank-line content, flags that mark line ends the
/// content without a final newline; anything else takes plain text.
pub open spec fn fixture_key_for(opts: Seq<Seq<char>>) -> FixtureKey {
    if has_long(opts, "--show-all"@) || has_short(opts, 'A') || has_short(opts, 't') {
        FixtureKey::Mixed
    } else if has_short(opts, 'T') || has_long(opts, "--show-tabs"@) {
        FixtureKey::Tabs
    } else if has_short(opts, 'e') || has_short(opts, 'v') || has_long(
        opts,
        "--show-nonprinting"@,
    ) {
        FixtureKey::Control
    } else if has_short(opts, 's') || has_short(opts, 'b') || has_short(opts, 'n') || has_long(
        opts,
        "--squeeze-blank"@,
    ) || has_long(opts, "--number-nonblank"@) || has_long(opts, "--number"@) {
        FixtureKey::Blank
    } else if has_short(opts, 'E') || has_long(opts, "--show-ends"@) {
        FixtureKey::NoNewline
    } else {
        FixtureKey::SampleA
    }
}

/// Whether `flag` stands among the letters of the short token `token`.
fn token_has_short(token: &str, flag: char) -> (found: bool)
    ensures
        found == short_token_has(token@, flag),
{
    let t = chars_of(token);
    if t.len() == 0 || t[0] != '-' {
        return false;
    }
    if t.len() >= 2 && t[1] == '-' {
        return false;
    }
    let mut j: usize = 1;
    while j < t.len()
        invariant
            1 <= j <= t.len(),
            t@ == token@,
            is_short_token(token@),
            forall|k: int| 1 <= k < j ==> t@[k] != flag,
        decreases t.len() - j,
    {
        if t[j] == flag {
            assert(token@[j as int] == flag);
            return true;
        }
        j += 1;
    }
    false
}

/// Whether some short token of `opts` holds the single-letter `flag`.
///
/// A token that begins with two dashes is never a short token, and a lone
/// dash holds no flag.
pub fn option_has_short(opts: &[String], flag: char) -> (found: bool)
    ensures
        found == has_short(views(opts@), flag),
{
    let ghost tokens = views(opts@);
    let mut i: usize = 0;
    while i < opts.len()
        invariant
            i <= opts.len(),
            tokens == views(opts@),
            forall|k: int| 0 <= k < i ==> !short_token_has(#[trigger] tokens[k], flag),
        decreases opts.len() - i,
    {
        if token_has_short(opts[i].as_str(), flag) {
            assert(short_token_has(tokens[i as int], flag));
            return true;
        }
        i += 1;
    }
    false
}

/// Whether some token of `opts` is exactly `flag`.
pub fn option_has_long(opts: &[String], flag: &str) -> (found: bool)
    ensures
        found == has_long(views(opts@), flag@),
{
    let ghost tokens = views(opts@);
    let wanted = flag.to_owned();
    let mut i: usize = 0;
    while i < opts.len()
        invariant
            i <= opts.len(),
            tokens == views(opts@),
            wanted@ == flag@,
            forall|k: int| 0 <= k < i ==> #[trigger] tokens[k] != flag@,
        decreases opts.len() - i,
    {
        if opts[i] == wanted {
            assert(tokens[i as int] == flag@);
            return true;
        }
        i += 1;
    }
    false
}

/// Picks the content that lets the flags of `opts` show an effect.
pub fn pick_fixture_key(opts: &[String]) -> (key: FixtureKey)
    ensures
        key == fixture_key_for(views(opts@)),
{
    if option_has_long(opts, "--show-all") || option_has_short(opts, 'A') || option_has_short(
        opts,
        't',
    ) {
        return FixtureKey::Mixed;
    }
    if option_has_short(opts, 'T') || option_has_long(opts, "--show-tabs") {
        return FixtureKey::Tabs;
    }
    if option_has_short(opts, 'e') || option_has_short(opts, 'v') || option_has_long(
        opts,
        "--show-nonprinting",
    ) {
        return FixtureKey::Control;
    }
    if option_has_short(opts, 's') || option_has_short(opts, 'b') || option_has_short(opts, 'n')
        || option_has_long(opts, "--squeeze-blank") || option_has_long(opts, "--number-nonblank")
        || option_has_long(opts, "--number") {
        return FixtureKey::Blank;
    }
    if option_has_short(opts, 'E') || option_has_long(opts, "--show-ends") {
        return FixtureKey::NoNewline;
    }
    FixtureKey::SampleA
}


/// Every token of `a` is a token of `b`.
pub open spec fn tokens_within(a: Seq<Seq<char>>, b: Seq<Seq<char>>) -> bool {
    forall|i: int| 0 <= i < a.len() ==> b.contains(#[trigger] a[i])
}

/// More tokens can only add short flags.
pub proof fn lemma_short_within(a: Seq<Seq<char>>, b: Seq<Seq<char>>, flag: char)
    requires
        tokens_within(a, b),
    ensures
        has_short(a, flag) ==> has_short(b, flag),
{
    if has_short(a, flag) {
        let i = choose|i: int| 0 <= i < a.len() && short_token_has(#[trigger] a[i], flag);
        assert(b.contains(a[i]));
        let j = choose|j: int| 0 <= j < b.len() && b[j] == a[i];
        assert(short_token_has(b[j], flag));
    }
}

/// More tokens can only add long flags.
pub proof fn lemma_long_within(a: Seq<Seq<char>>, b: Seq<Seq<char>>, flag: Seq<char>)
    requires
        tokens_within(a, b),
    ensures
        has_long(a, flag) ==> has_long(b, flag),
{
    if has_long(a, flag) {
        let i = choose|i: int| 0 <= i < a.len() && #[trigger] a[i] == flag;
        assert(b.contains(a[i]));
        let j = choose|j: int| 0 <= j < b.len() && b[j] == a[i];
        assert(b[j] == flag);
    }
}

/// Two lists with the same tokens hold the same flags.
proof fn lemma_same_flags(a: Seq<Seq<char>>, b: Seq<Seq<char>>)
    requires
        tokens_within(a, b),
        tokens_within(b, a),
    ensures
        forall|flag: char| has_short(a, flag) == has_short(b, flag),
        forall|flag: Seq<char>| has_long(a, flag) == has_long(b, flag),
{
    assert forall|flag: char| has_short(a, flag) == has_short(b, flag) by {
        lemma_short_within(a, b, flag);
        lemma_short_within(b, a, flag);
    }
    assert forall|flag: Seq<char>| has_long(a, flag) == has_long(b, flag) by {
        lemma_long_within(a, b, flag);
        lemma_long_within(b, a, flag);
    }
}

/// The content for a flag combination depends on which tokens it holds,
/// not on their order nor on how often one is repeated: a combination and
/// its reversal, or a combination and the same with a flag given twice,
/// are run against the same content.
pub proof fn lemma_fixture_key_ignores_order(a: Seq<Seq<char>>, b: Seq<Seq<char>>)
    requires
        tokens_within(a, b),
        tokens_within(b, a),
    ensures
        fixture_key_for(a) == fixture_key_for(b),
{
    lemma_same_flags(a, b);
}

} // verus!
