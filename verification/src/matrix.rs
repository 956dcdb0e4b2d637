//! The flag matrix: every combination of flags that the harness exercises.
//!
//! The candidates are, in this order: no flags at all; every non-empty
//! subset of the short flags, bundled behind one dash and, where it has
//! more than one member, as separate tokens; a fixed list of short
//! sequences that bundling does not reach; every non-empty subset of the
//! long flags; a fixed list of pairs in both orders. A subset lists its
//! members in alphabet order. The matrix is the candidates with every
//! token sequence kept once.

use crate::record::{
    dedup, entries, lemma_merge_concat, lemma_merge_one, merge, push_spec, push_unique, Entry,
    OptionSpec,
};
use crate::text::{clone_strings, join, joined, views};
use vstd::arithmetic::power2::{
    lemma2_to64, lemma_pow2_pos, lemma_pow2_strictly_increases, lemma_pow2_unfold, pow2,
};
use vstd::prelude::*;
use vstd::string::StringExecFns;

verus! {

/// Number of masks over the short alphabet, the empty one included.
pub const SHORT_MASKS: u32 = 256;

/// Number of masks over the long alphabet, the empty one included.
pub const LONG_MASKS: u32 = 128;

/// The single-letter flags, in the order in which subsets list them.
pub open spec fn short_alphabet() -> Seq<char> {
    seq!['n', 'b', 's', 'E', 'T', 'v', 'u', 'A']
}

/// The long flags, in the order in which subsets list them.
pub open spec fn long_alphabet() -> Seq<Seq<char>> {
    seq![
        "--number"@,
        "--number-nonblank"@,
        "--squeeze-blank"@,
        "--show-ends"@,
        "--show-tabs"@,
        "--show-nonprinting"@,
        "--show-all"@,
    ]
}

/// Whether bit `idx` of `mask` is set.
pub open spec fn bit(mask: nat, idx: nat) -> bool {
    (mask / pow2(idx)) % 2 == 1
}

/// The members of `alphabet` whose position is a set bit of `mask`, in
/// alphabet order.
pub open spec fn selected<T>(alphabet: Seq<T>, mask: nat) -> Seq<T>
    decreases alphabet.len(),
{
    if alphabet.len() == 0 {
        Seq::empty()
    } else {
        let init = selected(alphabet.drop_last(), mask);
        if bit(mask, (alphabet.len() - 1) as nat) {
            init.push(alphabet.last())
        } else {
            init
        }
    }
}

/// A single-letter flag as a token of its own.
pub open spec fn dashed(letter: char) -> Seq<char> {
    seq!['-', letter]
}

/// Each letter as a token of its own, in order.
pub open spec fn dashed_all(letters: Seq<char>) -> Seq<Seq<char>> {
    Seq::new(letters.len(), |i: int| dashed(letters[i]))
}

/// The bundled form of a subset of the short flags: one dash, then every
/// selected letter.
pub open spec fn bundled(mask: nat) -> Seq<char> {
    seq!['-'] + selected(short_alphabet(), mask)
}

/// The separated form of a subset of the short flags: one token per
/// selected letter, in alphabet order.
pub open spec fn separated(mask: nat) -> Seq<Seq<char>> {
    dashed_all(selected(short_alphabet(), mask))
}

/// What one subset of the short flags puts forward: its bundled form and,
/// where it has more than one member, its separated form.
pub open spec fn short_entries(mask: nat) -> Seq<Entry> {
    let bundle = Entry { label: "short bundled "@ + bundled(mask), tokens: seq![bundled(mask)] };
    if selected(short_alphabet(), mask).len() > 1 {
        seq![
            bundle,
            Entry {
                label: "short separate "@ + joined(separated(mask), " "@),
                tokens: separated(mask),
            },
        ]
    } else {
        seq![bundle]
    }
}

/// What the subsets with masks from 1 up to, not including, `upto` put
/// forward, in mask order.
pub open spec fn short_block(upto: nat) -> Seq<Entry>
    decreases upto,
{
    if upto <= 1 {
        Seq::empty()
    } else {
        short_block((upto - 1) as nat) + short_entries((upto - 1) as nat)
    }
}

/// What one subset of the long flags puts forward.
pub open spec fn long_entry(mask: nat) -> Entry {
    let tokens = selected(long_alphabet(), mask);
    Entry { label: "long "@ + joined(tokens, " "@), tokens }
}

/// What the subsets of the long flags with masks from 1 up to, not
/// including, `upto` put forward, in mask order.
pub open spec fn long_block(upto: nat) -> Seq<Entry>
    decreases upto,
{
    if upto <= 1 {
        Seq::empty()
    } else {
        long_block((upto - 1) as nat).push(long_entry((upto - 1) as nat))
    }
}

/// Short-flag sequences that no bundle of the alphabet reaches.
pub open spec fn extra_short() -> Seq<Seq<Seq<char>>> {
    seq![
        seq!["-e"@],
        seq!["-t"@],
        seq!["-e"@, "-s"@],
        seq!["-t"@, "-s"@],
        seq!["-e"@, "-n"@],
        seq!["-t"@, "-n"@],
        seq!["-e"@, "-b"@],
        seq!["-t"@, "-b"@],
        seq!["-e"@, "-u"@],
        seq!["-t"@, "-u"@],
        seq!["-e"@, "-s"@, "-n"@],
        seq!["-t"@, "-s"@, "-n"@],
        seq!["-e"@, "-s"@, "-b"@],
        seq!["-t"@, "-s"@, "-b"@],
    ]
}

/// Pairs of flags that override or interact with one another, each pair in
/// both orders.
pub open spec fn order_sensitive() -> Seq<Seq<Seq<char>>> {
    seq![
        seq!["-n"@, "-b"@],
        seq!["-b"@, "-n"@],
        seq!["-s"@, "-n"@],
        seq!["-n"@, "-s"@],
        seq!["-s"@, "-b"@],
        seq!["-b"@, "-s"@],
        seq!["-E"@, "-T"@],
        seq!["-T"@, "-E"@],
        seq!["--number"@, "--number-nonblank"@],
        seq!["--number-nonblank"@, "--number"@],
        seq!["--squeeze-blank"@, "--number"@],
        seq!["--number"@, "--squeeze-blank"@],
        seq!["--show-ends"@, "--show-tabs"@],
        seq!["--show-tabs"@, "--show-ends"@],
    ]
}

/// Each token list as an entry labelled with `prefix` and its tokens.
pub open spec fn labelled(prefix: Seq<char>, lists: Seq<Seq<Seq<char>>>) -> Seq<Entry> {
    Seq::new(
        lists.len(),
        |i: int| Entry { label: prefix + joined(lists[i], " "@), tokens: lists[i] },
    )
}

/// Every combination that is put forward, in order: no flags at all, the
/// subsets of the short flags, the extra short sequences, the subsets of
/// the long flags, the order-sensitive pairs.
pub open spec fn candidates() -> Seq<Entry> {
    seq![Entry { label: "no options"@, tokens: Seq::empty() }] + short_block(SHORT_MASKS as nat)
        + labelled("short extra "@, extra_short()) + long_block(LONG_MASKS as nat) + labelled(
        "order "@,
        order_sensitive(),
    )
}

/// The flag matrix: the candidates without repeated token sequences.
pub open spec fn option_matrix() -> Seq<Entry> {
    dedup(candidates())
}

/// The views of a list of token lists, in order.
pub open spec fn list_views(lists: Seq<Vec<String>>) -> Seq<Seq<Seq<char>>> {
    Seq::new(lists.len(), |i: int| views(lists[i]@))
}

/// The short flag at position `idx` of the alphabet, as a one-letter string.
fn short_flag(idx: usize) -> (flag: &'static str)
    requires
        idx < 8,
    ensures
        flag@ == seq![short_alphabet()[idx as int]],
{
    proof {
        reveal_strlit("n");
        reveal_strlit("b");
        reveal_strlit("s");
        reveal_strlit("E");
        reveal_strlit("T");
        reveal_strlit("v");
        reveal_strlit("u");
        reveal_strlit("A");
    }
    let flag = if idx == 0 {
        "n"
    } else if idx == 1 {
        "b"
    } else if idx == 2 {
        "s"
    } else if idx == 3 {
        "E"
    } else if idx == 4 {
        "T"
    } else if idx == 5 {
        "v"
    } else if idx == 6 {
        "u"
    } else {
        "A"
    };
    flag
}

/// The long flag at position `idx` of the alphabet.
fn long_flag(idx: usize) -> (flag: &'static str)
    requires
        idx < 7,
    ensures
        flag@ == long_alphabet()[idx as int],
{
    if idx == 0 {
        "--number"
    } else if idx == 1 {
        "--number-nonblank"
    } else if idx == 2 {
        "--squeeze-blank"
    } else if idx == 3 {
        "--show-ends"
    } else if idx == 4 {
        "--show-tabs"
    } else if idx == 5 {
        "--show-nonprinting"
    } else {
        "--show-all"
    }
}

/// `prefix` followed by `rest`.
pub(crate) fn prefixed(prefix: &str, rest: &str) -> (out: String)
    ensures
        out@ == prefix@ + rest@,
{
    String::from_str(prefix).concat(rest)
}

/// Puts forward the bundled and, where there is one, the separated form of
/// the subset of short flags given by `mask`.
fn push_short_subset(specs: &mut Vec<OptionSpec>, mask: u32)
    requires
        1 <= mask < SHORT_MASKS,
    ensures
        entries(final(specs)@) == merge(entries(old(specs)@), short_entries(mask as nat)),
{
    proof {
        reveal_strlit("-");
        lemma2_to64();
    }
    let ghost alphabet = short_alphabet();
    let mut bundle = String::from_str("-");
    let mut separate: Vec<String> = Vec::new();
    let mut idx: usize = 0;
    let mut weight: u32 = 1;
    while idx < 8
        invariant
            idx <= 8,
            alphabet == short_alphabet(),
            weight == pow2(idx as nat),
            "-"@ == seq!['-'],
            bundle@ == seq!['-'] + selected(alphabet.take(idx as int), mask as nat),
            views(separate@) == dashed_all(selected(alphabet.take(idx as int), mask as nat)),
        decreases 8 - idx,
    {
        proof {
            assert(alphabet.take(idx + 1).drop_last() =~= alphabet.take(idx as int));
            lemma2_to64();
            lemma_pow2_pos(idx as nat);
            lemma_pow2_strictly_increases(idx as nat, 8);
            lemma_pow2_unfold((idx + 1) as nat);
        }
        if (mask / weight) % 2 == 1 {
            let flag = short_flag(idx);
            let ghost tokens_before = views(separate@);
            bundle.append(flag);
            separate.push(prefixed("-", flag));
            proof {
                let letter = alphabet[idx as int];
                assert(seq!['-'] + seq![letter] =~= dashed(letter));
                assert(views(separate@) =~= tokens_before.push(dashed(letter)));
            }
        }
        idx += 1;
        weight = weight * 2;
    }
    assert(alphabet.take(8) =~= alphabet);
    let ghost start = entries(specs@);
    let ghost first = Entry {
        label: "short bundled "@ + bundled(mask as nat),
        tokens: seq![bundled(mask as nat)],
    };
    let mut single: Vec<String> = Vec::new();
    single.push(bundle.clone());
    assert(views(single@) =~= seq![bundled(mask as nat)]);
    push_spec(specs, prefixed("short bundled ", bundle.as_str()), single);
    proof {
        lemma_merge_one(start, first);
    }
    if separate.len() > 1 {
        let ghost second = Entry {
            label: "short separate "@ + joined(separated(mask as nat), " "@),
            tokens: separated(mask as nat),
        };
        let label = prefixed("short separate ", join(separate.as_slice(), " ").as_str());
        push_spec(specs, label, separate);
        proof {
            assert(short_entries(mask as nat) =~= seq![first] + seq![second]);
            lemma_merge_one(merge(start, seq![first]), second);
            lemma_merge_concat(start, seq![first], seq![second]);
        }
    }
}

/// Puts forward the subset of long flags given by `mask`.
fn push_long_subset(specs: &mut Vec<OptionSpec>, mask: u32)
    requires
        1 <= mask < LONG_MASKS,
    ensures
        entries(final(specs)@) == push_unique(entries(old(specs)@), long_entry(mask as nat)),
{
    proof {
        lemma2_to64();
    }
    let ghost alphabet = long_alphabet();
    let mut opts: Vec<String> = Vec::new();
    let mut idx: usize = 0;
    let mut weight: u32 = 1;
    while idx < 7
        invariant
            idx <= 7,
            alphabet == long_alphabet(),
            weight == pow2(idx as nat),
            views(opts@) == selected(alphabet.take(idx as int), mask as nat),
        decreases 7 - idx,
    {
        proof {
            assert(alphabet.take(idx + 1).drop_last() =~= alphabet.take(idx as int));
            lemma2_to64();
            lemma_pow2_pos(idx as nat);
            lemma_pow2_strictly_increases(idx as nat, 8);
            lemma_pow2_unfold((idx + 1) as nat);
        }
        if (mask / weight) % 2 == 1 {
            opts.push(String::from_str(long_flag(idx)));
        }
        idx += 1;
        weight = weight * 2;
    }
    assert(alphabet.take(7) =~= alphabet);
    let label = prefixed("long ", join(opts.as_slice(), " ").as_str());
    push_spec(specs, label, opts);
}

/// A list of one token.
pub(crate) fn tokens1(a: &str) -> (out: Vec<String>)
    ensures
        views(out@) == seq![a@],
{
    let mut out: Vec<String> = Vec::new();
    out.push(String::from_str(a));
    out
}

/// A list of two tokens.
fn tokens2(a: &str, b: &str) -> (out: Vec<String>)
    ensures
        views(out@) == seq![a@, b@],
{
    let mut out: Vec<String> = Vec::new();
    out.push(String::from_str(a));
    out.push(String::from_str(b));
    out
}

/// A list of three tokens.
fn tokens3(a: &str, b: &str, c: &str) -> (out: Vec<String>)
    ensures
        views(out@) == seq![a@, b@, c@],
{
    let mut out: Vec<String> = Vec::new();
    out.push(String::from_str(a));
    out.push(String::from_str(b));
    out.push(String::from_str(c));
    out
}

/// The short-flag sequences that no bundle of the alphabet reaches.
fn extra_short_lists() -> (lists: Vec<Vec<String>>)
    ensures
        list_views(lists@) == extra_short(),
{
    let mut lists: Vec<Vec<String>> = Vec::new();
    lists.push(tokens1("-e"));
    lists.push(tokens1("-t"));
    lists.push(tokens2("-e", "-s"));
    lists.push(tokens2("-t", "-s"));
    lists.push(tokens2("-e", "-n"));
    lists.push(tokens2("-t", "-n"));
    lists.push(tokens2("-e", "-b"));
    lists.push(tokens2("-t", "-b"));
    lists.push(tokens2("-e", "-u"));
    lists.push(tokens2("-t", "-u"));
    lists.push(tokens3("-e", "-s", "-n"));
    lists.push(tokens3("-t", "-s", "-n"));
    lists.push(tokens3("-e", "-s", "-b"));
    lists.push(tokens3("-t", "-s", "-b"));
    lists
}

/// The pairs of flags that are put forward in both orders.
fn order_sensitive_lists() -> (lists: Vec<Vec<String>>)
    ensures
        list_views(lists@) == order_sensitive(),
{
    let mut lists: Vec<Vec<String>> = Vec::new();
    lists.push(tokens2("-n", "-b"));
    lists.push(tokens2("-b", "-n"));
    lists.push(tokens2("-s", "-n"));
    lists.push(tokens2("-n", "-s"));
    lists.push(tokens2("-s", "-b"));
    lists.push(tokens2("-b", "-s"));
    lists.push(tokens2("-E", "-T"));
    lists.push(tokens2("-T", "-E"));
    lists.push(tokens2("--number", "--number-nonblank"));
    lists.push(tokens2("--number-nonblank", "--number"));
    lists.push(tokens2("--squeeze-blank", "--number"));
    lists.push(tokens2("--number", "--squeeze-blank"));
    lists.push(tokens2("--show-ends", "--show-tabs"));
    lists.push(tokens2("--show-tabs", "--show-ends"));
    lists
}

/// Puts forward each token list of `lists` under a label made of `prefix`
/// and the tokens.
fn push_labelled(specs: &mut Vec<OptionSpec>, prefix: &str, lists: &Vec<Vec<String>>)
    ensures
        entries(final(specs)@) == merge(
            entries(old(specs)@),
            labelled(prefix@, list_views(lists@)),
        ),
{
    let ghost start = entries(specs@);
    let ghost all = labelled(prefix@, list_views(lists@));
    let mut i: usize = 0;
    while i < lists.len()
        invariant
            i <= lists.len(),
            all == labelled(prefix@, list_views(lists@)),
            entries(specs@) == merge(start, all.take(i as int)),
        decreases lists.len() - i,
    {
        let tokens = clone_strings(lists[i].as_slice());
        let label = prefixed(prefix, join(tokens.as_slice(), " ").as_str());
        proof {
            assert(all.take(i + 1).drop_last() =~= all.take(i as int));
        }
        push_spec(specs, label, tokens);
        i += 1;
    }
    assert(all.take(lists.len() as int) =~= all);
}

/// The flag matrix: every candidate combination, each token sequence once.
pub fn option_specs() -> (specs: Vec<OptionSpec>)
    ensures
        entries(specs@) == option_matrix(),
{
    let mut specs: Vec<OptionSpec> = Vec::new();
    let ghost head = seq![Entry { label: "no options"@, tokens: Seq::empty() }];
    let none: Vec<String> = Vec::new();
    assert(views(none@) =~= Seq::<Seq<char>>::empty());
    push_spec(&mut specs, String::from_str("no options"), none);
    proof {
        lemma_merge_one(Seq::empty(), head[0]);
    }
    let mut mask: u32 = 1;
    while mask < SHORT_MASKS
        invariant
            1 <= mask <= SHORT_MASKS,
            head == seq![Entry { label: "no options"@, tokens: Seq::empty() }],
            entries(specs@) == dedup(head + short_block(mask as nat)),
        decreases SHORT_MASKS - mask,
    {
        push_short_subset(&mut specs, mask);
        proof {
            lemma_merge_concat(
                Seq::empty(),
                head + short_block(mask as nat),
                short_entries(mask as nat),
            );
            assert(head + short_block((mask + 1) as nat) =~= head + short_block(mask as nat)
                + short_entries(mask as nat));
        }
        mask += 1;
    }
    let ghost shorts = head + short_block(SHORT_MASKS as nat);
    let extra = extra_short_lists();
    push_labelled(&mut specs, "short extra ", &extra);
    let ghost extras = shorts + labelled("short extra "@, extra_short());
    proof {
        lemma_merge_concat(Seq::empty(), shorts, labelled("short extra "@, extra_short()));
    }
    let mut mask: u32 = 1;
    while mask < LONG_MASKS
        invariant
            1 <= mask <= LONG_MASKS,
            entries(specs@) == dedup(extras + long_block(mask as nat)),
        decreases LONG_MASKS - mask,
    {
        push_long_subset(&mut specs, mask);
        proof {
            assert((extras + long_block((mask + 1) as nat)).drop_last() =~= extras + long_block(
                mask as nat,
            ));
        }
        mask += 1;
    }
    let ghost longs = extras + long_block(LONG_MASKS as nat);
    let pairs = order_sensitive_lists();
    push_labelled(&mut specs, "order ", &pairs);
    proof {
        lemma_merge_concat(Seq::empty(), longs, labelled("order "@, order_sensitive()));
    }
    specs
}

} // verus!
