//! Flag combinations, and the record that holds each token sequence once.
//!
//! Combinations are told apart by their exact token sequence, in order:
//! the same flags in another order are another combination. Where two
//! candidates have the same tokens, the one that was put forward first
//! stays, under its label.

use crate::text::{same_strings, views};
use vstd::prelude::*;

verus! {

/// A flag combination: a label for reports and the tokens handed to the
/// program, in order.
#[derive(Clone, Debug, PartialEq, Eq)]
pub struct OptionSpec {
    pub label: String,
    pub tokens: Vec<String>,
}

/// A flag combination, by what it holds.
pub struct Entry {
    pub label: Seq<char>,
    pub tokens: Seq<Seq<char>>,
}

impl View for OptionSpec {
    type V = Entry;

    open spec fn view(&self) -> Entry {
        Entry { label: self.label@, tokens: views(self.tokens@) }
    }
}

/// The entries of a list of flag combinations, in order.
pub open spec fn entries(specs: Seq<OptionSpec>) -> Seq<Entry> {
    Seq::new(specs.len(), |i: int| specs[i]@)
}

/// Some entry of `list` has exactly the tokens `tokens`.
pub open spec fn has_tokens(list: Seq<Entry>, tokens: Seq<Seq<char>>) -> bool {
    exists|i: int| 0 <= i < list.len() && (#[trigger] list[i]).tokens == tokens
}

/// `kept` with `entry` added at the end, unless its tokens are there already.
pub open spec fn push_unique(kept: Seq<Entry>, entry: Entry) -> Seq<Entry> {
    if has_tokens(kept, entry.tokens) {
        kept
    } else {
        kept.push(entry)
    }
}

/// `kept` with the entries of `more` added one by one, each unless its
/// tokens are there already.
pub open spec fn merge(kept: Seq<Entry>, more: Seq<Entry>) -> Seq<Entry>
    decreases more.len(),
{
    if more.len() == 0 {
        kept
    } else {
        push_unique(merge(kept, more.drop_last()), more.last())
    }
}

/// The entries of `list` without repeated token sequences: of entries with
/// the same tokens the first stays.
pub open spec fn dedup(list: Seq<Entry>) -> Seq<Entry> {
    merge(Seq::empty(), list)
}

/// No two entries of `list` have the same tokens.
pub open spec fn distinct_tokens(list: Seq<Entry>) -> bool {
    forall|i: int, j: int|
        0 <= i < j < list.len() ==> (#[trigger] list[i]).tokens != (#[trigger] list[j]).tokens
}

/// Entry `i` of `list` is the first with its tokens.
pub open spec fn is_first(list: Seq<Entry>, i: int) -> bool {
    &&& 0 <= i < list.len()
    &&& forall|j: int| 0 <= j < i ==> (#[trigger] list[j]).tokens != list[i].tokens
}

/// Records `label` and `tokens` as a new combination unless the tokens are
/// already on record.
pub fn push_spec(specs: &mut Vec<OptionSpec>, label: String, tokens: Vec<String>)
    ensures
        entries(final(specs)@) == push_unique(
            entries(old(specs)@),
            Entry { label: label@, tokens: views(tokens@) },
        ),
{
    let ghost before = entries(specs@);
    let mut i: usize = 0;
    while i < specs.len()
        invariant
            i <= specs.len(),
            before == entries(specs@),
            specs@ == old(specs)@,
            forall|k: int| 0 <= k < i ==> (#[trigger] before[k]).tokens != views(tokens@),
        decreases specs.len() - i,
    {
        if same_strings(specs[i].tokens.as_slice(), tokens.as_slice()) {
            assert(before[i as int].tokens == views(tokens@));
            return ;
        }
        i += 1;
    }
    specs.push(OptionSpec { label, tokens });
    assert(entries(specs@) =~= before.push(Entry { label: label@, tokens: views(tokens@) }));
}

/// Adding a single entry.
pub proof fn lemma_merge_one(kept: Seq<Entry>, entry: Entry)
    ensures
        merge(kept, seq![entry]) == push_unique(kept, entry),
{
    assert(seq![entry].drop_last() =~= Seq::<Entry>::empty());
    assert(merge(kept, seq![entry].drop_last()) == kept);
}

/// Adding `a` and then `b` is adding `a + b`.
pub proof fn lemma_merge_concat(kept: Seq<Entry>, a: Seq<Entry>, b: Seq<Entry>)
    ensures
        merge(kept, a + b) == merge(merge(kept, a), b),
    decreases b.len(),
{
    if b.len() == 0 {
        assert(a + b =~= a);
    } else {
        assert((a + b).drop_last() =~= a + b.drop_last());
        assert((a + b).last() == b.last());
        lemma_merge_concat(kept, a, b.drop_last());
    }
}

/// What merging keeps on record: the tokens that were there and the tokens
/// that were added, and nothing else.
pub proof fn lemma_merge_tokens(kept: Seq<Entry>, more: Seq<Entry>, tokens: Seq<Seq<char>>)
    ensures
        has_tokens(merge(kept, more), tokens) <==> has_tokens(kept, tokens) || has_tokens(
            more,
            tokens,
        ),
    decreases more.len(),
{
    if more.len() > 0 {
        let init = more.drop_last();
        let last = more.last();
        let merged = merge(kept, init);
        lemma_merge_tokens(kept, init, tokens);
        lemma_merge_tokens(kept, init, last.tokens);
        if has_tokens(more, tokens) {
            let i = choose|i: int| 0 <= i < more.len() && (#[trigger] more[i]).tokens == tokens;
            if i < init.len() {
                assert(init[i].tokens == tokens);
            }
        }
        if has_tokens(init, tokens) {
            let i = choose|i: int| 0 <= i < init.len() && (#[trigger] init[i]).tokens == tokens;
            assert(more[i].tokens == tokens);
        }
        if last.tokens == tokens {
            assert(more[more.len() - 1].tokens == tokens);
        }
        if !has_tokens(merged, last.tokens) {
            let grown = merged.push(last);
            if has_tokens(merged, tokens) {
                let i = choose|i: int|
                    0 <= i < merged.len() && (#[trigger] merged[i]).tokens == tokens;
                assert(grown[i].tokens == tokens);
            }
            if has_tokens(grown, tokens) {
                let i = choose|i: int|
                    0 <= i < grown.len() && (#[trigger] grown[i]).tokens == tokens;
                if i < merged.len() {
                    assert(merged[i].tokens == tokens);
                }
            }
            if last.tokens == tokens {
                assert(grown[grown.len() - 1].tokens == tokens);
            }
        }
    }
}

/// Merging into a record without repeated tokens leaves it without
/// repeated tokens.
pub proof fn lemma_merge_distinct(kept: Seq<Entry>, more: Seq<Entry>)
    requires
        distinct_tokens(kept),
    ensures
        distinct_tokens(merge(kept, more)),
    decreases more.len(),
{
    if more.len() > 0 {
        lemma_merge_distinct(kept, more.drop_last());
        let merged = merge(kept, more.drop_last());
        if !has_tokens(merged, more.last().tokens) {
            let grown = merged.push(more.last());
            assert forall|i: int, j: int| 0 <= i < j < grown.len() implies (
                #[trigger] grown[i]
            ).tokens != (#[trigger] grown[j]).tokens by {
                if j == merged.len() {
                    assert(merged[i].tokens != more.last().tokens);
                } else {
                    assert(merged[i].tokens != merged[j].tokens);
                }
            }
        }
    }
}

/// Merging keeps what was on record where it was, and adds behind it.
pub proof fn lemma_merge_extends(kept: Seq<Entry>, more: Seq<Entry>)
    ensures
        kept.len() <= merge(kept, more).len(),
        merge(kept, more).take(kept.len() as int) == kept,
    decreases more.len(),
{
    if more.len() > 0 {
        lemma_merge_extends(kept, more.drop_last());
        let merged = merge(kept, more.drop_last());
        assert(merge(kept, more).take(kept.len() as int) =~= merged.take(kept.len() as int));
    } else {
        assert(kept.take(kept.len() as int) =~= kept);
    }
}

/// The record is no longer than the list of candidates.
pub proof fn lemma_dedup_len(list: Seq<Entry>)
    ensures
        dedup(list).len() <= list.len(),
    decreases list.len(),
{
    if list.len() > 0 {
        lemma_dedup_len(list.drop_last());
    }
}

/// The record holds no token sequence twice.
pub proof fn lemma_dedup_distinct(list: Seq<Entry>)
    ensures
        distinct_tokens(dedup(list)),
{
    lemma_merge_distinct(Seq::empty(), list);
}

/// Every candidate's token sequence is on record.
pub proof fn lemma_dedup_covers(list: Seq<Entry>, i: int)
    requires
        0 <= i < list.len(),
    ensures
        has_tokens(dedup(list), list[i].tokens),
{
    lemma_merge_tokens(Seq::empty(), list, list[i].tokens);
}

/// First registration wins: every entry on record is the first candidate
/// with its tokens, label included. The index of that candidate is
/// returned; it is never smaller than the entry's own position.
pub proof fn lemma_dedup_first_wins(list: Seq<Entry>, k: int) -> (i: int)
    requires
        0 <= k < dedup(list).len(),
    ensures
        is_first(list, i),
        list[i] == dedup(list)[k],
        k <= i,
    decreases list.len(),
{
    let init = list.drop_last();
    let merged = dedup(init);
    if k < merged.len() {
        let i = lemma_dedup_first_wins(init, k);
        assert forall|j: int| 0 <= j < i implies (#[trigger] list[j]).tokens != list[i].tokens by {
            assert(init[j].tokens != init[i].tokens);
        }
        i
    } else {
        let i = list.len() - 1;
        lemma_merge_extends(Seq::empty(), init);
        assert forall|j: int| 0 <= j < i implies (#[trigger] list[j]).tokens != list[i].tokens by {
            lemma_dedup_covers(init, j);
        }
        assert(merged.len() <= init.len()) by {
            lemma_dedup_len(init);
        }
        i
    }
}


/// The entries on record stand in the order in which their token
/// sequences were first put forward.
pub proof fn lemma_dedup_keeps_order(list: Seq<Entry>, k1: int, k2: int, i1: int, i2: int)
    requires
        0 <= k1 < k2 < dedup(list).len(),
        is_first(list, i1),
        list[i1].tokens == dedup(list)[k1].tokens,
        is_first(list, i2),
        list[i2].tokens == dedup(list)[k2].tokens,
    ensures
        i1 < i2,
    decreases list.len(),
{
    let init = list.drop_last();
    let merged = dedup(init);
    let end = list.len() - 1;
    lemma_merge_extends(Seq::empty(), init);
    lemma_dedup_len(init);
    let j1 = lemma_dedup_first_wins(init, k1);
    assert(list[j1].tokens == list[i1].tokens);
    assert(i1 <= j1);
    if k2 < merged.len() {
        let j2 = lemma_dedup_first_wins(init, k2);
        assert(list[j2].tokens == list[i2].tokens);
        assert(i2 <= j2);
        assert(is_first(init, i1)) by {
            assert forall|j: int| 0 <= j < i1 implies (#[trigger] init[j]).tokens
                != init[i1].tokens by {
                assert(list[j].tokens != list[i1].tokens);
            }
        }
        assert(is_first(init, i2)) by {
            assert forall|j: int| 0 <= j < i2 implies (#[trigger] init[j]).tokens
                != init[i2].tokens by {
                assert(list[j].tokens != list[i2].tokens);
            }
        }
        lemma_dedup_keeps_order(init, k1, k2, i1, i2);
    } else {
        assert(dedup(list)[k2] == list[end]);
        if i2 < end {
            lemma_dedup_covers(init, i2);
        }
    }
}

} // verus!
