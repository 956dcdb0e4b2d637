//! The names of the generated cases: no two of them are alike.
//!
//! A name is made of what the case does, the label of its flag
//! combination, and through the label the flags themselves. Flags hold no
//! blank, so a name can be taken apart again, and two cases with the same
//! name would have to be the same case.

use crate::cases::{MatrixCase, Shape};
use crate::coverage::lemma_selected_origin;
use crate::generated::{binary_cases, binary_option_sets, cases_of, expanded, matrix_cases};
use crate::matrix::{
    bundled, candidates, dashed, extra_short, labelled, long_alphabet, long_block, long_entry,
    option_matrix, order_sensitive, selected, separated, short_alphabet, short_block,
    short_entries, LONG_MASKS, SHORT_MASKS,
};
use crate::record::{
    dedup, distinct_tokens, lemma_dedup_distinct, lemma_dedup_first_wins, Entry,
};
use crate::text::{joined, starts_with};
use vstd::prelude::*;

verus! {

/// The separator between the tokens of a label.
pub open spec fn blank() -> Seq<char> {
    seq![' ']
}

/// A token that can be told apart from its neighbours in a label: it is
/// not empty and holds no blank.
pub open spec fn is_word(token: Seq<char>) -> bool {
    token.len() > 0 && forall|i: int| 0 <= i < token.len() ==> token[i] != ' '
}

/// Every token of the list is a word.
pub open spec fn all_words(tokens: Seq<Seq<char>>) -> bool {
    forall|i: int| 0 <= i < tokens.len() ==> is_word(#[trigger] tokens[i])
}

/// Joining two or more parts is joining all but the last, then the
/// separator, then the last.
pub proof fn lemma_joined_step(parts: Seq<Seq<char>>, sep: Seq<char>)
    requires
        parts.len() >= 2,
    ensures
        joined(parts, sep) == joined(parts.drop_last(), sep) + sep + parts.last(),
{
    let init = parts.drop_last();
    assert(joined(parts, sep) =~= joined(init, sep) + sep + parts.last());
}

/// What words give when joined: nothing for no word, the word itself for
/// one, and otherwise a text that ends with a blank and the last word,
/// while one word alone holds no blank.
pub proof fn lemma_joined_shape(words: Seq<Seq<char>>)
    requires
        all_words(words),
    ensures
        words.len() == 0 <==> joined(words, blank()).len() == 0,
        words.len() == 1 ==> joined(words, blank()) == words[0],
        words.len() >= 2 ==> {
            let text = joined(words, blank());
            let last = words.last();
            &&& text.len() == joined(words.drop_last(), blank()).len() + 1 + last.len()
            &&& text[text.len() - last.len() - 1] == ' '
            &&& text.subrange(text.len() - last.len(), text.len() as int) == last
            &&& text.subrange(0, text.len() - last.len() - 1) == joined(
                words.drop_last(),
                blank(),
            )
        },
{
    if words.len() == 1 {
        assert(words.drop_last() =~= Seq::<Seq<char>>::empty());
        assert(joined(words, blank()) =~= words[0]);
        assert(is_word(words[0]));
    } else if words.len() >= 2 {
        lemma_joined_step(words, blank());
        let text = joined(words, blank());
        let last = words.last();
        let init = joined(words.drop_last(), blank());
        assert(is_word(last));
        assert(text =~= init + blank() + last);
        assert(text.subrange(text.len() - last.len(), text.len() as int) =~= last);
        assert(text.subrange(0, text.len() - last.len() - 1) =~= init);
    }
}

/// Words can be read back from their joined text: lists of words that
/// join to the same text are the same list.
pub proof fn lemma_joined_injective(a: Seq<Seq<char>>, b: Seq<Seq<char>>)
    requires
        all_words(a),
        all_words(b),
        joined(a, blank()) == joined(b, blank()),
    ensures
        a == b,
    decreases a.len(),
{
    let text = joined(a, blank());
    lemma_joined_shape(a);
    lemma_joined_shape(b);
    if a.len() == 0 {
        assert(a =~= b);
    } else if a.len() == 1 {
        assert(is_word(a[0]));
        if b.len() >= 2 {
            let at = text.len() - b.last().len() - 1;
            assert(a[0][at] == ' ');
        }
        assert(a =~= b);
    } else {
        if b.len() == 1 {
            assert(is_word(b[0]));
            let at = text.len() - a.last().len() - 1;
            assert(b[0][at] == ' ');
        }
        let la = a.last();
        let lb = b.last();
        assert(is_word(la));
        assert(is_word(lb));
        if la.len() < lb.len() {
            let at = text.len() - la.len() - 1;
            let inside = at - (text.len() - lb.len());
            assert(text.subrange(text.len() - lb.len(), text.len() as int)[inside] == text[at]);
            assert(lb[inside] == ' ');
        }
        if lb.len() < la.len() {
            let at = text.len() - lb.len() - 1;
            let inside = at - (text.len() - la.len());
            assert(text.subrange(text.len() - la.len(), text.len() as int)[inside] == text[at]);
            assert(la[inside] == ' ');
        }
        assert(la == lb);
        assert forall|i: int| 0 <= i < a.drop_last().len() implies is_word(
            #[trigger] a.drop_last()[i],
        ) by {
            assert(a.drop_last()[i] == a[i]);
        }
        assert forall|i: int| 0 <= i < b.drop_last().len() implies is_word(
            #[trigger] b.drop_last()[i],
        ) by {
            assert(b.drop_last()[i] == b[i]);
        }
        lemma_joined_injective(a.drop_last(), b.drop_last());
        assert(a =~= a.drop_last().push(la));
        assert(b =~= b.drop_last().push(lb));
    }
}


/// The flags that stand in the fixed lists are words.
pub proof fn lemma_flags_are_words()
    ensures
        is_word("-e"@),
        is_word("-t"@),
        is_word("-s"@),
        is_word("-n"@),
        is_word("-b"@),
        is_word("-u"@),
        is_word("-E"@),
        is_word("-T"@),
        is_word("-v"@),
        is_word("-A"@),
        is_word("--number"@),
        is_word("--number-nonblank"@),
        is_word("--squeeze-blank"@),
        is_word("--show-ends"@),
        is_word("--show-tabs"@),
        is_word("--show-nonprinting"@),
        is_word("--show-all"@),
{
    reveal_strlit("-e");
    reveal_strlit("-t");
    reveal_strlit("-s");
    reveal_strlit("-n");
    reveal_strlit("-b");
    reveal_strlit("-u");
    reveal_strlit("-E");
    reveal_strlit("-T");
    reveal_strlit("-v");
    reveal_strlit("-A");
    reveal_strlit("--number");
    reveal_strlit("--number-nonblank");
    reveal_strlit("--squeeze-blank");
    reveal_strlit("--show-ends");
    reveal_strlit("--show-tabs");
    reveal_strlit("--show-nonprinting");
    reveal_strlit("--show-all");
}


/// The label is `prefix` followed by the tokens, which are words, joined
/// by blanks.
pub open spec fn labelled_by(entry: Entry, prefix: Seq<char>) -> bool {
    entry.label == prefix + joined(entry.tokens, blank()) && all_words(entry.tokens)
}

/// The label is made in one of the six ways in which candidates are
/// labelled.
pub open spec fn well_labelled(entry: Entry) -> bool {
    ||| labelled_by(entry, "no options"@)
    ||| labelled_by(entry, "short bundled "@)
    ||| labelled_by(entry, "short separate "@)
    ||| labelled_by(entry, "short extra "@)
    ||| labelled_by(entry, "long "@)
    ||| labelled_by(entry, "order "@)
}

/// The six ways of labelling never give the same label for different
/// tokens: the prefix tells the way, and the rest reads back as the
/// tokens.
pub proof fn lemma_label_tells_tokens(a: Entry, b: Entry)
    requires
        well_labelled(a),
        well_labelled(b),
        a.label == b.label,
    ensures
        a.tokens == b.tokens,
{
    reveal_strlit("no options");
    reveal_strlit("short bundled ");
    reveal_strlit("short separate ");
    reveal_strlit("short extra ");
    reveal_strlit("long ");
    reveal_strlit("order ");
    let ja = joined(a.tokens, blank());
    let jb = joined(b.tokens, blank());
    let pa = if labelled_by(a, "no options"@) {
        "no options"@
    } else if labelled_by(a, "short bundled "@) {
        "short bundled "@
    } else if labelled_by(a, "short separate "@) {
        "short separate "@
    } else if labelled_by(a, "short extra "@) {
        "short extra "@
    } else if labelled_by(a, "long "@) {
        "long "@
    } else {
        "order "@
    };
    let pb = if labelled_by(b, "no options"@) {
        "no options"@
    } else if labelled_by(b, "short bundled "@) {
        "short bundled "@
    } else if labelled_by(b, "short separate "@) {
        "short separate "@
    } else if labelled_by(b, "short extra "@) {
        "short extra "@
    } else if labelled_by(b, "long "@) {
        "long "@
    } else {
        "order "@
    };
    assert(a.label == pa + ja);
    assert(b.label == pb + jb);
    assert(a.label[0] == pa[0]);
    assert(b.label[0] == pb[0]);
    if pa[0] == 's' {
        assert(a.label[6] == pa[6]);
        assert(b.label[6] == pb[6]);
    }
    assert(pa == pb);
    assert(ja =~= a.label.subrange(pa.len() as int, a.label.len() as int));
    assert(jb =~= b.label.subrange(pb.len() as int, b.label.len() as int));
    lemma_joined_injective(a.tokens, b.tokens);
}

/// The letters of the short alphabet are no blanks, so what is made of
/// them are words.
proof fn lemma_short_forms_are_words(mask: nat)
    ensures
        is_word(bundled(mask)),
        all_words(separated(mask)),
{
    let letters = selected(short_alphabet(), mask);
    assert forall|i: int| 0 <= i < bundled(mask).len() implies bundled(mask)[i] != ' ' by {
        if i > 0 {
            let at = lemma_selected_origin(short_alphabet(), mask, i - 1);
            assert(bundled(mask)[i] == letters[i - 1]);
        }
    }
    assert forall|i: int| 0 <= i < separated(mask).len() implies is_word(
        #[trigger] separated(mask)[i],
    ) by {
        lemma_selected_origin(short_alphabet(), mask, i);
        assert(separated(mask)[i] == dashed(letters[i]));
    }
}

/// What a subset of the short flags puts forward is well labelled.
proof fn lemma_short_entries_labelled(mask: nat, i: int)
    requires
        0 <= i < short_entries(mask).len(),
    ensures
        well_labelled(short_entries(mask)[i]),
{
    reveal_strlit(" ");
    assert(" "@ =~= blank());
    lemma_short_forms_are_words(mask);
    let entry = short_entries(mask)[i];
    if i == 0 {
        let only = seq![bundled(mask)];
        lemma_joined_shape(only);
        assert(labelled_by(entry, "short bundled "@));
    } else {
        assert(labelled_by(entry, "short separate "@));
    }
}

/// Every candidate among the subsets of the short flags is well labelled.
proof fn lemma_short_block_labelled(upto: nat, i: int)
    requires
        0 <= i < short_block(upto).len(),
    ensures
        well_labelled(short_block(upto)[i]),
    decreases upto,
{
    let init = short_block((upto - 1) as nat);
    if i < init.len() {
        lemma_short_block_labelled((upto - 1) as nat, i);
    } else {
        lemma_short_entries_labelled((upto - 1) as nat, i - init.len());
    }
}

/// Every candidate among the subsets of the long flags is well labelled.
proof fn lemma_long_block_labelled(upto: nat, i: int)
    requires
        0 <= i < long_block(upto).len(),
    ensures
        well_labelled(long_block(upto)[i]),
    decreases upto,
{
    let init = long_block((upto - 1) as nat);
    if i < init.len() {
        lemma_long_block_labelled((upto - 1) as nat, i);
    } else {
        reveal_strlit(" ");
        assert(" "@ =~= blank());
        lemma_flags_are_words();
        let mask = (upto - 1) as nat;
        let tokens = selected(long_alphabet(), mask);
        assert forall|k: int| 0 <= k < tokens.len() implies is_word(#[trigger] tokens[k]) by {
            lemma_selected_origin(long_alphabet(), mask, k);
        }
        assert(labelled_by(long_entry(mask), "long "@));
    }
}

/// The fixed lists hold words only.
proof fn lemma_fixed_lists_hold_words()
    ensures
        forall|i: int| 0 <= i < extra_short().len() ==> all_words(#[trigger] extra_short()[i]),
        forall|i: int|
            0 <= i < order_sensitive().len() ==> all_words(#[trigger] order_sensitive()[i]),
        forall|i: int|
            0 <= i < binary_option_sets().len() ==> all_words(#[trigger] binary_option_sets()[i]),
{
    lemma_flags_are_words();
}

/// Every candidate is well labelled.
pub proof fn lemma_candidates_labelled(i: int)
    requires
        0 <= i < candidates().len(),
    ensures
        well_labelled(candidates()[i]),
{
    reveal_strlit(" ");
    assert(" "@ =~= blank());
    let a = seq![Entry { label: "no options"@, tokens: Seq::empty() }];
    let b = short_block(SHORT_MASKS as nat);
    let c = labelled("short extra "@, extra_short());
    let d = long_block(LONG_MASKS as nat);
    let e = labelled("order "@, order_sensitive());
    lemma_fixed_lists_hold_words();
    if i < a.len() {
        assert(candidates()[i] == a[i]);
        assert(joined(Seq::<Seq<char>>::empty(), blank()) =~= Seq::<char>::empty());
        assert("no options"@ + Seq::<char>::empty() =~= "no options"@);
        assert(labelled_by(a[0], "no options"@));
    } else if i < (a + b).len() {
        assert(candidates()[i] == b[i - a.len()]);
        lemma_short_block_labelled(SHORT_MASKS as nat, i - a.len());
    } else if i < (a + b + c).len() {
        let k = i - (a + b).len();
        assert(candidates()[i] == c[k]);
        assert(all_words(extra_short()[k]));
        assert(labelled_by(c[k], "short extra "@));
    } else if i < (a + b + c + d).len() {
        assert(candidates()[i] == d[i - (a + b + c).len()]);
        lemma_long_block_labelled(LONG_MASKS as nat, i - (a + b + c).len());
    } else {
        let k = i - (a + b + c + d).len();
        assert(candidates()[i] == e[k]);
        assert(all_words(order_sensitive()[k]));
        assert(labelled_by(e[k], "order "@));
    }
}

/// No two entries of the flag matrix have the same label.
pub proof fn lemma_matrix_labels_distinct(i: int, j: int)
    requires
        0 <= i < j < option_matrix().len(),
    ensures
        option_matrix()[i].label != option_matrix()[j].label,
        well_labelled(option_matrix()[i]),
        well_labelled(option_matrix()[j]),
{
    let first = lemma_dedup_first_wins(candidates(), i);
    let second = lemma_dedup_first_wins(candidates(), j);
    lemma_candidates_labelled(first);
    lemma_candidates_labelled(second);
    lemma_dedup_distinct(candidates());
    if option_matrix()[i].label == option_matrix()[j].label {
        lemma_label_tells_tokens(option_matrix()[i], option_matrix()[j]);
    }
}


/// The cases of entry `j` stand at the positions from `4 * j` on, in the
/// order of their shapes.
pub proof fn lemma_expanded_index(list: Seq<Entry>, j: int, s: int)
    requires
        0 <= j < list.len(),
        0 <= s < 4,
    ensures
        expanded(list).len() == 4 * list.len(),
        expanded(list)[4 * j + s] == cases_of(list[j])[s],
    decreases list.len(),
{
    crate::generated::lemma_expanded_len(list);
    crate::generated::lemma_expanded_len(list.drop_last());
    if j < list.len() - 1 {
        lemma_expanded_index(list.drop_last(), j, s);
        assert(list.drop_last()[j] == list[j]);
    }
}

/// The name of a generated case tells its shape: names of different
/// shapes differ in their eighth or in their thirteenth character.
proof fn lemma_shape_marks(label: Seq<char>, s: int)
    requires
        0 <= s < 4,
    ensures
        cases_of(Entry { label, tokens: Seq::empty() })[s].name.len() >= 12,
        s >= 2 ==> cases_of(Entry { label, tokens: Seq::empty() })[s].name.len() >= 13,
        cases_of(Entry { label, tokens: Seq::empty() })[s].name[7] == if s == 0 {
            'f'
        } else if s == 1 {
            'm'
        } else {
            's'
        },
        s >= 2 ==> cases_of(Entry { label, tokens: Seq::empty() })[s].name[12] == if s == 2 {
            ' '
        } else {
            '+'
        },
        starts_with(cases_of(Entry { label, tokens: Seq::empty() })[s].name, "matrix "@),
{
    reveal_strlit("matrix ");
    reveal_strlit("matrix file ");
    reveal_strlit("matrix multi ");
    reveal_strlit("matrix stdin ");
    reveal_strlit("matrix stdin+file ");
    let name = cases_of(Entry { label, tokens: Seq::empty() })[s].name;
    assert(name.subrange(0, 7) =~= "matrix "@);
}

/// The name of one of the cases of an entry, by its shape.
pub open spec fn shaped_name(label: Seq<char>, s: int) -> Seq<char> {
    if s == 0 {
        "matrix file "@ + label
    } else if s == 1 {
        "matrix multi "@ + label
    } else if s == 2 {
        "matrix stdin "@ + label
    } else {
        "matrix stdin+file "@ + label
    }
}

/// Two cases of the same shape have the same name only if their labels
/// are the same.
proof fn lemma_same_shape_names(first: Seq<char>, second: Seq<char>, s: int)
    requires
        0 <= s < 4,
        shaped_name(first, s) == shaped_name(second, s),
    ensures
        first == second,
{
    let prefix = if s == 0 {
        "matrix file "@
    } else if s == 1 {
        "matrix multi "@
    } else if s == 2 {
        "matrix stdin "@
    } else {
        "matrix stdin+file "@
    };
    let a = prefix + first;
    let b = prefix + second;
    assert(first =~= a.subrange(prefix.len() as int, a.len() as int));
    assert(second =~= b.subrange(prefix.len() as int, b.len() as int));
}

/// The flag lists that are run against the binary fixture are nine
/// different lists.
proof fn lemma_binary_sets_distinct(i: int, j: int)
    requires
        0 <= i < j < binary_option_sets().len(),
    ensures
        binary_option_sets()[i] != binary_option_sets()[j],
{
    reveal_strlit("-v");
    reveal_strlit("-A");
    reveal_strlit("-t");
    reveal_strlit("-e");
    reveal_strlit("--show-nonprinting");
    reveal_strlit("--show-all");
    reveal_strlit("--show-ends");
    reveal_strlit("--show-tabs");
    let sets = binary_option_sets();
    if i == 0 {
        assert(sets[i].len() != sets[j].len());
    } else {
        assert(sets[i][0] != sets[j][0]) by {
            if sets[i][0].len() == sets[j][0].len() {
                if sets[i][0].len() == 2 {
                    assert(sets[i][0][1] != sets[j][0][1]);
                } else {
                    assert(sets[i][0][7] != sets[j][0][7]);
                }
            }
        }
    }
}

/// The names of the generated cases, in order.
pub open spec fn generated_names() -> Seq<Seq<char>> {
    Seq::new(matrix_cases().len(), |k: int| matrix_cases()[k].name)
}

/// Every generated case has a name that begins with `matrix `, so that a
/// case named otherwise never shares its name with a generated one.
pub proof fn lemma_generated_names_marked(k: int)
    requires
        0 <= k < generated_names().len(),
    ensures
        starts_with(generated_names()[k], "matrix "@),
{
    let list = option_matrix();
    let front = expanded(list);
    crate::generated::lemma_expanded_len(list);
    if k < front.len() {
        let j = k / 4;
        let s = k % 4;
        lemma_expanded_index(list, j, s);
        lemma_shape_marks(list[j].label, s);
        assert(cases_of(list[j])[s].name == cases_of(
            Entry { label: list[j].label, tokens: Seq::empty() },
        )[s].name);
    } else {
        reveal_strlit("matrix ");
        reveal_strlit("matrix binary ");
        let name = generated_names()[k];
        assert(name.subrange(0, 7) =~= "matrix "@);
    }
}

/// No two generated cases have the same name.
pub proof fn lemma_generated_names_distinct(a: int, b: int)
    requires
        0 <= a < b < generated_names().len(),
    ensures
        generated_names()[a] != generated_names()[b],
{
    reveal_strlit(" ");
    assert(" "@ =~= blank());
    reveal_strlit("matrix binary ");
    let list = option_matrix();
    let front = expanded(list);
    let sets = binary_option_sets();
    let back = binary_cases(sets);
    crate::generated::lemma_expanded_len(list);
    let na = generated_names()[a];
    let nb = generated_names()[b];
    if b < front.len() {
        let (ja, sa) = (a / 4, a % 4);
        let (jb, sb) = (b / 4, b % 4);
        lemma_expanded_index(list, ja, sa);
        lemma_expanded_index(list, jb, sb);
        lemma_shape_marks(list[ja].label, sa);
        lemma_shape_marks(list[jb].label, sb);
        assert(na == shaped_name(list[ja].label, sa));
        assert(nb == shaped_name(list[jb].label, sb));
        assert(cases_of(list[ja])[sa].name == cases_of(
            Entry { label: list[ja].label, tokens: Seq::empty() },
        )[sa].name);
        assert(cases_of(list[jb])[sb].name == cases_of(
            Entry { label: list[jb].label, tokens: Seq::empty() },
        )[sb].name);
        if sa == sb {
            assert(ja < jb);
            lemma_matrix_labels_distinct(ja, jb);
            if na == nb {
                lemma_same_shape_names(list[ja].label, list[jb].label, sa);
            }
        } else if sa >= 2 && sb >= 2 {
            assert(na[12] != nb[12]);
        } else {
            assert(na[7] != nb[7]);
        }
    } else if a < front.len() {
        let (ja, sa) = (a / 4, a % 4);
        lemma_expanded_index(list, ja, sa);
        lemma_shape_marks(list[ja].label, sa);
        assert(cases_of(list[ja])[sa].name == cases_of(
            Entry { label: list[ja].label, tokens: Seq::empty() },
        )[sa].name);
        assert(nb == back[b - front.len()].name);
        assert(nb[7] == 'b');
        assert(na[7] != 'b');
    } else {
        let ia = a - front.len();
        let ib = b - front.len();
        assert(na == "matrix binary "@ + joined(sets[ia], blank()));
        assert(nb == "matrix binary "@ + joined(sets[ib], blank()));
        lemma_binary_sets_distinct(ia, ib);
        lemma_fixed_lists_hold_words();
        if na == nb {
            let prefix = "matrix binary "@;
            assert(joined(sets[ia], blank()) =~= na.subrange(prefix.len() as int, na.len() as int));
            assert(joined(sets[ib], blank()) =~= nb.subrange(prefix.len() as int, nb.len() as int));
            lemma_joined_injective(sets[ia], sets[ib]);
        }
    }
}

} // verus!
