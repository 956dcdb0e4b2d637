//! What the flag matrix is guaranteed to hold.
//!
//! The statements here are about the matrix as a mathematical object,
//! [`option_matrix`], which is what [`crate::matrix::option_specs`] returns.

use crate::matrix::{
    bit, bundled, candidates, dashed, extra_short, labelled, long_alphabet, long_block,
    long_entry, option_matrix, order_sensitive, selected, separated, short_alphabet,
    short_block, short_entries, LONG_MASKS, SHORT_MASKS,
};
use crate::record::{has_tokens, lemma_dedup_covers, lemma_dedup_first_wins, Entry};
use crate::options::{fixture_key_for, has_long, has_short, is_short_token, short_token_has};
use vstd::arithmetic::div_mod::{
    lemma_basic_div, lemma_hoist_over_denominator, lemma_mod_multiples_vanish,
};
use vstd::arithmetic::power2::{
    lemma2_to64, lemma_pow2_adds, lemma_pow2_pos, lemma_pow2_unfold, pow2,
};
use vstd::prelude::*;

verus! {

/// Every selected member comes from the alphabet, from a position whose bit
/// is set.
pub proof fn lemma_selected_origin<T>(alphabet: Seq<T>, mask: nat, k: int) -> (i: int)
    requires
        0 <= k < selected(alphabet, mask).len(),
    ensures
        0 <= i < alphabet.len(),
        bit(mask, i as nat),
        alphabet[i] == selected(alphabet, mask)[k],
    decreases alphabet.len(),
{
    let init = selected(alphabet.drop_last(), mask);
    if k < init.len() {
        lemma_selected_origin(alphabet.drop_last(), mask, k)
    } else {
        alphabet.len() - 1
    }
}

/// Every member whose bit is set is selected.
pub proof fn lemma_selected_holds<T>(alphabet: Seq<T>, mask: nat, i: int) -> (k: int)
    requires
        0 <= i < alphabet.len(),
        bit(mask, i as nat),
    ensures
        0 <= k < selected(alphabet, mask).len(),
        selected(alphabet, mask)[k] == alphabet[i],
    decreases alphabet.len(),
{
    let init = selected(alphabet.drop_last(), mask);
    if i < alphabet.len() - 1 {
        lemma_selected_holds(alphabet.drop_last(), mask, i)
    } else {
        init.len() as int
    }
}

/// A mask that is not zero selects something.
pub proof fn lemma_selected_nonempty<T>(alphabet: Seq<T>, mask: nat)
    requires
        1 <= mask < pow2(alphabet.len()),
    ensures
        selected(alphabet, mask).len() > 0,
    decreases alphabet.len(),
{
    let n = alphabet.len();
    lemma2_to64();
    if n > 0 {
        let top = (n - 1) as nat;
        lemma_pow2_unfold(n);
        lemma_pow2_pos(top);
        let p = pow2(top);
        if mask >= p {
            assert(mask / p == 1) by (nonlinear_arith)
                requires
                    p <= mask < 2 * p,
                    p > 0,
            ;
            assert(bit(mask, top));
        } else {
            lemma_selected_nonempty(alphabet.drop_last(), mask);
        }
    }
}

/// No short flag is a dash.
proof fn lemma_short_letters(mask: nat, k: int)
    requires
        0 <= k < selected(short_alphabet(), mask).len(),
    ensures
        selected(short_alphabet(), mask)[k] != '-',
{
    lemma_selected_origin(short_alphabet(), mask, k);
}

/// The bundled form is one short token that holds exactly the selected
/// letters.
pub proof fn lemma_bundled_letters(mask: nat, flag: char)
    ensures
        has_short(seq![bundled(mask)], flag) <==> selected(short_alphabet(), mask).contains(flag),
{
    let letters = selected(short_alphabet(), mask);
    let token = bundled(mask);
    let opts = seq![token];
    if letters.len() > 0 {
        lemma_short_letters(mask, 0);
        assert(token[1] == letters[0]);
    }
    assert(is_short_token(token));
    if letters.contains(flag) {
        let k = choose|k: int| 0 <= k < letters.len() && letters[k] == flag;
        assert(token[k + 1] == flag);
        assert(short_token_has(opts[0], flag));
    }
    if has_short(opts, flag) {
        let j = choose|j: int| 1 <= j < token.len() && token[j] == flag;
        assert(letters[j - 1] == flag);
    }
}

/// The separated form is a list of short tokens that together hold exactly
/// the selected letters.
pub proof fn lemma_separated_letters(mask: nat, flag: char)
    ensures
        has_short(separated(mask), flag) <==> selected(short_alphabet(), mask).contains(flag),
{
    let letters = selected(short_alphabet(), mask);
    let opts = separated(mask);
    if letters.contains(flag) {
        let k = choose|k: int| 0 <= k < letters.len() && letters[k] == flag;
        lemma_short_letters(mask, k);
        assert(opts[k] == dashed(flag));
        assert(opts[k][1] == flag);
        assert(short_token_has(opts[k], flag));
    }
    if has_short(opts, flag) {
        let i = choose|i: int| 0 <= i < opts.len() && short_token_has(#[trigger] opts[i], flag);
        assert(opts[i] == dashed(letters[i]));
        assert(letters[i] == flag);
    }
}

/// Bundling preserves the flags and their order: the separated form has
/// one token for each letter of the bundle behind its dash, and token `i`
/// is a dash followed by letter `i`.
pub proof fn lemma_bundling_keeps_order(mask: nat)
    ensures
        bundled(mask).len() == separated(mask).len() + 1,
        bundled(mask)[0] == '-',
        forall|i: int|
            0 <= i < separated(mask).len() ==> #[trigger] separated(mask)[i] == dashed(
                bundled(mask)[i + 1],
            ),
{
}

/// A token whose second character is not a dash, or that has no second
/// character, is none of the long flags that decide the content.
proof fn lemma_not_a_deciding_long_flag(token: Seq<char>)
    requires
        token.len() < 2 || token[1] != '-',
    ensures
        token != "--show-all"@,
        token != "--show-tabs"@,
        token != "--show-nonprinting"@,
        token != "--squeeze-blank"@,
        token != "--number-nonblank"@,
        token != "--number"@,
        token != "--show-ends"@,
{
    reveal_strlit("--show-all");
    reveal_strlit("--show-tabs");
    reveal_strlit("--show-nonprinting");
    reveal_strlit("--squeeze-blank");
    reveal_strlit("--number-nonblank");
    reveal_strlit("--number");
    reveal_strlit("--show-ends");
}

/// A list of short tokens holds none of the long flags that decide the
/// content.
proof fn lemma_short_tokens_hold_no_long_flag(opts: Seq<Seq<char>>)
    requires
        forall|i: int| 0 <= i < opts.len() ==> (#[trigger] opts[i]).len() < 2 || opts[i][1] != '-',
    ensures
        !has_long(opts, "--show-all"@),
        !has_long(opts, "--show-tabs"@),
        !has_long(opts, "--show-nonprinting"@),
        !has_long(opts, "--squeeze-blank"@),
        !has_long(opts, "--number-nonblank"@),
        !has_long(opts, "--number"@),
        !has_long(opts, "--show-ends"@),
{
    assert forall|i: int| 0 <= i < opts.len() implies {
        &&& #[trigger] opts[i] != "--show-all"@
        &&& opts[i] != "--show-tabs"@
        &&& opts[i] != "--show-nonprinting"@
        &&& opts[i] != "--squeeze-blank"@
        &&& opts[i] != "--number-nonblank"@
        &&& opts[i] != "--number"@
        &&& opts[i] != "--show-ends"@
    } by {
        lemma_not_a_deciding_long_flag(opts[i]);
    }
}

/// The bundled and the separated form of a subset of the short flags are
/// run against the same content.
pub proof fn lemma_forms_share_fixture(mask: nat)
    ensures
        fixture_key_for(seq![bundled(mask)]) == fixture_key_for(separated(mask)),
{
    let one = seq![bundled(mask)];
    let many = separated(mask);
    let letters = selected(short_alphabet(), mask);
    if letters.len() > 0 {
        lemma_short_letters(mask, 0);
        assert(bundled(mask)[1] == letters[0]);
    }
    lemma_short_tokens_hold_no_long_flag(one);
    assert forall|i: int| 0 <= i < many.len() implies (#[trigger] many[i]).len() < 2 || many[i][1]
        != '-' by {
        lemma_short_letters(mask, i);
        assert(many[i] == dashed(letters[i]));
    }
    lemma_short_tokens_hold_no_long_flag(many);
    lemma_bundled_letters(mask, 'A');
    lemma_separated_letters(mask, 'A');
    lemma_bundled_letters(mask, 't');
    lemma_separated_letters(mask, 't');
    lemma_bundled_letters(mask, 'T');
    lemma_separated_letters(mask, 'T');
    lemma_bundled_letters(mask, 'e');
    lemma_separated_letters(mask, 'e');
    lemma_bundled_letters(mask, 'v');
    lemma_separated_letters(mask, 'v');
    lemma_bundled_letters(mask, 's');
    lemma_separated_letters(mask, 's');
    lemma_bundled_letters(mask, 'b');
    lemma_separated_letters(mask, 'b');
    lemma_bundled_letters(mask, 'n');
    lemma_separated_letters(mask, 'n');
    lemma_bundled_letters(mask, 'E');
    lemma_separated_letters(mask, 'E');
}

/// What a subset of the short flags puts forward is among the candidates
/// of every block that reaches its mask.
proof fn lemma_short_block_holds(upto: nat, mask: nat, tokens: Seq<Seq<char>>)
    requires
        1 <= mask < upto,
        has_tokens(short_entries(mask), tokens),
    ensures
        has_tokens(short_block(upto), tokens),
    decreases upto,
{
    let init = short_block((upto - 1) as nat);
    let last = short_entries((upto - 1) as nat);
    if mask == upto - 1 {
        let i = choose|i: int| 0 <= i < last.len() && (#[trigger] last[i]).tokens == tokens;
        assert(short_block(upto)[init.len() + i].tokens == tokens);
    } else {
        lemma_short_block_holds((upto - 1) as nat, mask, tokens);
        let i = choose|i: int| 0 <= i < init.len() && (#[trigger] init[i]).tokens == tokens;
        assert(short_block(upto)[i].tokens == tokens);
    }
}

/// What a subset of the long flags puts forward is among the candidates of
/// every block that reaches its mask.
proof fn lemma_long_block_holds(upto: nat, mask: nat)
    requires
        1 <= mask < upto,
    ensures
        has_tokens(long_block(upto), long_entry(mask).tokens),
    decreases upto,
{
    let init = long_block((upto - 1) as nat);
    if mask == upto - 1 {
        assert(long_block(upto)[init.len() as int].tokens == long_entry(mask).tokens);
    } else {
        lemma_long_block_holds((upto - 1) as nat, mask);
        let tokens = long_entry(mask).tokens;
        let i = choose|i: int| 0 <= i < init.len() && (#[trigger] init[i]).tokens == tokens;
        assert(long_block(upto)[i].tokens == tokens);
    }
}

/// Tokens that some part of a concatenation holds are held by the whole.
proof fn lemma_has_tokens_concat(a: Seq<Entry>, b: Seq<Entry>, tokens: Seq<Seq<char>>)
    ensures
        has_tokens(a + b, tokens) <==> has_tokens(a, tokens) || has_tokens(b, tokens),
{
    if has_tokens(a, tokens) {
        let i = choose|i: int| 0 <= i < a.len() && (#[trigger] a[i]).tokens == tokens;
        assert((a + b)[i].tokens == tokens);
    }
    if has_tokens(b, tokens) {
        let i = choose|i: int| 0 <= i < b.len() && (#[trigger] b[i]).tokens == tokens;
        assert((a + b)[a.len() + i].tokens == tokens);
    }
    if has_tokens(a + b, tokens) {
        let i = choose|i: int| 0 <= i < (a + b).len() && (#[trigger] (a + b)[i]).tokens == tokens;
        if i < a.len() {
            assert(a[i].tokens == tokens);
        } else {
            assert(b[i - a.len()].tokens == tokens);
        }
    }
}

/// The matrix holds the tokens of every candidate.
proof fn lemma_matrix_holds(tokens: Seq<Seq<char>>)
    requires
        has_tokens(candidates(), tokens),
    ensures
        has_tokens(option_matrix(), tokens),
{
    let list = candidates();
    let i = choose|i: int| 0 <= i < list.len() && (#[trigger] list[i]).tokens == tokens;
    lemma_dedup_covers(list, i);
}

/// The five parts of the candidate list.
proof fn lemma_candidate_parts(tokens: Seq<Seq<char>>)
    ensures
        has_tokens(candidates(), tokens) <==> {
            ||| tokens == Seq::<Seq<char>>::empty()
            ||| has_tokens(short_block(SHORT_MASKS as nat), tokens)
            ||| has_tokens(labelled("short extra "@, extra_short()), tokens)
            ||| has_tokens(long_block(LONG_MASKS as nat), tokens)
            ||| has_tokens(labelled("order "@, order_sensitive()), tokens)
        },
{
    let a = seq![Entry { label: "no options"@, tokens: Seq::empty() }];
    let b = short_block(SHORT_MASKS as nat);
    let c = labelled("short extra "@, extra_short());
    let d = long_block(LONG_MASKS as nat);
    let e = labelled("order "@, order_sensitive());
    lemma_has_tokens_concat(a, b, tokens);
    lemma_has_tokens_concat(a + b, c, tokens);
    lemma_has_tokens_concat(a + b + c, d, tokens);
    lemma_has_tokens_concat(a + b + c + d, e, tokens);
    if tokens == Seq::<Seq<char>>::empty() {
        assert(a[0].tokens == tokens);
    }
}

/// The matrix holds the combination without any flag.
pub proof fn lemma_matrix_has_no_options()
    ensures
        has_tokens(option_matrix(), Seq::empty()),
{
    lemma_candidate_parts(Seq::empty());
    lemma_matrix_holds(Seq::empty());
}

/// For every non-empty subset of the short flags the matrix holds the
/// bundled form.
pub proof fn lemma_matrix_has_bundled(mask: nat)
    requires
        1 <= mask < SHORT_MASKS,
    ensures
        has_tokens(option_matrix(), seq![bundled(mask)]),
{
    let tokens = seq![bundled(mask)];
    assert(short_entries(mask)[0].tokens == tokens);
    lemma_short_block_holds(SHORT_MASKS as nat, mask, tokens);
    lemma_candidate_parts(tokens);
    lemma_matrix_holds(tokens);
}

/// For every subset of the short flags with more than one member the
/// matrix holds the separated form.
pub proof fn lemma_matrix_has_separated(mask: nat)
    requires
        1 <= mask < SHORT_MASKS,
        selected(short_alphabet(), mask).len() > 1,
    ensures
        has_tokens(option_matrix(), separated(mask)),
{
    let tokens = separated(mask);
    assert(short_entries(mask)[1].tokens == tokens);
    lemma_short_block_holds(SHORT_MASKS as nat, mask, tokens);
    lemma_candidate_parts(tokens);
    lemma_matrix_holds(tokens);
}

/// For every non-empty subset of the long flags the matrix holds its
/// members in alphabet order.
pub proof fn lemma_matrix_has_long(mask: nat)
    requires
        1 <= mask < LONG_MASKS,
    ensures
        has_tokens(option_matrix(), selected(long_alphabet(), mask)),
{
    let tokens = selected(long_alphabet(), mask);
    lemma_long_block_holds(LONG_MASKS as nat, mask);
    lemma_candidate_parts(tokens);
    lemma_matrix_holds(tokens);
}

/// The matrix holds each of the extra short sequences.
pub proof fn lemma_matrix_has_extra(i: int)
    requires
        0 <= i < extra_short().len(),
    ensures
        has_tokens(option_matrix(), extra_short()[i]),
{
    let tokens = extra_short()[i];
    assert(labelled("short extra "@, extra_short())[i].tokens == tokens);
    lemma_candidate_parts(tokens);
    lemma_matrix_holds(tokens);
}

/// The matrix holds each order-sensitive pair, in the order given.
pub proof fn lemma_matrix_has_ordered(i: int)
    requires
        0 <= i < order_sensitive().len(),
    ensures
        has_tokens(option_matrix(), order_sensitive()[i]),
{
    let tokens = order_sensitive()[i];
    assert(labelled("order "@, order_sensitive())[i].tokens == tokens);
    lemma_candidate_parts(tokens);
    lemma_matrix_holds(tokens);
}

/// The matrix holds nothing but candidates.
pub proof fn lemma_matrix_only_candidates(k: int)
    requires
        0 <= k < option_matrix().len(),
    ensures
        has_tokens(candidates(), option_matrix()[k].tokens),
{
    let i = lemma_dedup_first_wins(candidates(), k);
    assert(candidates()[i].tokens == option_matrix()[k].tokens);
}


/// The mask whose set bits are the positions at which `members` is true.
pub open spec fn mask_of(members: Seq<bool>) -> nat
    decreases members.len(),
{
    if members.len() == 0 {
        0
    } else {
        mask_of(members.drop_last()) + if members.last() {
            pow2((members.len() - 1) as nat)
        } else {
            0
        }
    }
}

/// Every choice of members is the choice of one mask: its bits are the
/// chosen positions, it lies below two to the number of positions, and it
/// is zero only if nothing was chosen.
pub proof fn lemma_mask_of(members: Seq<bool>)
    ensures
        mask_of(members) < pow2(members.len()),
        forall|i: int| 0 <= i < members.len() ==> bit(mask_of(members), i as nat) == members[i],
        members.contains(true) ==> mask_of(members) >= 1,
    decreases members.len(),
{
    let n = members.len();
    lemma2_to64();
    if n > 0 {
        let init = members.drop_last();
        let low = mask_of(init);
        let top = (n - 1) as nat;
        let p = pow2(top);
        let b: int = if members.last() {
            1
        } else {
            0
        };
        lemma_mask_of(init);
        lemma_pow2_unfold(n);
        lemma_pow2_pos(top);
        assert(mask_of(members) == low + b * p) by (nonlinear_arith)
            requires
                mask_of(members) == low + if members.last() {
                    p
                } else {
                    0
                },
                b == if members.last() {
                    1int
                } else {
                    0int
                },
        ;
        assert forall|i: int| 0 <= i < n implies bit(mask_of(members), i as nat) == members[i] by {
            if i == top {
                lemma_hoist_over_denominator(low as int, b, p);
                lemma_basic_div(low as int, p as int);
            } else {
                let q = pow2(i as nat);
                let rest = pow2((top - i - 1) as nat);
                lemma_pow2_pos(i as nat);
                lemma_pow2_adds(i as nat, (top - i) as nat);
                lemma_pow2_unfold((top - i) as nat);
                assert(p == q * (2 * rest));
                assert(b * p == (b * 2 * rest) * q) by (nonlinear_arith)
                    requires
                        p == q * (2 * rest),
                ;
                lemma_hoist_over_denominator(low as int, b * 2 * rest, q);
                assert((low + b * p) / (q as int) == low / q + (b * rest) * 2) by (nonlinear_arith)
                    requires
                        (low + (b * 2 * rest) * q) / (q as int) == low / q + b * 2 * rest,
                        b * p == (b * 2 * rest) * q,
                ;
                lemma_mod_multiples_vanish(b * rest, low as int / q as int, 2);
                assert((2 * (b * rest) + low / q) % 2 == (low / q) % 2);
                assert(init[i] == members[i]);
            }
        }
        if members.contains(true) {
            let i = choose|i: int| 0 <= i < n && members[i] == true;
            if i < top {
                assert(init[i] == true);
                assert(init.contains(true));
            }
        }
    }
}

/// Every non-empty subset of the short flags is in the matrix in its
/// bundled form and, where it has more than one member, in its separated
/// form. The subset is given by which positions of the alphabet belong to
/// it; its mask is returned.
pub proof fn lemma_every_short_subset(members: Seq<bool>) -> (mask: nat)
    requires
        members.len() == short_alphabet().len(),
        members.contains(true),
    ensures
        1 <= mask < SHORT_MASKS,
        forall|i: int| 0 <= i < members.len() ==> bit(mask, i as nat) == members[i],
        has_tokens(option_matrix(), seq![bundled(mask)]),
        selected(short_alphabet(), mask).len() > 1 ==> has_tokens(option_matrix(), separated(mask)),
{
    let mask = mask_of(members);
    lemma_mask_of(members);
    lemma2_to64();
    lemma_matrix_has_bundled(mask);
    if selected(short_alphabet(), mask).len() > 1 {
        lemma_matrix_has_separated(mask);
    }
    mask
}

/// Every non-empty subset of the long flags is in the matrix, its members
/// in alphabet order.
pub proof fn lemma_every_long_subset(members: Seq<bool>) -> (mask: nat)
    requires
        members.len() == long_alphabet().len(),
        members.contains(true),
    ensures
        1 <= mask < LONG_MASKS,
        forall|i: int| 0 <= i < members.len() ==> bit(mask, i as nat) == members[i],
        has_tokens(option_matrix(), selected(long_alphabet(), mask)),
{
    let mask = mask_of(members);
    lemma_mask_of(members);
    lemma2_to64();
    lemma_matrix_has_long(mask);
    mask
}

} // verus!
