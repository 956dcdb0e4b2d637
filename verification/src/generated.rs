//! The cases derived from the flag matrix: four for every flag
//! combination, and a handful against the binary fixture.

use crate::cases::{CaseKind, MatrixCase, Shape, TestCase};
use crate::matrix::{list_views, option_matrix, option_specs, prefixed, tokens1};
use crate::record::{entries, Entry};
use crate::text::{clone_strings, join, joined, views};
use vstd::prelude::*;
use vstd::string::StringExecFns;

verus! {

/// The four cases derived from one flag combination: the fixture file
/// alone, the fixture file and a second file, the fixture on standard
/// input, standard input and a second file.
pub open spec fn cases_of(entry: Entry) -> Seq<MatrixCase> {
    seq![
        MatrixCase { name: "matrix file "@ + entry.label, shape: Shape::File, opts: entry.tokens },
        MatrixCase {
            name: "matrix multi "@ + entry.label,
            shape: Shape::Multi,
            opts: entry.tokens,
        },
        MatrixCase {
            name: "matrix stdin "@ + entry.label,
            shape: Shape::Stdin,
            opts: entry.tokens,
        },
        MatrixCase {
            name: "matrix stdin+file "@ + entry.label,
            shape: Shape::StdinFile,
            opts: entry.tokens,
        },
    ]
}

/// The cases derived from a list of flag combinations, in order.
pub open spec fn expanded(list: Seq<Entry>) -> Seq<MatrixCase>
    decreases list.len(),
{
    if list.len() == 0 {
        Seq::empty()
    } else {
        expanded(list.drop_last()) + cases_of(list.last())
    }
}

/// The flag lists that are run against the binary fixture.
pub open spec fn binary_option_sets() -> Seq<Seq<Seq<char>>> {
    seq![
        Seq::empty(),
        seq!["-v"@],
        seq!["-A"@],
        seq!["-t"@],
        seq!["-e"@],
        seq!["--show-nonprinting"@],
        seq!["--show-all"@],
        seq!["--show-ends"@],
        seq!["--show-tabs"@],
    ]
}

/// One case per flag list, each against the binary fixture.
pub open spec fn binary_cases(sets: Seq<Seq<Seq<char>>>) -> Seq<MatrixCase> {
    Seq::new(
        sets.len(),
        |i: int|
            MatrixCase {
                name: "matrix binary "@ + joined(sets[i], " "@),
                shape: Shape::Binary,
                opts: sets[i],
            },
    )
}

/// Every generated case, in order: four per entry of the matrix, then the
/// cases against the binary fixture.
pub open spec fn matrix_cases() -> Seq<MatrixCase> {
    expanded(option_matrix()) + binary_cases(binary_option_sets())
}

/// `after` is `before` followed by the generated cases `added`.
pub open spec fn extends_with(
    after: Seq<TestCase>,
    before: Seq<TestCase>,
    added: Seq<MatrixCase>,
) -> bool {
    &&& after.len() == before.len() + added.len()
    &&& forall|i: int| 0 <= i < before.len() ==> #[trigger] after[i] == before[i]
    &&& forall|i: int|
        0 <= i < added.len() ==> (#[trigger] after[before.len() + i]).is_matrix(added[i])
}

/// Four cases per entry.
pub proof fn lemma_expanded_len(list: Seq<Entry>)
    ensures
        expanded(list).len() == 4 * list.len(),
    decreases list.len(),
{
    if list.len() > 0 {
        lemma_expanded_len(list.drop_last());
    }
}

/// Appends one generated case.
fn push_case(cases: &mut Vec<TestCase>, prefix: &str, label: &str, shape: Shape, opts: &[String])
    ensures
        extends_with(
            final(cases)@,
            old(cases)@,
            seq![MatrixCase { name: prefix@ + label@, shape, opts: views(opts@) }],
        ),
{
    let case = TestCase {
        name: prefixed(prefix, label),
        kind: CaseKind::Matrix { shape, opts: clone_strings(opts) },
    };
    cases.push(case);
    assert(cases@[old(cases)@.len() + 0int] == case);
}

/// The flag lists that are run against the binary fixture.
fn binary_lists() -> (lists: Vec<Vec<String>>)
    ensures
        list_views(lists@) == binary_option_sets(),
{
    let mut lists: Vec<Vec<String>> = Vec::new();
    let none: Vec<String> = Vec::new();
    assert(views(none@) =~= Seq::<Seq<char>>::empty());
    lists.push(none);
    lists.push(tokens1("-v"));
    lists.push(tokens1("-A"));
    lists.push(tokens1("-t"));
    lists.push(tokens1("-e"));
    lists.push(tokens1("--show-nonprinting"));
    lists.push(tokens1("--show-all"));
    lists.push(tokens1("--show-ends"));
    lists.push(tokens1("--show-tabs"));
    assert(list_views(lists@) =~= binary_option_sets());
    lists
}

/// Appending in two rounds is appending both rounds at once.
pub proof fn lemma_extends_twice(
    first: Seq<TestCase>,
    second: Seq<TestCase>,
    third: Seq<TestCase>,
    added: Seq<MatrixCase>,
    more: Seq<MatrixCase>,
)
    requires
        extends_with(second, first, added),
        extends_with(third, second, more),
    ensures
        extends_with(third, first, added + more),
{
    let all = added + more;
    assert forall|i: int| 0 <= i < first.len() implies #[trigger] third[i] == first[i] by {
        assert(second[i] == first[i]);
    }
    assert forall|i: int| 0 <= i < all.len() implies (#[trigger] third[first.len() + i]).is_matrix(
        all[i],
    ) by {
        if i < added.len() {
            assert(third[first.len() + i] == second[first.len() + i]);
        } else {
            assert(third[second.len() + (i - added.len())].is_matrix(more[i - added.len()]));
        }
    }
}

/// Appends the generated cases to `cases`: four for every entry of the
/// flag matrix, then one per flag list against the binary fixture.
pub fn add_matrix_cases(cases: &mut Vec<TestCase>)
    ensures
        extends_with(final(cases)@, old(cases)@, matrix_cases()),
{
    let specs = option_specs();
    let ghost all = entries(specs@);
    let mut i: usize = 0;
    assert(all.take(0) =~= Seq::<Entry>::empty());
    while i < specs.len()
        invariant
            i <= specs.len(),
            all == entries(specs@),
            extends_with(cases@, old(cases)@, expanded(all.take(i as int))),
        decreases specs.len() - i,
    {
        let ghost start = cases@;
        let label = specs[i].label.as_str();
        let opts = specs[i].tokens.as_slice();
        push_case(cases, "matrix file ", label, Shape::File, opts);
        let ghost one = cases@;
        push_case(cases, "matrix multi ", label, Shape::Multi, opts);
        let ghost two = cases@;
        push_case(cases, "matrix stdin ", label, Shape::Stdin, opts);
        let ghost three = cases@;
        push_case(cases, "matrix stdin+file ", label, Shape::StdinFile, opts);
        proof {
            let four = cases_of(all[i as int]);
            lemma_extends_twice(start, one, two, seq![four[0]], seq![four[1]]);
            lemma_extends_twice(start, two, three, seq![four[0], four[1]], seq![four[2]]);
            lemma_extends_twice(
                start,
                three,
                cases@,
                seq![four[0], four[1], four[2]],
                seq![four[3]],
            );
            assert(four =~= seq![four[0], four[1], four[2]] + seq![four[3]]);
            lemma_extends_twice(old(cases)@, start, cases@, expanded(all.take(i as int)), four);
            assert(all.take(i + 1).drop_last() =~= all.take(i as int));
        }
        i += 1;
    }
    assert(all.take(specs.len() as int) =~= all);
    let ghost middle = cases@;
    let lists = binary_lists();
    let ghost rest = binary_cases(binary_option_sets());
    let mut j: usize = 0;
    assert(rest.take(0) =~= Seq::<MatrixCase>::empty());
    while j < lists.len()
        invariant
            j <= lists.len(),
            list_views(lists@) == binary_option_sets(),
            rest == binary_cases(binary_option_sets()),
            extends_with(cases@, middle, rest.take(j as int)),
        decreases lists.len() - j,
    {
        let ghost start = cases@;
        let label = join(lists[j].as_slice(), " ");
        push_case(cases, "matrix binary ", label.as_str(), Shape::Binary, lists[j].as_slice());
        proof {
            assert(views(lists@[j as int]@) == list_views(lists@)[j as int]);
            lemma_extends_twice(middle, start, cases@, rest.take(j as int), seq![rest[j as int]]);
            assert(rest.take(j + 1) =~= rest.take(j as int) + seq![rest[j as int]]);
        }
        j += 1;
    }
    proof {
        assert(rest.take(lists.len() as int) =~= rest);
        lemma_extends_twice(old(cases)@, middle, cases@, expanded(all), rest);
    }
}

} // verus!
