//! The cases of a run: registering them under unique names, working
//! through them one after the other, and the final tally.
//!
//! A run never stops early. Every case whose name holds the filter is
//! handed out once, in the order of registration, and the report is
//! complete before the run is judged as a whole. A run with a filter is a
//! selection made on purpose and never counts as failed.

use crate::cases::TestCase;
use crate::text::{contains, contains_run, decimal_text, push_decimal};
use vstd::prelude::*;
use vstd::string::StringExecFns;

verus! {

/// The names of a list of cases, in order.
pub open spec fn case_names(cases: Seq<TestCase>) -> Seq<Seq<char>> {
    Seq::new(cases.len(), |i: int| cases[i].name@)
}

/// No name stands twice in `names`.
pub open spec fn distinct(names: Seq<Seq<char>>) -> bool {
    forall|i: int, j: int| 0 <= i < j < names.len() ==> names[i] != names[j]
}

/// Whether a case of this name is part of a run with this filter: without
/// a filter every case is, with a filter those whose name holds it.
pub open spec fn selected(name: Seq<char>, filter: Option<Seq<char>>) -> bool {
    match filter {
        Some(part) => contains_run(name, part),
        None => true,
    }
}

/// The number of selected names among the first `upto`.
pub open spec fn count_selected(names: Seq<Seq<char>>, filter: Option<Seq<char>>, upto: int) -> nat
    decreases upto,
{
    if upto <= 0 {
        0
    } else {
        count_selected(names, filter, upto - 1) + if selected(names[upto - 1], filter) {
            1nat
        } else {
            0nat
        }
    }
}

/// The view of an optional filter.
pub open spec fn filter_view(filter: Option<String>) -> Option<Seq<char>> {
    match filter {
        Some(part) => Some(part@),
        None => None,
    }
}

/// The summary line of a run.
pub open spec fn summary_text(passed: nat, total: nat, filtered: bool) -> Seq<char> {
    "\n"@ + decimal_text(passed) + "/"@ + decimal_text(total) + " tests executed"@ + if filtered {
        " (filtered)"@
    } else {
        Seq::empty()
    } + "."@
}

/// The line that reports how one case ended.
pub open spec fn verdict_text(name: Seq<char>, failure: Option<Seq<char>>) -> Seq<char> {
    match failure {
        None => "[PASS] "@ + name,
        Some(why) => "[FAIL] "@ + name + ": "@ + why,
    }
}

/// A case could not be registered because its name is taken.
#[derive(Clone, Debug, PartialEq, Eq)]
pub struct DuplicateName {
    /// The case that was turned away.
    pub case: TestCase,
}

/// The cases of a run, in the order of their registration. No two have the
/// same name.
#[derive(Debug)]
pub struct Registry {
    cases: Vec<TestCase>,
}

impl View for Registry {
    type V = Seq<TestCase>;

    closed spec fn view(&self) -> Seq<TestCase> {
        self.cases@
    }
}

impl Registry {
    #[verifier::type_invariant]
    spec fn inv(self) -> bool {
        distinct(case_names(self.cases@))
    }

    /// The names of the registered cases, in order.
    pub open spec fn names(&self) -> Seq<Seq<char>> {
        case_names(self@)
    }

    /// A registry without cases.
    pub fn new() -> (registry: Registry)
        ensures
            registry@.len() == 0,
    {
        Registry { cases: Vec::new() }
    }

    /// The number of registered cases. Their names are distinct.
    pub fn len(&self) -> (n: usize)
        ensures
            n == self@.len(),
            distinct(self.names()),
    {
        proof {
            use_type_invariant(self);
        }
        self.cases.len()
    }

    /// The case at position `index`, if there is one.
    pub fn get(&self, index: usize) -> (case: Option<&TestCase>)
        ensures
            index < self@.len() ==> case == Some(&self@[index as int]),
            index >= self@.len() ==> case is None,
    {
        if index < self.cases.len() {
            Some(&self.cases[index])
        } else {
            None
        }
    }

    /// Whether a case of this name is registered.
    pub fn has_name(&self, name: &str) -> (found: bool)
        ensures
            found == self.names().contains(name@),
    {
        let wanted = name.to_owned();
        let ghost names = self.names();
        let mut i: usize = 0;
        while i < self.cases.len()
            invariant
                i <= self.cases.len(),
                names == case_names(self.cases@),
                wanted@ == name@,
                forall|k: int| 0 <= k < i ==> names[k] != name@,
            decreases self.cases.len() - i,
        {
            if self.cases[i].name == wanted {
                assert(names[i as int] == name@);
                return true;
            }
            i += 1;
        }
        false
    }

    /// Registers `case` behind the cases already there. A case whose name
    /// is taken is turned away and handed back, and nothing changes.
    pub fn register(&mut self, case: TestCase) -> (outcome: Result<(), DuplicateName>)
        ensures
            match outcome {
                Ok(()) => {
                    &&& !old(self).names().contains(case.name@)
                    &&& final(self)@ == old(self)@.push(case)
                },
                Err(refused) => {
                    &&& old(self).names().contains(case.name@)
                    &&& final(self)@ == old(self)@
                    &&& refused.case == case
                },
            },
    {
        proof {
            use_type_invariant(&*self);
        }
        if self.has_name(case.name.as_str()) {
            return Err(DuplicateName { case });
        }
        let ghost before = self.cases@;
        let mut grown: Vec<TestCase> = Vec::new();
        std::mem::swap(&mut self.cases, &mut grown);
        grown.push(case);
        proof {
            let names = case_names(grown@);
            assert forall|i: int, j: int| 0 <= i < j < names.len() implies names[i] != names[j] by {
                if j < before.len() {
                    assert(case_names(before)[i] != case_names(before)[j]);
                } else {
                    assert(case_names(before)[i] == names[i]);
                }
            }
        }
        std::mem::swap(&mut self.cases, &mut grown);
        Ok(())
    }

    /// Registers the cases of `cases` in order, up to the first whose name
    /// is taken. That case is handed back; those before it stay
    /// registered, those behind it are dropped.
    pub fn register_all(&mut self, cases: Vec<TestCase>) -> (outcome: Result<(), DuplicateName>)
        ensures
            match outcome {
                Ok(()) => final(self)@ == old(self)@ + cases@,
                Err(refused) => exists|k: int|
                    {
                        &&& 0 <= k < cases@.len()
                        &&& refused.case == #[trigger] cases@[k]
                        &&& final(self)@ == old(self)@ + cases@.take(k)
                        &&& case_names(final(self)@).contains(cases@[k].name@)
                    },
            },
    {
        let ghost start = self@;
        let ghost all = cases@;
        for case in it: cases.into_iter()
            invariant
                it.seq() == all,
                all == cases@,
                start == old(self)@,
                self@ == start + all.take(it.index() as int),
        {
            match self.register(case) {
                Ok(()) => {},
                Err(refused) => {
                    return Err(refused);
                },
            }
        }
        Ok(())
    }
}

/// The first position at or behind `from` whose case is part of a run
/// with this filter.
pub fn next_selected(registry: &Registry, filter: &Option<String>, from: usize) -> (next: Option<
    usize,
>)
    ensures
        match next {
            Some(i) => {
                &&& from <= i < registry@.len()
                &&& selected(registry.names()[i as int], filter_view(*filter))
                &&& forall|j: int|
                    from <= j < i ==> !selected(
                        #[trigger] registry.names()[j],
                        filter_view(*filter),
                    )
            },
            None => forall|j: int|
                from <= j < registry@.len() ==> !selected(
                    #[trigger] registry.names()[j],
                    filter_view(*filter),
                ),
        },
{
    let ghost names = registry.names();
    let mut i: usize = from;
    while i < registry.len()
        invariant
            from <= i,
            names == registry.names(),
            forall|j: int| from <= j < i ==> !selected(#[trigger] names[j], filter_view(*filter)),
        decreases registry@.len() - i,
    {
        let case = registry.get(i).unwrap();
        let hit = match filter {
            Some(part) => contains(case.name.as_str(), part.as_str()),
            None => true,
        };
        if hit {
            return Some(i);
        }
        i += 1;
    }
    None
}

/// How far a run has come.
#[derive(Debug)]
struct Position {
    /// Every case before this position has been handed out or passed over.
    cursor: usize,
    /// The number of cases handed out.
    ran: usize,
}

/// The progress of a run through its cases.
#[derive(Debug)]
pub struct SuiteRun {
    registry: Registry,
    filter: Option<String>,
    /// How far the run has come.
    at: Position,
    /// The number of cases that passed.
    passed: usize,
    /// The case that was handed out and whose outcome is not in yet.
    awaiting: Option<usize>,
}

impl SuiteRun {
    #[verifier::type_invariant]
    spec fn inv(self) -> bool {
        &&& self.at.cursor <= self.registry@.len()
        &&& self.at.ran == count_selected(
            self.registry.names(),
            filter_view(self.filter),
            self.at.cursor as int,
        )
        &&& self.passed + (if self.awaiting is Some {
            1int
        } else {
            0int
        }) <= self.at.ran
        &&& self.at.ran <= self.at.cursor
        &&& match self.awaiting {
            Some(i) => i < self.at.cursor,
            None => true,
        }
    }

    /// The cases of the run.
    pub closed spec fn cases(&self) -> Seq<TestCase> {
        self.registry@
    }

    /// The names of the cases of the run.
    pub open spec fn names(&self) -> Seq<Seq<char>> {
        case_names(self.cases())
    }

    /// The filter of the run.
    pub closed spec fn filter(&self) -> Option<Seq<char>> {
        filter_view(self.filter)
    }

    /// The position up to which the cases have been dealt with.
    pub closed spec fn cursor(&self) -> nat {
        self.at.cursor as nat
    }

    /// The number of cases handed out so far.
    pub closed spec fn ran(&self) -> nat {
        self.at.ran as nat
    }

    /// The number of cases that passed so far.
    pub closed spec fn passed(&self) -> nat {
        self.passed as nat
    }

    /// The case whose outcome is awaited, if one is.
    pub closed spec fn awaiting(&self) -> Option<usize> {
        self.awaiting
    }

    /// A run over the cases of `registry` that are selected by `filter`,
    /// with nothing done yet.
    pub fn new(registry: Registry, filter: Option<String>) -> (run: SuiteRun)
        ensures
            run.cases() == registry@,
            run.filter() == filter_view(filter),
            run.cursor() == 0,
            run.ran() == 0,
            run.passed() == 0,
            run.awaiting() is None,
    {
        SuiteRun { registry, filter, at: Position { cursor: 0, ran: 0 }, passed: 0, awaiting: None }
    }

    /// The number of registered cases, selected or not. Their names are
    /// distinct.
    pub fn total(&self) -> (n: usize)
        ensures
            n == self.cases().len(),
            distinct(self.names()),
    {
        self.registry.len()
    }

    /// The number of cases handed out so far: the selected cases among
    /// those dealt with.
    pub fn ran_count(&self) -> (n: usize)
        ensures
            n == self.ran(),
            self.cursor() <= self.cases().len(),
            self.ran() == count_selected(self.names(), self.filter(), self.cursor() as int),
            self.ran() <= self.cursor(),
    {
        proof {
            use_type_invariant(self);
        }
        self.at.ran
    }

    /// The number of cases that passed so far. It never exceeds the number
    /// of cases whose outcome is in.
    pub fn passed_count(&self) -> (n: usize)
        ensures
            n == self.passed(),
            self.passed() + (if self.awaiting() is Some {
                1int
            } else {
                0int
            }) <= self.ran(),
    {
        proof {
            use_type_invariant(self);
        }
        self.passed
    }

    /// Whether the run has a filter.
    pub fn is_filtered(&self) -> (filtered: bool)
        ensures
            filtered == self.filter() is Some,
    {
        self.filter.is_some()
    }

    /// The case at position `index`, if there is one.
    pub fn case(&self, index: usize) -> (case: Option<&TestCase>)
        ensures
            index < self.cases().len() ==> case == Some(&self.cases()[index as int]),
            index >= self.cases().len() ==> case is None,
    {
        self.registry.get(index)
    }

    /// Hands out the next case to run: the first selected case behind those
    /// dealt with so far. While the outcome of a case is awaited, that case
    /// is handed out again. `None` means that the run is through.
    pub fn next(&mut self) -> (next: Option<usize>)
        ensures
            final(self).cases() == old(self).cases(),
            final(self).filter() == old(self).filter(),
            final(self).passed() == old(self).passed(),
            old(self).awaiting() is Some ==> next == old(self).awaiting() && final(self).cursor()
                == old(self).cursor() && final(self).ran() == old(self).ran()
                && final(self).awaiting() == old(self).awaiting(),
            old(self).awaiting() is None ==> match next {
                Some(i) => {
                    &&& old(self).cursor() <= i < old(self).cases().len()
                    &&& selected(old(self).names()[i as int], old(self).filter())
                    &&& forall|j: int|
                        old(self).cursor() <= j < i ==> !selected(
                            #[trigger] old(self).names()[j],
                            old(self).filter(),
                        )
                    &&& final(self).cursor() == i + 1
                    &&& final(self).ran() == old(self).ran() + 1
                    &&& final(self).awaiting() == Some(i)
                },
                None => {
                    &&& forall|j: int|
                        old(self).cursor() <= j < old(self).cases().len() ==> !selected(
                            #[trigger] old(self).names()[j],
                            old(self).filter(),
                        )
                    &&& final(self).cursor() == old(self).cases().len()
                    &&& final(self).ran() == old(self).ran()
                    &&& final(self).awaiting() is None
                },
            },
    {
        proof {
            use_type_invariant(&*self);
        }
        if self.awaiting.is_some() {
            return self.awaiting;
        }
        let ghost names = self.registry.names();
        let ghost filter = filter_view(self.filter);
        let total = self.registry.len();
        let found = next_selected(&self.registry, &self.filter, self.at.cursor);
        match found {
            Some(i) => {
                proof {
                    lemma_count_skips(names, filter, self.at.cursor as int, i as int);
                }
                self.at = Position { cursor: i + 1, ran: self.at.ran + 1 };
                self.awaiting = Some(i);
            },
            None => {
                proof {
                    lemma_count_skips(names, filter, self.at.cursor as int, names.len() as int);
                }
                self.at = Position { cursor: total, ran: self.at.ran };
            },
        }
        found
    }

    /// Takes in the outcome of the case that was handed out last: `None`
    /// where it passed, the reason where it failed. Returns the line that
    /// reports it. Where no outcome is awaited, nothing is counted and the
    /// line is empty.
    pub fn record(&mut self, failure: Option<String>) -> (line: String)
        ensures
            final(self).cases() == old(self).cases(),
            final(self).filter() == old(self).filter(),
            final(self).cursor() == old(self).cursor(),
            final(self).ran() == old(self).ran(),
            final(self).awaiting() is None,
            match old(self).awaiting() {
                Some(i) => {
                    &&& i < old(self).cases().len()
                    &&& final(self).passed() == old(self).passed() + if failure is None {
                        1nat
                    } else {
                        0nat
                    }
                    &&& line@ == verdict_text(old(self).names()[i as int], filter_view(failure))
                },
                None => final(self).passed() == old(self).passed() && line@ == Seq::<char>::empty(),
            },
    {
        proof {
            use_type_invariant(&*self);
        }
        match self.awaiting {
            Some(i) => {
                let name = self.registry.get(i).unwrap().name.clone();
                self.awaiting = None;
                match failure {
                    None => {
                        self.passed = self.passed + 1;
                        String::from_str("[PASS] ").concat(name.as_str())
                    },
                    Some(why) => {
                        let line = String::from_str("[FAIL] ").concat(name.as_str()).concat(
                            ": ",
                        ).concat(why.as_str());
                        line
                    },
                }
            },
            None => String::new(),
        }
    }

    /// The line that announces the case at `index` before it is run.
    pub fn announce(&self, index: usize) -> (line: Option<String>)
        ensures
            filter_view(line) == if index < self.cases().len() {
                Some("[RUN ] "@ + self.names()[index as int])
            } else {
                None
            },
    {
        match self.registry.get(index) {
            Some(case) => Some(String::from_str("[RUN ] ").concat(case.name.as_str())),
            None => None,
        }
    }

    /// The closing line of the report: how many cases passed, out of how
    /// many registered, and whether a filter was at work.
    pub fn summary(&self) -> (line: String)
        ensures
            line@ == summary_text(self.passed(), self.cases().len(), self.filter() is Some),
    {
        let mut line = String::from_str("\n");
        push_decimal(&mut line, self.passed as u64);
        line.append("/");
        push_decimal(&mut line, self.registry.len() as u64);
        line.append(" tests executed");
        if self.filter.is_some() {
            line.append(" (filtered)");
        }
        line.append(".");
        assert(line@ =~= summary_text(
            self.passed as nat,
            self.registry@.len(),
            filter_view(self.filter) is Some,
        ));
        line
    }

    /// Whether the run as a whole succeeded: every registered case passed,
    /// or the run had a filter.
    pub fn succeeded(&self) -> (ok: bool)
        ensures
            ok == (self.passed() == self.cases().len() || self.filter() is Some),
    {
        self.passed == self.registry.len() || self.filter.is_some()
    }
}

/// Passing over cases that are not selected does not change the count.
pub proof fn lemma_count_skips(
    names: Seq<Seq<char>>,
    filter: Option<Seq<char>>,
    from: int,
    to: int,
)
    requires
        0 <= from <= to <= names.len(),
        forall|j: int| from <= j < to ==> !selected(#[trigger] names[j], filter),
    ensures
        count_selected(names, filter, to) == count_selected(names, filter, from),
        to < names.len() && selected(names[to], filter) ==> count_selected(names, filter, to + 1)
            == count_selected(names, filter, from) + 1,
    decreases to - from,
{
    if from < to {
        lemma_count_skips(names, filter, from, to - 1);
    }
}

/// No more cases are selected than there are.
pub proof fn lemma_count_bounded(names: Seq<Seq<char>>, filter: Option<Seq<char>>, upto: int)
    requires
        0 <= upto <= names.len(),
    ensures
        count_selected(names, filter, upto) <= upto,
        filter is None ==> count_selected(names, filter, upto) == upto,
    decreases upto,
{
    if upto > 0 {
        lemma_count_bounded(names, filter, upto - 1);
    }
}

/// Without a filter, a run that is through has succeeded exactly if every
/// registered case was handed out and passed; a single failure fails it.
pub proof fn lemma_unfiltered_verdict(
    names: Seq<Seq<char>>,
    ran: nat,
    passed: nat,
)
    requires
        ran == count_selected(names, None, names.len() as int),
        passed <= ran,
    ensures
        ran == names.len(),
        (passed == names.len()) <==> passed == ran,
{
    lemma_count_bounded(names, None, names.len() as int);
}

} // verus!
