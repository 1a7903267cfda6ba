//! Test filters: decide which tests take part in a run at all.

use vstd::prelude::*;

use crate::test::{Test, TestMeta};
use crate::text::{contains_text, str_contains, str_equal};

verus! {

/// The tests that passed a filter, in their original order, and how many were removed.
pub struct FilteredTests<'m, Extra, Function> {
    pub tests: Vec<&'m Test<Extra, Function>>,
    pub filtered: usize,
}

/// Decides which tests participate in a run.
pub trait TestFilter<Extra> {
    /// Whether this filter keeps a test with this metadata.
    spec fn keeps_meta(&self, meta: TestMeta<Extra>) -> bool;

    /// The tests that take part, in their order: those whose metadata the filter keeps (see
    /// [`kept_where`]); and how many were removed: every test is one or the other.
    fn filter<'m, Function>(&self, tests: &'m [Test<Extra, Function>]) -> (r: FilteredTests<'m, Extra, Function>)
        ensures
            r.tests@.map_values(|t: &Test<Extra, Function>| *t) == kept_where(tests@, |m: TestMeta<Extra>| self.keeps_meta(m)),
            r.tests@.len() + r.filtered == tests@.len(),
    ;
}

/// The tests of `tests` that `filter` keeps, in their order.
pub open spec fn kept_by<Extra, Function, Filter: TestFilter<Extra>>(filter: Filter, tests: Seq<Test<Extra, Function>>) -> Seq<Test<Extra, Function>> {
    kept_where(tests, |m: TestMeta<Extra>| filter.keeps_meta(m))
}

/// The tests of `tests` whose metadata satisfies `keeps`, in their order.
pub open spec fn kept_where<Extra, Function>(tests: Seq<Test<Extra, Function>>, keeps: spec_fn(TestMeta<Extra>) -> bool) -> Seq<Test<Extra, Function>>
    decreases tests.len(),
{
    if tests.len() == 0 {
        Seq::empty()
    } else {
        let rest = kept_where(tests.drop_last(), keeps);
        if keeps(tests.last().meta) {
            rest.push(tests.last())
        } else {
            rest
        }
    }
}

/// Keeps every test.
pub struct NoFilter;

impl NoFilter {
    /// Keep every test, in order.
    pub fn filter_tests<'m, Extra, Function>(&self, tests: &'m [Test<Extra, Function>]) -> (r: FilteredTests<'m, Extra, Function>)
        ensures
            r.tests@.len() == tests@.len(),
            forall|i: int| 0 <= i < tests@.len() ==> *#[trigger] r.tests@[i] == tests@[i],
            r.filtered == 0,
    {
        let mut kept: Vec<&'m Test<Extra, Function>> = Vec::new();
        let mut i: usize = 0;
        while i < tests.len()
            invariant
                i <= tests@.len(),
                kept@.len() == i,
                forall|k: int| 0 <= k < i ==> *#[trigger] kept@[k] == tests@[k],
            decreases tests.len() - i,
        {
            kept.push(&tests[i]);
            i += 1;
        }
        FilteredTests { tests: kept, filtered: 0 }
    }
}

impl<Extra> TestFilter<Extra> for NoFilter {
    /// Every test is kept.
    open spec fn keeps_meta(&self, meta: TestMeta<Extra>) -> bool {
        true
    }

    /// Every test is kept, in order; none is filtered out.
    fn filter<'m, Function>(&self, tests: &'m [Test<Extra, Function>]) -> (r: FilteredTests<'m, Extra, Function>)
        ensures
            r.tests@.map_values(|t: &Test<Extra, Function>| *t) == tests@,
            r.filtered == 0,
    {
        let r = self.filter_tests(tests);
        assert(r.tests@.map_values(|t: &Test<Extra, Function>| *t) =~= tests@);
        proof {
            lemma_no_filter_keeps_all::<Extra, Function>(tests@, |m: TestMeta<Extra>| self.keeps_meta(m));
        }
        r
    }
}

/// A name matches a pattern: equal to it when `exact`, containing it otherwise.
pub open spec fn name_matches(name: Seq<char>, pattern: Seq<char>, exact: bool) -> bool {
    if exact {
        name == pattern
    } else {
        contains_text(name, pattern)
    }
}

/// A name matches at least one of the patterns.
pub open spec fn matches_any(name: Seq<char>, patterns: Seq<Seq<char>>, exact: bool) -> bool {
    exists|i: int| 0 <= i < patterns.len() && name_matches(name, #[trigger] patterns[i], exact)
}

/// The default filter: by name, with a list of names to keep and a list to skip.
///
/// A test is kept when the keep list is empty or its name matches an entry of it, and its
/// name matches no entry of the skip list. Matching is by substring, or by equality when
/// `exact` is set.
#[derive(Default)]
pub struct DefaultFilter {
    exact: bool,
    filter: Vec<String>,
    skip: Vec<String>,
}

/// The names held by a list of strings.
pub open spec fn names_of(v: Seq<String>) -> Seq<Seq<char>> {
    v.map_values(|s: String| s@)
}

impl DefaultFilter {
    /// Whether names must match a pattern exactly.
    pub closed spec fn spec_exact(&self) -> bool {
        self.exact
    }

    /// The patterns of which a kept name must match one (all names when empty).
    pub closed spec fn spec_filter(&self) -> Seq<Seq<char>> {
        names_of(self.filter@)
    }

    /// The patterns that remove a name.
    pub closed spec fn spec_skip(&self) -> Seq<Seq<char>> {
        names_of(self.skip@)
    }

    /// Whether a test of this name is kept.
    pub open spec fn keeps(&self, name: Seq<char>) -> bool {
        &&& (self.spec_filter().len() == 0 || matches_any(name, self.spec_filter(), self.spec_exact()))
        &&& !matches_any(name, self.spec_skip(), self.spec_exact())
    }

    /// The tests of `tests` that this filter keeps, in order.
    pub open spec fn kept<Extra, Function>(&self, tests: Seq<Test<Extra, Function>>) -> Seq<Test<Extra, Function>>
        decreases tests.len(),
    {
        if tests.len() == 0 {
            Seq::empty()
        } else {
            let rest = self.kept(tests.drop_last());
            if self.keeps(tests.last().meta.name@) {
                rest.push(tests.last())
            } else {
                rest
            }
        }
    }

    /// A filter that keeps every test, matching by substring.
    pub fn new() -> (r: Self)
        ensures
            !r.spec_exact(),
            r.spec_filter().len() == 0,
            r.spec_skip().len() == 0,
    {
        DefaultFilter { exact: false, filter: Vec::new(), skip: Vec::new() }
    }

    /// Choose between exact and substring matching.
    pub fn with_exact(self, exact: bool) -> (r: Self)
        ensures
            r.spec_exact() == exact,
            r.spec_filter() == self.spec_filter(),
            r.spec_skip() == self.spec_skip(),
    {
        DefaultFilter { exact, ..self }
    }

    /// Replace the list of patterns of which a kept name must match one.
    pub fn with_filter(self, filter: Vec<String>) -> (r: Self)
        ensures
            r.spec_exact() == self.spec_exact(),
            r.spec_filter() == names_of(filter@),
            r.spec_skip() == self.spec_skip(),
    {
        DefaultFilter { filter, ..self }
    }

    /// Replace the list of patterns that remove a name.
    pub fn with_skip(self, skip: Vec<String>) -> (r: Self)
        ensures
            r.spec_exact() == self.spec_exact(),
            r.spec_filter() == self.spec_filter(),
            r.spec_skip() == names_of(skip@),
    {
        DefaultFilter { skip, ..self }
    }

    fn matches_any_of(patterns: &Vec<String>, name: &str, exact: bool) -> (r: bool)
        ensures
            r == matches_any(name@, names_of(patterns@), exact),
    {
        let mut i: usize = 0;
        while i < patterns.len()
            invariant
                i <= patterns@.len(),
                forall|k: int| 0 <= k < i ==> !name_matches(name@, #[trigger] patterns@[k]@, exact),
            decreases patterns.len() - i,
        {
            let pattern = patterns[i].as_str();
            let hit = if exact {
                str_equal(name, pattern)
            } else {
                str_contains(name, pattern)
            };
            if hit {
                assert(names_of(patterns@)[i as int] == patterns@[i as int]@);
                return true;
            }
            i += 1;
        }
        assert forall|k: int| 0 <= k < names_of(patterns@).len() implies !name_matches(
            name@,
            #[trigger] names_of(patterns@)[k],
            exact,
        ) by {
            assert(names_of(patterns@)[k] == patterns@[k]@);
        }
        false
    }

    /// Apply the filter: the kept tests in order, and the number removed.
    pub fn filter_tests<'m, Extra, Function>(&self, tests: &'m [Test<Extra, Function>]) -> (r: FilteredTests<'m, Extra, Function>)
        ensures
            r.tests@.map_values(|t: &Test<Extra, Function>| *t) == self.kept(tests@),
            r.tests@.len() + r.filtered == tests@.len(),
    {
        let mut remaining: Vec<&'m Test<Extra, Function>> = Vec::new();
        let mut filtered: usize = 0;
        let mut i: usize = 0;
        while i < tests.len()
            invariant
                i <= tests@.len(),
                remaining@.map_values(|t: &Test<Extra, Function>| *t) == self.kept(tests@.take(i as int)),
                remaining@.len() + filtered == i,
            decreases tests.len() - i,
        {
            let ghost before = remaining@;
            let test = &tests[i];
            let name = test.meta.name.as_str();
            let in_filter = self.filter.len() == 0 || Self::matches_any_of(&self.filter, name, self.exact);
            let keep = in_filter && !Self::matches_any_of(&self.skip, name, self.exact);
            if keep {
                remaining.push(test);
            } else {
                filtered += 1;
            }
            proof {
                let prefix = tests@.take(i + 1);
                assert(prefix.drop_last() =~= tests@.take(i as int));
                assert(prefix.last() == tests@[i as int]);
                assert(keep == self.keeps(tests@[i as int].meta.name@));
                if keep {
                    assert(remaining@.map_values(|t: &Test<Extra, Function>| *t) =~= before.map_values(
                        |t: &Test<Extra, Function>| *t,
                    ).push(tests@[i as int]));
                }
            }
            i += 1;
        }
        assert(tests@.take(i as int) =~= tests@);
        FilteredTests { tests: remaining, filtered }
    }
}

impl<Extra> TestFilter<Extra> for DefaultFilter {
    /// A test is kept by its name (see [`DefaultFilter::keeps`]).
    open spec fn keeps_meta(&self, meta: TestMeta<Extra>) -> bool {
        self.keeps(meta.name@)
    }

    /// See [`DefaultFilter::filter_tests`].
    fn filter<'m, Function>(&self, tests: &'m [Test<Extra, Function>]) -> (r: FilteredTests<'m, Extra, Function>)
        ensures
            r.tests@.map_values(|t: &Test<Extra, Function>| *t) == self.kept(tests@),
    {
        proof {
            lemma_default_kept_by::<Extra, Function>(*self, tests@, |m: TestMeta<Extra>| self.keeps_meta(m));
        }
        self.filter_tests(tests)
    }
}

/// A filter with no patterns to keep and none to skip keeps every test, in order.
pub proof fn law_empty_filter_keeps_all<Extra, Function>(filter: DefaultFilter, tests: Seq<Test<Extra, Function>>)
    requires
        filter.spec_filter().len() == 0,
        filter.spec_skip().len() == 0,
    ensures
        filter.kept(tests) == tests,
    decreases tests.len(),
{
    if tests.len() > 0 {
        law_empty_filter_keeps_all(filter, tests.drop_last());
        assert(!matches_any(tests.last().meta.name@, filter.spec_skip(), filter.spec_exact()));
        assert(tests.drop_last().push(tests.last()) =~= tests);
    }
}

/// With exact matching a name is kept exactly when the keep list is empty or holds that very
/// name, and the skip list does not hold it: a skip entry removes only a test of that exact
/// name, never one whose name merely contains it.
pub proof fn law_exact_matches_whole_names(filter: DefaultFilter, name: Seq<char>)
    requires
        filter.spec_exact(),
    ensures
        filter.keeps(name) <==> ((filter.spec_filter().len() == 0 || filter.spec_filter().contains(name))
            && !filter.spec_skip().contains(name)),
{
    if filter.spec_skip().contains(name) {
        let i = choose|i: int| 0 <= i < filter.spec_skip().len() && filter.spec_skip()[i] == name;
        assert(name_matches(name, filter.spec_skip()[i], true));
    }
    if filter.spec_filter().contains(name) {
        let i = choose|i: int| 0 <= i < filter.spec_filter().len() && filter.spec_filter()[i] == name;
        assert(name_matches(name, filter.spec_filter()[i], true));
    }
}

/// Without exact matching a name is kept exactly when the keep list is empty or one of its
/// entries occurs in the name, and no skip entry occurs in it.
pub proof fn law_substring_matches(filter: DefaultFilter, name: Seq<char>)
    requires
        !filter.spec_exact(),
    ensures
        filter.keeps(name) <==> ((filter.spec_filter().len() == 0
            || exists|i: int| 0 <= i < filter.spec_filter().len() && #[trigger] contains_text(name, filter.spec_filter()[i]))
            && !exists|i: int| 0 <= i < filter.spec_skip().len() && #[trigger] contains_text(name, filter.spec_skip()[i])),
{
}

/// A test whose name matches a skip pattern is never kept, whatever the keep patterns.
pub proof fn law_skip_wins<Extra, Function>(filter: DefaultFilter, tests: Seq<Test<Extra, Function>>, i: int)
    requires
        0 <= i < filter.kept(tests).len(),
    ensures
        !matches_any(filter.kept(tests)[i].meta.name@, filter.spec_skip(), filter.spec_exact()),
        filter.keeps(filter.kept(tests)[i].meta.name@),
    decreases tests.len(),
{
    if tests.len() > 0 {
        let rest = filter.kept(tests.drop_last());
        if i < rest.len() {
            law_skip_wins(filter, tests.drop_last(), i);
        }
    }
}

/// Keeping by a predicate that agrees with the default filter's name test keeps what the
/// default filter keeps.
proof fn lemma_default_kept_by<Extra, Function>(filter: DefaultFilter, tests: Seq<Test<Extra, Function>>, keeps: spec_fn(TestMeta<Extra>) -> bool)
    requires
        forall|m: TestMeta<Extra>| #[trigger] keeps(m) == filter.keeps(m.name@),
    ensures
        kept_where(tests, keeps) == filter.kept(tests),
    decreases tests.len(),
{
    if tests.len() > 0 {
        lemma_default_kept_by::<Extra, Function>(filter, tests.drop_last(), keeps);
    }
}

/// Keeping by a predicate that holds of every test keeps every test, in order.
proof fn lemma_no_filter_keeps_all<Extra, Function>(tests: Seq<Test<Extra, Function>>, keeps: spec_fn(TestMeta<Extra>) -> bool)
    requires
        forall|m: TestMeta<Extra>| #[trigger] keeps(m),
    ensures
        kept_where(tests, keeps) == tests,
    decreases tests.len(),
{
    if tests.len() > 0 {
        lemma_no_filter_keeps_all::<Extra, Function>(tests.drop_last(), keeps);
        assert(tests.drop_last().push(tests.last()) =~= tests);
    }
}

} // verus!
