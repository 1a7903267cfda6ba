//! Grouping tests: deciding a group key per test, collecting the tests of each key, and
//! running a group.

use vstd::prelude::*;
use vstd::multiset::Multiset;

use std::ops::ControlFlow;

use crate::test::{Test, TestMeta};

pub use crate::btree_groups::TestGroupBTreeMap;
pub use crate::hash_groups::TestGroupHashMap;

verus! {

/// Assigns each test to a group, identified by a key, and optionally gives a group a
/// context that formatters and group runners can read.
pub trait TestGrouper<Extra, GroupKey, GroupCtx = ()> {
    /// Holds of the grouper, in its state before a call of `group` for a test with this
    /// metadata, when that call answers `key`. Each grouper may say what it means for it; by
    /// default it says nothing.
    open spec fn gives(&self, meta: TestMeta<Extra>, key: GroupKey) -> bool {
        true
    }

    /// The group key of a test.
    fn group(&mut self, meta: &TestMeta<Extra>) -> (r: GroupKey)
        ensures
            old(self).gives(*meta, r),
    ;

    /// The context of a group; none by default.
    fn group_ctx(&self, key: &GroupKey) -> (r: Option<&GroupCtx>)
        default_ensures
            r is None,
    {
        None
    }
}

/// Call a grouping function on a test (`Fn::call`): the key is one the function can return
/// for this test, as its own postcondition describes it, whenever its precondition holds.
#[verifier::external_body]
fn call_group_fn<Extra, GroupKey, F: Fn(&TestMeta<Extra>) -> GroupKey>(f: &F, meta: &TestMeta<Extra>) -> (r: GroupKey)
    ensures
        call_requires(*f, (meta,)) ==> call_ensures(*f, (meta,), r),
{
    f(meta)
}

impl<F, Extra, GroupKey> TestGrouper<Extra, GroupKey> for F where F: Fn(&TestMeta<Extra>) -> GroupKey {
    /// The key is one the function can return for the test whenever its precondition holds.
    open spec fn gives(&self, meta: TestMeta<Extra>, key: GroupKey) -> bool {
        call_requires(*self, (&meta,)) ==> call_ensures(*self, (&meta,), key)
    }

    /// A function from test metadata to a key groups by that key.
    fn group(&mut self, meta: &TestMeta<Extra>) -> (r: GroupKey)
        ensures
            call_requires(*old(self), (meta,)) ==> call_ensures(*old(self), (meta,), r),
            *final(self) == *old(self),
    {
        call_group_fn(self, meta)
    }
}

/// A collection of groups of tests, filled one test at a time and then handed out group by
/// group.
pub trait TestGroups<'m, Extra: 'm, Function: 'm, GroupKey>: Sized {
    /// Whether the groups handed out hold exactly the tests added: for a map, when its key
    /// type's ordering or hashing obeys its specification.
    spec fn exact() -> bool;

    /// The number of tests added so far.
    spec fn test_count(&self) -> nat;

    /// The tests added so far.
    spec fn held(&self) -> Multiset<Test<Extra, Function>>;

    /// The tests added so far, each with the key it was added under.
    spec fn keyed(&self) -> Multiset<(GroupKey, Test<Extra, Function>)>;

    /// Add a test to the group of `key`.
    fn add(&mut self, key: GroupKey, test: &'m Test<Extra, Function>)
        ensures
            final(self).test_count() == old(self).test_count() + 1,
            final(self).held() == old(self).held().insert(*test),
            final(self).keyed() == old(self).keyed().insert((key, *test)),
    ;

    /// The number of tests in all groups, or `usize::MAX` when that does not fit.
    fn len(&self) -> (r: usize)
        ensures
            r == if self.test_count() <= usize::MAX { self.test_count() } else { usize::MAX as nat },
    ;

    /// Whether no test was added.
    fn is_empty(&self) -> (r: bool)
        ensures
            r == (self.test_count() == 0),
    {
        self.len() == 0
    }

    /// All groups, each with its key and its tests in the order they were added; together
    /// they hold every added test.
    fn into_groups(self) -> (r: Vec<(GroupKey, Vec<&'m Test<Extra, Function>>)>)
        ensures
            Self::exact() ==> total(groups_view(r@)) == self.test_count() && tests_of(groups_view(r@)) == self.held()
                && pairs_of(groups_view(r@)) == self.keyed(),
    ;
}

/// The tests held by a sequence of groups.
pub open spec fn tests_of<'m, K, Extra, Function>(groups: Seq<(K, Seq<&'m Test<Extra, Function>>)>) -> Multiset<Test<Extra, Function>>
    decreases groups.len(),
{
    if groups.len() == 0 {
        Multiset::empty()
    } else {
        tests_of(groups.drop_last()).add(groups.last().1.map_values(|t: &'m Test<Extra, Function>| *t).to_multiset())
    }
}

/// The index just past the last group: where a new group is placed.
pub open spec fn end_index<K, T>(groups: Seq<(K, Seq<T>)>) -> int {
    groups.len() as int
}

/// Taking group `j` out of a sequence of groups takes its tests out of the count.
pub proof fn lemma_total_remove<K, T>(groups: Seq<(K, Seq<T>)>, j: int)
    requires
        0 <= j < groups.len(),
    ensures
        total(groups) == total(groups.remove(j)) + groups[j].1.len(),
    decreases groups.len(),
{
    if j == groups.len() - 1 {
        assert(groups.remove(j) =~= groups.drop_last());
    } else {
        assert(groups.remove(j).drop_last() =~= groups.drop_last().remove(j));
        lemma_total_remove(groups.drop_last(), j);
    }
}

/// Taking group `j` out of a sequence of groups takes its tests out of the tests held.
pub proof fn lemma_tests_of_remove<'m, K, Extra, Function>(groups: Seq<(K, Seq<&'m Test<Extra, Function>>)>, j: int)
    requires
        0 <= j < groups.len(),
    ensures
        tests_of(groups) == tests_of(groups.remove(j)).add(groups[j].1.map_values(|t: &'m Test<Extra, Function>| *t).to_multiset()),
    decreases groups.len(),
{
    broadcast use vstd::multiset::group_multiset_axioms;

    if j == groups.len() - 1 {
        assert(groups.remove(j) =~= groups.drop_last());
    } else {
        assert(groups.remove(j).drop_last() =~= groups.drop_last().remove(j));
        lemma_tests_of_remove(groups.drop_last(), j);
        assert(tests_of(groups) =~= tests_of(groups.remove(j)).add(groups[j].1.map_values(|t: &'m Test<Extra, Function>| *t).to_multiset()));
    }
}

/// The tests held by a sequence of groups, each with the key of its group.
pub open spec fn pairs_of<'m, K, Extra, Function>(groups: Seq<(K, Seq<&'m Test<Extra, Function>>)>) -> Multiset<(K, Test<Extra, Function>)>
    decreases groups.len(),
{
    if groups.len() == 0 {
        Multiset::empty()
    } else {
        let g = groups.last();
        pairs_of(groups.drop_last()).add(g.1.map_values(|t: &'m Test<Extra, Function>| (g.0, *t)).to_multiset())
    }
}

/// Taking group `j` out of a sequence of groups takes its keyed tests out of those held.
pub proof fn lemma_pairs_of_remove<'m, K, Extra, Function>(groups: Seq<(K, Seq<&'m Test<Extra, Function>>)>, j: int)
    requires
        0 <= j < groups.len(),
    ensures
        pairs_of(groups) == pairs_of(groups.remove(j)).add(groups[j].1.map_values(|t: &'m Test<Extra, Function>| (groups[j].0, *t)).to_multiset()),
    decreases groups.len(),
{
    broadcast use vstd::multiset::group_multiset_axioms;

    if j == groups.len() - 1 {
        assert(groups.remove(j) =~= groups.drop_last());
    } else {
        assert(groups.remove(j).drop_last() =~= groups.drop_last().remove(j));
        lemma_pairs_of_remove(groups.drop_last(), j);
        assert(pairs_of(groups) =~= pairs_of(groups.remove(j)).add(groups[j].1.map_values(|t: &'m Test<Extra, Function>| (groups[j].0, *t)).to_multiset()));
    }
}

/// Adding a test under `key` to the group of `key` adds the pair to the keyed tests the
/// groups hold.
pub proof fn law_add_keys_test<'m, K, Extra, Function>(
    old: Seq<(K, Seq<&'m Test<Extra, Function>>)>,
    new: Seq<(K, Seq<&'m Test<Extra, Function>>)>,
    key: K,
    test: &'m Test<Extra, Function>,
    i: int,
)
    requires
        placed_at(old, new, key, test, i),
        i < old.len() ==> old[i].0 == key,
    ensures
        pairs_of(new) == pairs_of(old).insert((key, *test)),
    decreases old.len(),
{
    broadcast use vstd::multiset::group_multiset_axioms, vstd::seq_lib::to_multiset_build, vstd::seq_lib::to_multiset_contains;

    if i == old.len() {
        assert(new.drop_last() =~= old);
        let one = new.last().1.map_values(|t: &'m Test<Extra, Function>| (new.last().0, *t));
        assert(one =~= Seq::<(K, Test<Extra, Function>)>::empty().push((key, *test)));
        assert(Seq::<(K, Test<Extra, Function>)>::empty().to_multiset() =~= Multiset::empty());
        assert(pairs_of(new) =~= pairs_of(old).insert((key, *test)));
    } else if i == old.len() - 1 {
        assert(new.drop_last() =~= old.drop_last());
        let before = old.last().1.map_values(|t: &'m Test<Extra, Function>| (old.last().0, *t));
        assert(new.last().1.map_values(|t: &'m Test<Extra, Function>| (new.last().0, *t)) =~= before.push((key, *test)));
        assert(pairs_of(new) =~= pairs_of(old).insert((key, *test)));
    } else {
        let smaller = old.drop_last().update(i, (old[i].0, old[i].1.push(test)));
        assert(smaller =~= new.drop_last());
        law_add_keys_test(old.drop_last(), smaller, key, test, i);
        assert(new.last() == old.last());
        assert(pairs_of(new) =~= pairs_of(old).insert((key, *test)));
    }
}

/// Adding a test to a group adds it to the tests the groups hold.
pub proof fn law_add_holds_test<'m, K, Extra, Function>(
    old: Seq<(K, Seq<&'m Test<Extra, Function>>)>,
    new: Seq<(K, Seq<&'m Test<Extra, Function>>)>,
    key: K,
    test: &'m Test<Extra, Function>,
    i: int,
)
    requires
        placed_at(old, new, key, test, i),
    ensures
        tests_of(new) == tests_of(old).insert(*test),
    decreases old.len(),
{
    broadcast use vstd::multiset::group_multiset_axioms, vstd::seq_lib::to_multiset_build, vstd::seq_lib::to_multiset_contains;

    if i == old.len() {
        assert(new.drop_last() =~= old);
        let one = new.last().1.map_values(|t: &'m Test<Extra, Function>| *t);
        assert(one =~= Seq::<Test<Extra, Function>>::empty().push(*test));
        assert(Seq::<Test<Extra, Function>>::empty().to_multiset() =~= Multiset::empty());
        assert(tests_of(new) =~= tests_of(old).insert(*test));
    } else if i == old.len() - 1 {
        assert(new.drop_last() =~= old.drop_last());
        let before = old.last().1.map_values(|t: &'m Test<Extra, Function>| *t);
        assert(new.last().1.map_values(|t: &'m Test<Extra, Function>| *t) =~= before.push(*test));
        assert(tests_of(new) =~= tests_of(old).insert(*test));
    } else {
        let smaller = old.drop_last().update(i, (old[i].0, old[i].1.push(test)));
        assert(smaller =~= new.drop_last());
        law_add_holds_test(old.drop_last(), smaller, key, test, i);
        assert(new.last() == old.last());
        assert(tests_of(new) =~= tests_of(old).insert(*test));
    }
}

/// Groups with each group's tests taken as a sequence.
pub open spec fn groups_view<K, T>(groups: Seq<(K, Vec<T>)>) -> Seq<(K, Seq<T>)> {
    groups.map_values(|g: (K, Vec<T>)| (g.0, g.1@))
}

/// The number of tests in a sequence of groups.
pub open spec fn total<K, T>(groups: Seq<(K, Seq<T>)>) -> nat
    decreases groups.len(),
{
    if groups.len() == 0 {
        0
    } else {
        total(groups.drop_last()) + groups.last().1.len()
    }
}

/// `new` is `old` with `test` appended to group `i`, or, when `i` is the length of `old`,
/// with a new group of `key` holding only `test` at the end.
pub open spec fn placed_at<K, T>(old: Seq<(K, Seq<T>)>, new: Seq<(K, Seq<T>)>, key: K, test: T, i: int) -> bool {
    if i == old.len() {
        new == old.push((key, seq![test]))
    } else {
        0 <= i < old.len() && new == old.update(i, (old[i].0, old[i].1.push(test)))
    }
}

/// Adding a test to a group adds one to the number of tests in all groups.
pub proof fn law_add_counts_one<K, T>(old: Seq<(K, Seq<T>)>, new: Seq<(K, Seq<T>)>, key: K, test: T, i: int)
    requires
        placed_at(old, new, key, test, i),
    ensures
        total(new) == total(old) + 1,
    decreases old.len(),
{
    if i == old.len() {
        assert(new.drop_last() =~= old);
    } else if i == old.len() - 1 {
        assert(new.drop_last() =~= old.drop_last());
    } else {
        let smaller = old.drop_last().update(i, (old[i].0, old[i].1.push(test)));
        assert(smaller =~= new.drop_last());
        law_add_counts_one(old.drop_last(), smaller, key, test, i);
    }
}

/// Runs a group: whatever preparation and teardown a group needs around running its tests.
/// A group runner may stop the run after a group by answering `Break`.
pub trait TestGroupRunner<Extra, GroupKey, GroupCtx> {
    /// Whether this runner always lets the run go on after a group.
    spec fn always_continues(&self) -> bool;

    /// Run the group by calling `f` once; `Continue` with what it returned lets the run go
    /// on, `Break` with it ends the run after this group.
    fn run_group<F, T>(&self, f: F, key: &GroupKey, ctx: Option<&GroupCtx>) -> (r: ControlFlow<T, T>)
        where F: FnOnce() -> T,
        requires
            call_requires(f, ()),
        ensures
            call_ensures(f, (), flow_value(r)),
            self.always_continues() ==> r is Continue,
    ;
}

/// What a group run gave back, whether it lets the run go on or not.
pub open spec fn flow_value<T>(flow: ControlFlow<T, T>) -> T {
    match flow {
        ControlFlow::Continue(t) => t,
        ControlFlow::Break(t) => t,
    }
}

/// A group runner that runs each group and lets the run go on.
#[derive(Debug, Default, Clone, Copy)]
pub struct SimpleGroupRunner;

impl SimpleGroupRunner {
    /// Call `f` and go on with its result.
    pub fn run<F, T>(&self, f: F) -> (r: ControlFlow<T, T>)
        where F: FnOnce() -> T,
        requires
            call_requires(f, ()),
        ensures
            r matches ControlFlow::Continue(t) && call_ensures(f, (), t),
    {
        ControlFlow::Continue(f())
    }
}

impl<Extra, GroupKey, GroupCtx> TestGroupRunner<Extra, GroupKey, GroupCtx> for SimpleGroupRunner {
    /// The run always goes on.
    open spec fn always_continues(&self) -> bool {
        true
    }

    fn run_group<F, T>(&self, f: F, key: &GroupKey, ctx: Option<&GroupCtx>) -> (r: ControlFlow<T, T>)
        where F: FnOnce() -> T,
    {
        self.run(f)
    }
}

/// What a group run gave back, and whether the run stops after this group.
pub fn settle_group<T>(flow: ControlFlow<T, T>) -> (r: (T, bool))
    ensures
        match flow {
            ControlFlow::Continue(t) => r == (t, false),
            ControlFlow::Break(t) => r == (t, true),
        },
{
    match flow {
        ControlFlow::Continue(t) => (t, false),
        ControlFlow::Break(t) => (t, true),
    }
}

} // verus!
