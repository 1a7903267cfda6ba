//! Groups gathered in a `HashMap` by key; the order in which they are handed out is the
//! map's.

use vstd::multiset::Multiset;
use vstd::prelude::*;
use vstd::std_specs::hash::{builds_valid_hashers, obeys_key_model};

use std::collections::HashMap;
use std::hash::{BuildHasher, Hash};

use crate::btree_groups::mirrors;
use crate::group::{
    end_index, groups_view, law_add_counts_one, law_add_holds_test, law_add_keys_test, lemma_pairs_of_remove, lemma_tests_of_remove,
    lemma_total_remove, pairs_of, placed_at, tests_of, total, TestGroups,
};
use crate::harness::grouped_test::capped;
use crate::test::Test;

verus! {

broadcast use vstd::std_specs::hash::group_hash_axioms;

/// `Vec::from_iter` on a `HashMap`: its entries in the map's iteration order. When the key
/// type obeys the hash table model and the hasher is valid, each entry of the map comes
/// once, with its value; the order is left unsaid, as it depends on the hasher's seed.
#[verifier::external_body]
fn entries_of<K, V, S>(m: HashMap<K, V, S>) -> (r: Vec<(K, V)>)
    ensures
        obeys_key_model::<K>() && builds_valid_hashers::<S>() ==> {
            &&& r@.len() == m@.dom().len()
            &&& forall|i: int| 0 <= i < r@.len() ==> #[trigger] m@.contains_key(r@[i].0) && m@[r@[i].0] == r@[i].1
            &&& forall|i: int, j: int| 0 <= i < j < r@.len() ==> r@[i].0 != r@[j].0
        },
{
    Vec::from_iter(m)
}

/// Two sequences of groups with the same groups, each key once, in any order, count the
/// same tests and hold the same tests.
pub proof fn lemma_same_groups<'m, K, Extra, Function>(
    a: Seq<(K, Seq<&'m Test<Extra, Function>>)>,
    b: Seq<(K, Seq<&'m Test<Extra, Function>>)>,
)
    requires
        a.len() == b.len(),
        forall|i: int, j: int| 0 <= i < j < a.len() ==> a[i].0 != a[j].0,
        forall|i: int, j: int| 0 <= i < j < b.len() ==> b[i].0 != b[j].0,
        forall|i: int| 0 <= i < a.len() ==> b.contains(#[trigger] a[i]),
    ensures
        total(a) == total(b),
        tests_of(a) == tests_of(b),
        pairs_of(a) == pairs_of(b),
    decreases a.len(),
{
    if a.len() > 0 {
        let n = a.len() - 1;
        let x = a[n];
        assert(b.contains(a[n]));
        let j = choose|j: int| 0 <= j < b.len() && b[j] == x;
        let a2 = a.drop_last();
        let b2 = b.remove(j);
        assert(b2.len() == a2.len());
        assert forall|i: int| 0 <= i < a2.len() implies b2.contains(#[trigger] a2[i]) by {
            assert(a2[i] == a[i]);
            assert(b.contains(a[i]));
            let k = choose|k: int| 0 <= k < b.len() && b[k] == a[i];
            assert(a[i].0 != a[n].0);
            if k < j {
                assert(b2[k] == b[k]);
            } else {
                assert(k != j);
                assert(b2[k - 1] == b[k]);
            }
        }
        assert forall|i: int, k: int| 0 <= i < k < b2.len() implies b2[i].0 != b2[k].0 by {
            if i < j && k < j {
            } else if i < j {
                assert(b2[k] == b[k + 1]);
            } else {
                assert(b2[i] == b[i + 1] && b2[k] == b[k + 1]);
            }
        }
        lemma_same_groups(a2, b2);
        lemma_total_remove(b, j);
        lemma_tests_of_remove(b, j);
        lemma_pairs_of_remove(b, j);
    }
}

/// Groups kept in a `HashMap` by key, one group per distinct key.
#[verifier::reject_recursive_types(S)]
pub struct TestGroupHashMap<'m, Extra, Function, GroupKey, S = std::hash::RandomState> {
    map: HashMap<GroupKey, Vec<&'m Test<Extra, Function>>, S>,
    count: usize,
    groups: Ghost<Seq<(GroupKey, Seq<&'m Test<Extra, Function>>)>>,
}

impl<'m, Extra, Function, GroupKey, S> TestGroupHashMap<'m, Extra, Function, GroupKey, S> {
    /// The groups in the order their keys were first added.
    pub closed spec fn added_groups(&self) -> Seq<(GroupKey, Seq<&'m Test<Extra, Function>>)> {
        self.groups@
    }

    #[verifier::type_invariant]
    spec fn inv(&self) -> bool {
        &&& self.count == capped(total(self.groups@))
        &&& obeys_key_model::<GroupKey>() && builds_valid_hashers::<S>() ==> mirrors(self.map@, self.groups@)
    }
}

impl<'m, Extra, Function, GroupKey, S: Default> TestGroupHashMap<'m, Extra, Function, GroupKey, S> {
    /// No groups.
    pub fn new() -> (r: Self)
        ensures
            r.added_groups() == Seq::<(GroupKey, Seq<&'m Test<Extra, Function>>)>::empty(),
    {
        TestGroupHashMap { map: HashMap::default(), count: 0, groups: Ghost(Seq::empty()) }
    }
}

impl<'m, Extra, Function, GroupKey, S: Default> Default for TestGroupHashMap<'m, Extra, Function, GroupKey, S> {
    fn default() -> (r: Self)
        ensures
            r.added_groups() == Seq::<(GroupKey, Seq<&'m Test<Extra, Function>>)>::empty(),
    {
        Self::new()
    }
}

/// Append `test` to the group of `key` in `map`, count it, and record it in `groups`: in the
/// group of `key` if there is one, else in a new group at the end.
fn add_entry<'m, Extra, Function, GroupKey: Eq + Hash, S: BuildHasher>(
    map: &mut HashMap<GroupKey, Vec<&'m Test<Extra, Function>>, S>,
    count: &mut usize,
    groups: &mut Ghost<Seq<(GroupKey, Seq<&'m Test<Extra, Function>>)>>,
    key: GroupKey,
    test: &'m Test<Extra, Function>,
)
    requires
        *old(count) == capped(total(old(groups)@)),
        obeys_key_model::<GroupKey>() && builds_valid_hashers::<S>() ==> mirrors(old(map)@, old(groups)@),
    ensures
        *final(count) == capped(total(final(groups)@)),
        obeys_key_model::<GroupKey>() && builds_valid_hashers::<S>() ==> mirrors(final(map)@, final(groups)@),
        exists|i: int| #[trigger] placed_at(old(groups)@, final(groups)@, key, test, i)
            && (i < old(groups)@.len() ==> old(groups)@[i].0 == key)
            && (i == old(groups)@.len() ==> forall|j: int| 0 <= j < i ==> old(groups)@[j].0 != key),
{
    let ghost old_groups = groups@;
    let ghost old_map = map@;
    let ghost found = exists|j: int| 0 <= j < old_groups.len() && old_groups[j].0 == key;
    let ghost i: int = if found {
        choose|j: int| 0 <= j < old_groups.len() && old_groups[j].0 == key
    } else {
        end_index(old_groups)
    };
    let ghost new_groups = if found {
        old_groups.update(i, (old_groups[i].0, old_groups[i].1.push(test)))
    } else {
        old_groups.push((key, seq![test]))
    };
    proof {
        assert(placed_at(old_groups, new_groups, key, test, i));
        law_add_counts_one(old_groups, new_groups, key, test, i);
    }
    let mut tests = match map.remove(&key) {
        Some(v) => v,
        None => Vec::new(),
    };
    let ghost before = tests@;
    tests.push(test);
    map.insert(key, tests);
    *count = count.saturating_add(1);
    *groups = Ghost(new_groups);
    proof {
        if obeys_key_model::<GroupKey>() && builds_valid_hashers::<S>() {
            assert(found <==> old_map.contains_key(key));
            if found {
                assert(old_groups[i].0 == key);
                assert(before == old_groups[i].1);
                assert(map@.dom() =~= old_map.dom());
                assert(map@[key]@ == new_groups[i].1);
                assert forall|a: int| 0 <= a < new_groups.len() implies #[trigger] map@.contains_key(new_groups[a].0)
                    && map@[new_groups[a].0]@ == new_groups[a].1 by {
                    if a != i {
                        assert(new_groups[a] == old_groups[a]);
                        assert(old_groups[a].0 != key);
                        assert(old_map.contains_key(old_groups[a].0));
                    }
                }
                assert forall|k: GroupKey| #[trigger] map@.contains_key(k) implies exists|a: int| 0 <= a < new_groups.len() && new_groups[a].0 == k by {
                    assert(old_map.contains_key(k));
                    let a = choose|a: int| 0 <= a < old_groups.len() && old_groups[a].0 == k;
                    assert(new_groups[a].0 == k);
                }
            } else {
                assert(before == Seq::<&'m Test<Extra, Function>>::empty());
                assert(!old_map.contains_key(key));
                assert(map@.dom() =~= old_map.dom().insert(key));
                assert forall|a: int| 0 <= a < new_groups.len() implies #[trigger] map@.contains_key(new_groups[a].0)
                    && map@[new_groups[a].0]@ == new_groups[a].1 by {
                    if a < old_groups.len() {
                        assert(new_groups[a] == old_groups[a]);
                        assert(old_groups[a].0 != key);
                        assert(old_map.contains_key(old_groups[a].0));
                    } else {
                        assert(new_groups[a] == (key, seq![test]));
                        assert(map@[key]@ =~= seq![test]);
                    }
                }
                assert forall|k: GroupKey| #[trigger] map@.contains_key(k) implies exists|a: int| 0 <= a < new_groups.len() && new_groups[a].0 == k by {
                    if k == key {
                        assert(new_groups[end_index(old_groups)].0 == k);
                    } else {
                        assert(old_map.contains_key(k));
                        let a = choose|a: int| 0 <= a < old_groups.len() && old_groups[a].0 == k;
                        assert(new_groups[a].0 == k);
                    }
                }
                assert forall|a: int, b: int| 0 <= a < b < new_groups.len() implies new_groups[a].0 != new_groups[b].0 by {
                    if b == old_groups.len() {
                        assert(old_map.contains_key(old_groups[a].0));
                    }
                }
            }
            assert(mirrors(map@, new_groups));
        }
    }
}

impl<'m, Extra: 'm, Function: 'm, GroupKey: Eq + Hash, S: BuildHasher + Default> TestGroups<'m, Extra, Function, GroupKey> for TestGroupHashMap<'m, Extra, Function, GroupKey, S> {
    open spec fn exact() -> bool {
        obeys_key_model::<GroupKey>() && builds_valid_hashers::<S>()
    }

    open spec fn test_count(&self) -> nat {
        total(self.added_groups())
    }

    open spec fn held(&self) -> Multiset<Test<Extra, Function>> {
        tests_of(self.added_groups())
    }

    open spec fn keyed(&self) -> Multiset<(GroupKey, Test<Extra, Function>)> {
        pairs_of(self.added_groups())
    }

    /// Append `test` to the group of `key`, starting that group if there is none.
    fn add(&mut self, key: GroupKey, test: &'m Test<Extra, Function>)
        ensures
            exists|i: int| #[trigger] placed_at(old(self).added_groups(), final(self).added_groups(), key, test, i)
                && (i < old(self).added_groups().len() ==> old(self).added_groups()[i].0 == key)
                && (i == old(self).added_groups().len() ==> forall|j: int| 0 <= j < i ==> old(self).added_groups()[j].0 != key),
    {
        proof {
            use_type_invariant(&*self);
        }
        let mut this = TestGroupHashMap { map: HashMap::default(), count: 0, groups: Ghost(Seq::empty()) };
        std::mem::swap(self, &mut this);
        proof {
            use_type_invariant(&this);
        }
        let TestGroupHashMap { mut map, mut count, mut groups } = this;
        add_entry(&mut map, &mut count, &mut groups, key, test);
        *self = TestGroupHashMap { map, count, groups };
        proof {
            let i = choose|i: int| #[trigger] placed_at(old(self).added_groups(), self.groups@, key, test, i)
                && (i < old(self).added_groups().len() ==> old(self).added_groups()[i].0 == key)
                && (i == old(self).added_groups().len() ==> forall|j: int| 0 <= j < i ==> old(self).added_groups()[j].0 != key);
            law_add_counts_one(old(self).added_groups(), self.groups@, key, test, i);
            law_add_holds_test(old(self).added_groups(), self.groups@, key, test, i);
            law_add_keys_test(old(self).added_groups(), self.groups@, key, test, i);
        }
    }

    /// The number of tests added, or `usize::MAX` when that does not fit.
    fn len(&self) -> (r: usize) {
        proof {
            use_type_invariant(self);
        }
        self.count
    }

    /// All groups, in the map's order, each with its tests in the order they were added.
    fn into_groups(self) -> (r: Vec<(GroupKey, Vec<&'m Test<Extra, Function>>)>) {
        proof {
            use_type_invariant(&self);
        }
        let ghost all = self.groups@;
        let TestGroupHashMap { map, count: _, groups: _ } = self;
        let ghost m = map@;
        let r = entries_of(map);
        proof {
            if obeys_key_model::<GroupKey>() && builds_valid_hashers::<S>() {
                let out = groups_view(r@);
                assert forall|i: int| 0 <= i < out.len() implies all.contains(#[trigger] out[i]) by {
                    assert(m.contains_key(r@[i].0));
                    let j = choose|j: int| 0 <= j < all.len() && all[j].0 == r@[i].0;
                    assert(all[j] == out[i]);
                }
                lemma_same_groups(out, all);
            }
        }
        r
    }
}

} // verus!
