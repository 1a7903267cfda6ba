//! Groups gathered in a `BTreeMap` by key and handed out in increasing key order.

use vstd::laws_cmp::obeys_cmp;
use vstd::multiset::Multiset;
use vstd::prelude::*;
use vstd::std_specs::btree::key_obeys_cmp_spec;
use vstd::std_specs::cmp::OrdSpec;

use std::collections::BTreeMap;

use crate::group::{end_index, groups_view, law_add_counts_one, law_add_holds_test, law_add_keys_test, lemma_pairs_of_remove, lemma_tests_of_remove, lemma_total_remove, pairs_of, placed_at, tests_of, total, TestGroups};
use crate::harness::grouped_test::capped;
use crate::test::Test;

verus! {

broadcast use vstd::std_specs::btree::group_btree_axioms;

/// `BTreeMap::pop_first`: remove and return the entry with the least key. When the key
/// type's ordering obeys its specification: on an empty map the result is `None` and the
/// map stays empty; otherwise the entry was in the map, its key compares less than every
/// other key of the map, and the map afterwards is the map without it. What happens for a
/// key type whose ordering breaks its laws is left unsaid, as std leaves it.
#[verifier::external_body]
fn pop_first_entry<K: Ord, V>(m: &mut BTreeMap<K, V>) -> (r: Option<(K, V)>)
    ensures
        obeys_cmp::<K>() ==> match r {
            None => old(m)@.dom().len() == 0 && final(m)@ == old(m)@,
            Some(kv) => old(m)@.contains_key(kv.0) && old(m)@[kv.0] == kv.1 && final(m)@ == old(m)@.remove(kv.0)
                && forall|j: K| #[trigger] old(m)@.contains_key(j) && j != kv.0 ==> (kv.0.cmp_spec(&j) is Less),
        },
{
    m.pop_first()
}

/// Each key of `groups` once, each group's tests those the map holds for its key, and every
/// key of the map among them.
pub open spec fn mirrors<'m, K, Extra, Function>(
    map: Map<K, Vec<&'m Test<Extra, Function>>>,
    groups: Seq<(K, Seq<&'m Test<Extra, Function>>)>,
) -> bool {
    &&& map.dom().finite()
    &&& map.dom().len() == groups.len()
    &&& forall|i: int, j: int| 0 <= i < j < groups.len() ==> groups[i].0 != groups[j].0
    &&& forall|i: int| 0 <= i < groups.len() ==> #[trigger] map.contains_key(groups[i].0) && map[groups[i].0]@ == groups[i].1
    &&& forall|k: K| #[trigger] map.contains_key(k) ==> exists|i: int| 0 <= i < groups.len() && groups[i].0 == k
}

/// The keys of `groups` in increasing order.
pub open spec fn increasing_keys<K: Ord, T>(groups: Seq<(K, Seq<T>)>) -> bool {
    forall|i: int, j: int| 0 <= i < j < groups.len() ==> (groups[i].0.cmp_spec(&groups[j].0) is Less)
}

/// Groups kept in a `BTreeMap` by key, one group per distinct key, handed out in increasing
/// key order.
pub struct TestGroupBTreeMap<'m, Extra, Function, GroupKey> {
    map: BTreeMap<GroupKey, Vec<&'m Test<Extra, Function>>>,
    count: usize,
    groups: Ghost<Seq<(GroupKey, Seq<&'m Test<Extra, Function>>)>>,
}

impl<'m, Extra, Function, GroupKey> TestGroupBTreeMap<'m, Extra, Function, GroupKey> {
    /// The groups in the order their keys were first added.
    pub closed spec fn added_groups(&self) -> Seq<(GroupKey, Seq<&'m Test<Extra, Function>>)> {
        self.groups@
    }

    #[verifier::type_invariant]
    spec fn inv(&self) -> bool {
        &&& self.count == capped(total(self.groups@))
        &&& key_obeys_cmp_spec::<GroupKey>() ==> mirrors(self.map@, self.groups@)
    }

    /// No groups.
    pub fn new() -> (r: Self)
        ensures
            r.added_groups() == Seq::<(GroupKey, Seq<&'m Test<Extra, Function>>)>::empty(),
    {
        let r = TestGroupBTreeMap { map: BTreeMap::new(), count: 0, groups: Ghost(Seq::empty()) };
        r
    }
}

impl<'m, Extra, Function, GroupKey> Default for TestGroupBTreeMap<'m, Extra, Function, GroupKey> {
    fn default() -> (r: Self)
        ensures
            r.added_groups() == Seq::<(GroupKey, Seq<&'m Test<Extra, Function>>)>::empty(),
    {
        Self::new()
    }
}

/// Append `test` to the group of `key` in `map`, count it, and record it in `groups`: in the
/// group of `key` if there is one, else in a new group at the end.
fn add_entry<'m, Extra, Function, GroupKey: Ord>(
    map: &mut BTreeMap<GroupKey, Vec<&'m Test<Extra, Function>>>,
    count: &mut usize,
    groups: &mut Ghost<Seq<(GroupKey, Seq<&'m Test<Extra, Function>>)>>,
    key: GroupKey,
    test: &'m Test<Extra, Function>,
)
    requires
        *old(count) == capped(total(old(groups)@)),
        key_obeys_cmp_spec::<GroupKey>() ==> mirrors(old(map)@, old(groups)@),
    ensures
        *final(count) == capped(total(final(groups)@)),
        key_obeys_cmp_spec::<GroupKey>() ==> mirrors(final(map)@, final(groups)@),
        exists|i: int| #[trigger] placed_at(old(groups)@, final(groups)@, key, test, i)
            && (i < old(groups)@.len() ==> old(groups)@[i].0 == key)
            && (i == old(groups)@.len() ==> forall|j: int| 0 <= j < i ==> old(groups)@[j].0 != key),
{
    let ghost old_groups = groups@;
    let ghost old_map = map@;
    let ghost found = exists|j: int| 0 <= j < old_groups.len() && old_groups[j].0 == key;
    let ghost i: int = if found {
        choose|j: int| 0 <= j < old_groups.len() && old_groups[j].0 == key
    } else {
        end_index(old_groups)
    };
    let ghost new_groups = if found {
        old_groups.update(i, (old_groups[i].0, old_groups[i].1.push(test)))
    } else {
        old_groups.push((key, seq![test]))
    };
    proof {
        assert(placed_at(old_groups, new_groups, key, test, i));
        law_add_counts_one(old_groups, new_groups, key, test, i);
    }
    let mut tests = match map.remove(&key) {
        Some(v) => v,
        None => Vec::new(),
    };
    let ghost before = tests@;
    tests.push(test);
    map.insert(key, tests);
    *count = count.saturating_add(1);
    *groups = Ghost(new_groups);
    proof {
        if key_obeys_cmp_spec::<GroupKey>() {
            assert(obeys_cmp::<GroupKey>());
            assert(found <==> old_map.contains_key(key));
            if found {
                assert(old_groups[i].0 == key);
                assert(before == old_groups[i].1);
                assert(map@.dom() =~= old_map.dom());
                assert(map@[key]@ == new_groups[i].1);
                assert forall|a: int| 0 <= a < new_groups.len() implies #[trigger] map@.contains_key(new_groups[a].0)
                    && map@[new_groups[a].0]@ == new_groups[a].1 by {
                    if a != i {
                        assert(new_groups[a] == old_groups[a]);
                        assert(old_groups[a].0 != key);
                        assert(old_map.contains_key(old_groups[a].0));
                    }
                }
                assert forall|k: GroupKey| #[trigger] map@.contains_key(k) implies exists|a: int| 0 <= a < new_groups.len() && new_groups[a].0 == k by {
                    assert(old_map.contains_key(k));
                    let a = choose|a: int| 0 <= a < old_groups.len() && old_groups[a].0 == k;
                    assert(new_groups[a].0 == k);
                }
            } else {
                assert(before == Seq::<&'m Test<Extra, Function>>::empty());
                assert(!old_map.contains_key(key));
                assert(map@.dom() =~= old_map.dom().insert(key));
                assert forall|a: int| 0 <= a < new_groups.len() implies #[trigger] map@.contains_key(new_groups[a].0)
                    && map@[new_groups[a].0]@ == new_groups[a].1 by {
                    if a < old_groups.len() {
                        assert(new_groups[a] == old_groups[a]);
                        assert(old_groups[a].0 != key);
                        assert(old_map.contains_key(old_groups[a].0));
                    } else {
                        assert(new_groups[a] == (key, seq![test]));
                        assert(map@[key]@ =~= seq![test]);
                    }
                }
                assert forall|k: GroupKey| #[trigger] map@.contains_key(k) implies exists|a: int| 0 <= a < new_groups.len() && new_groups[a].0 == k by {
                    if k == key {
                        assert(new_groups[end_index(old_groups)].0 == k);
                    } else {
                        assert(old_map.contains_key(k));
                        let a = choose|a: int| 0 <= a < old_groups.len() && old_groups[a].0 == k;
                        assert(new_groups[a].0 == k);
                    }
                }
                assert forall|a: int, b: int| 0 <= a < b < new_groups.len() implies new_groups[a].0 != new_groups[b].0 by {
                    if b == old_groups.len() {
                        assert(old_map.contains_key(old_groups[a].0));
                    }
                }
            }
            assert(mirrors(map@, new_groups));
        }
    }
}

impl<'m, Extra: 'm, Function: 'm, GroupKey: Ord> TestGroups<'m, Extra, Function, GroupKey> for TestGroupBTreeMap<'m, Extra, Function, GroupKey> {
    open spec fn exact() -> bool {
        obeys_cmp::<GroupKey>()
    }

    open spec fn test_count(&self) -> nat {
        total(self.added_groups())
    }

    open spec fn held(&self) -> Multiset<Test<Extra, Function>> {
        tests_of(self.added_groups())
    }

    open spec fn keyed(&self) -> Multiset<(GroupKey, Test<Extra, Function>)> {
        pairs_of(self.added_groups())
    }

    /// Append `test` to the group of `key`, starting that group if there is none.
    fn add(&mut self, key: GroupKey, test: &'m Test<Extra, Function>)
        ensures
            exists|i: int| #[trigger] placed_at(old(self).added_groups(), final(self).added_groups(), key, test, i)
                && (i < old(self).added_groups().len() ==> old(self).added_groups()[i].0 == key)
                && (i == old(self).added_groups().len() ==> forall|j: int| 0 <= j < i ==> old(self).added_groups()[j].0 != key),
    {
        proof {
            use_type_invariant(&*self);
        }
        let mut this = TestGroupBTreeMap::new();
        std::mem::swap(self, &mut this);
        proof {
            use_type_invariant(&this);
        }
        let TestGroupBTreeMap { mut map, mut count, mut groups } = this;
        add_entry(&mut map, &mut count, &mut groups, key, test);
        *self = TestGroupBTreeMap { map, count, groups };
        proof {
            let i = choose|i: int| #[trigger] placed_at(old(self).added_groups(), self.groups@, key, test, i)
                && (i < old(self).added_groups().len() ==> old(self).added_groups()[i].0 == key)
                && (i == old(self).added_groups().len() ==> forall|j: int| 0 <= j < i ==> old(self).added_groups()[j].0 != key);
            law_add_counts_one(old(self).added_groups(), self.groups@, key, test, i);
            law_add_holds_test(old(self).added_groups(), self.groups@, key, test, i);
            law_add_keys_test(old(self).added_groups(), self.groups@, key, test, i);
        }
    }

    /// The number of tests added, or `usize::MAX` when that does not fit.
    fn len(&self) -> (r: usize) {
        proof {
            use_type_invariant(self);
        }
        self.count
    }

    /// All groups in increasing key order, each with its tests in the order they were added.
    fn into_groups(self) -> (r: Vec<(GroupKey, Vec<&'m Test<Extra, Function>>)>)
        ensures
            obeys_cmp::<GroupKey>() ==> increasing_keys(groups_view(r@)),
    {
        proof {
            use_type_invariant(&self);
        }
        let ghost all = self.groups@;
        let TestGroupBTreeMap { map, count: _, groups: _ } = self;
        let mut map = map;
        let n = map.len();
        let mut out: Vec<(GroupKey, Vec<&'m Test<Extra, Function>>)> = Vec::new();
        let ghost mut rest = all;
        let mut i: usize = 0;
        proof {
            assert(groups_view(out@) =~= Seq::<(GroupKey, Seq<&'m Test<Extra, Function>>)>::empty());
            broadcast use vstd::multiset::group_multiset_axioms;
            assert(tests_of(groups_view(out@)).add(tests_of(rest)) =~= tests_of(all));
            assert(pairs_of(groups_view(out@)).add(pairs_of(rest)) =~= pairs_of(all));
        }
        while i < n
            invariant
                i <= n,
                obeys_cmp::<GroupKey>() ==> {
                    &&& mirrors(map@, rest)
                    &&& rest.len() + i <= n
                    &&& total(groups_view(out@)) + total(rest) == total(all)
                    &&& tests_of(groups_view(out@)).add(tests_of(rest)) == tests_of(all)
                    &&& pairs_of(groups_view(out@)).add(pairs_of(rest)) == pairs_of(all)
                    &&& increasing_keys(groups_view(out@))
                    &&& forall|a: int, k: GroupKey| #![trigger out@[a], map@.contains_key(k)] 0 <= a < out@.len() && map@.contains_key(k) ==> (out@[a].0.cmp_spec(&k) is Less)
                },
            decreases n - i,
        {
            let popped = pop_first_entry(&mut map);
            match popped {
                Some(kv) => {
                    let ghost old_out = groups_view(out@);
                    let ghost old_len = out@.len();
                    let ghost key = kv.0;
                    let ghost tests = kv.1@;
                    out.push(kv);
                    proof {
                        if obeys_cmp::<GroupKey>() {
                            assert(groups_view(out@) =~= old_out.push((key, tests)));
                            let j = choose|j: int| 0 <= j < rest.len() && rest[j].0 == key;
                            assert(rest[j].1 == tests);
                            lemma_total_remove(rest, j);
                            lemma_tests_of_remove(rest, j);
                            lemma_pairs_of_remove(rest, j);
                            let next = rest.remove(j);
                            assert(groups_view(out@).drop_last() =~= old_out);
                            assert(tests_of(groups_view(out@)).add(tests_of(next)) =~= tests_of(all)) by {
                                broadcast use vstd::multiset::group_multiset_axioms;
                            }
                            assert(pairs_of(groups_view(out@)).add(pairs_of(next)) =~= pairs_of(all)) by {
                                broadcast use vstd::multiset::group_multiset_axioms;
                            }
                            assert forall|k: GroupKey| #[trigger] map@.contains_key(k) implies exists|a: int| 0 <= a < next.len() && next[a].0 == k by {
                                let b = choose|b: int| 0 <= b < rest.len() && rest[b].0 == k;
                                if b < j {
                                    assert(next[b].0 == k);
                                } else {
                                    assert(b != j);
                                    assert(next[b - 1].0 == k);
                                }
                            }
                            assert(map@.dom().len() == next.len());
                            assert(mirrors(map@, next));
                            assert(increasing_keys(groups_view(out@))) by {
                                assert forall|a: int, b: int| 0 <= a < b < groups_view(out@).len() implies (groups_view(out@)[a].0.cmp_spec(&groups_view(out@)[b].0) is Less) by {
                                    if b == old_len {
                                        assert(out@[a].0 == groups_view(out@)[a].0);
                                    } else {
                                        assert(groups_view(out@)[a] == old_out[a]);
                                        assert(groups_view(out@)[b] == old_out[b]);
                                    }
                                }
                            }
                            rest = next;
                        }
                    }
                    i += 1;
                },
                None => {
                    i = n;
                },
            }
        }
        proof {
            if obeys_cmp::<GroupKey>() {
                assert(rest.len() == 0);
                assert(total(rest) == 0);
                assert(tests_of(rest) =~= Multiset::empty());
                assert(tests_of(groups_view(out@)) =~= tests_of(all)) by {
                    broadcast use vstd::multiset::group_multiset_axioms;
                }
                assert(pairs_of(rest) =~= Multiset::empty());
                assert(pairs_of(groups_view(out@)) =~= pairs_of(all)) by {
                    broadcast use vstd::multiset::group_multiset_axioms;
                }
            }
        }
        out
    }
}

} // verus!
