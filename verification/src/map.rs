//! Key-value stores are observed value by value, each key with its own observer; keys that
//! disappeared are reported as removed.
use std::collections::HashMap;
use std::hash::Hash;

use vstd::prelude::*;
use vstd::std_specs::hash::obeys_key_model;

use crate::manual::{MapChanges, TriviallyObservable};
use crate::{is_fresh_observer, Changes, Observable, ObservableLaws, Observer};

verus! {

/// The keys of `K` follow the hash table model of vstd, and cloning a key gives an equal key.
pub open spec fn keys_modeled<K: Clone>() -> bool {
    &&& obeys_key_model::<K>()
    &&& forall|a: K, b: K| #[trigger] call_ensures(K::clone, (&a,), b) ==> a == b
}

/// The value `v` at key `k` can be pulled against the observer kept for `k` (a fresh one
/// when `before` has none).
pub open spec fn entry_can_pull<'b, K, V: Observable>(v: V, before: Map<K, Observer<'b, V>>, k: K) -> bool {
    if before.contains_key(k) {
        v.can_pull(before[k].inner)
    } else {
        forall|o: V::Observer<'b>| is_fresh_observer::<V>(o) ==> v.can_pull(o)
    }
}

/// The value `v` at key `k` was pulled against the observer kept for `k` (a fresh one when
/// `before` has none), reporting `changes` and leaving `after`.
pub open spec fn entry_pulled<'a, 'b, K, V: Observable>(
    v: V,
    before: Map<K, Observer<'b, V>>,
    k: K,
    after: V::Observer<'b>,
    changes: V::Changes<'a>,
) -> bool {
    if before.contains_key(k) {
        v.pulled(before[k].inner, after, changes)
    } else {
        exists|o: V::Observer<'b>| is_fresh_observer::<V>(o) && v.pulled(o, after, changes)
    }
}

/// Every value of `state` can be pulled against the observer kept for its key.
pub open spec fn entries_can_pull<'b, K, V: Observable>(state: Map<K, V>, before: Map<K, Observer<'b, V>>) -> bool {
    forall|k: K| #[trigger] state.contains_key(k) ==> entry_can_pull(state[k], before, k)
}

/// `changed` holds, once per key of `state`, the key and what the pull of its value
/// reported; `after` keeps, for each key of `state` and no other, the observer left by
/// that pull.
pub open spec fn entries_pulled<'a, 'b, K, V: Observable>(
    state: Map<K, V>,
    before: Map<K, Observer<'b, V>>,
    after: Map<K, Observer<'b, V>>,
    changed: Seq<(&'a K, V::Changes<'a>)>,
) -> bool {
    &&& after.dom() == state.dom()
    &&& changed.len() == state.dom().len()
    &&& forall|i: int, j: int| 0 <= i < j < changed.len() ==> *changed[i].0 != *changed[j].0
    &&& forall|i: int|
        #![trigger changed[i]]
        0 <= i < changed.len() ==> {
            let k = *changed[i].0;
            &&& state.contains_key(k)
            &&& entry_pulled(state[k], before, k, after[k].inner, changed[i].1)
        }
    &&& forall|k: K| #[trigger] state.contains_key(k) ==> exists|i: int| 0 <= i < changed.len() && *changed[i].0 == k
}

/// The keys of the entries of `changed`, in order.
pub open spec fn changed_keys<'a, K, C>(changed: Seq<(&'a K, C)>) -> Seq<K> {
    Seq::new(changed.len(), |i: int| *changed[i].0)
}

/// Distinct keys, all in `dom`, as many as `dom` has: they are the keys of `dom`.
proof fn lemma_distinct_keys_cover<K>(keys: Seq<K>, dom: Set<K>)
    requires
        dom.finite(),
        keys.no_duplicates(),
        keys.len() == dom.len(),
        forall|i: int| 0 <= i < keys.len() ==> dom.contains(#[trigger] keys[i]),
    ensures
        keys.to_set() == dom,
{
    keys.unique_seq_to_set();
    assert(keys.to_set().subset_of(dom)) by {
        assert forall|k: K| keys.to_set().contains(k) implies dom.contains(k) by {
            let i = choose|i: int| 0 <= i < keys.len() && keys[i] == k;
        }
    }
    vstd::set_lib::lemma_subset_equality(keys.to_set(), dom);
}

/// Pulls the value of every entry of `map` against the observer kept for its key (a fresh
/// one for a new key), and keeps the observer it leaves under that key.
fn pull_entries<'a, 'b, K: Hash + Eq + Clone, V: Observable>(
    map: &'a HashMap<K, V>,
    observers: &mut HashMap<K, Observer<'b, V>>,
) -> (changed: Vec<(&'a K, Changes<'a, V>)>)
    requires
        keys_modeled::<K>(),
        entries_can_pull(map@, old(observers)@),
    ensures
        final(observers)@.dom() == old(observers)@.dom().union(map@.dom()),
        forall|k: K| #[trigger] old(observers)@.contains_key(k) && !map@.contains_key(k)
            ==> final(observers)@[k] == old(observers)@[k],
        entries_pulled(map@, old(observers)@, final(observers)@.restrict(map@.dom()), changed@),
{
    let ghost before = observers@;
    let mut changed: Vec<(&'a K, Changes<'a, V>)> = Vec::new();
    for entry in it: map.iter()
        invariant
            keys_modeled::<K>(),
            entries_can_pull(map@, before),
            it.seq().len() == map@.dom().len(),
            it.seq().no_duplicates(),
            forall|i: int| 0 <= i < it.seq().len() ==> map@.contains_key(*(#[trigger] it.seq()[i]).0)
                && map@[*it.seq()[i].0] == *it.seq()[i].1,
            changed@.len() == it.index(),
            forall|i: int| 0 <= i < it.index() ==> *(#[trigger] changed@[i]).0 == *it.seq()[i].0,
            changed_keys(changed@).no_duplicates(),
            forall|i: int|
                #![trigger changed@[i]]
                0 <= i < changed@.len() ==> {
                    let k = *changed@[i].0;
                    &&& map@.contains_key(k)
                    &&& observers@.contains_key(k)
                    &&& entry_pulled(map@[k], before, k, observers@[k].inner, changed@[i].1)
                },
            observers@.dom() == before.dom().union(changed_keys(changed@).to_set()),
            forall|k: K| #[trigger] observers@.contains_key(k) && !changed_keys(changed@).contains(k)
                ==> observers@[k] == before[k],
    {
        let (k, v) = entry;
        proof {
            assert(it.seq()[it.index()] == (k, v));
            assert(!changed_keys(changed@).contains(*k)) by {
                if changed_keys(changed@).contains(*k) {
                    let i = choose|i: int| 0 <= i < changed@.len() && changed_keys(changed@)[i] == *k;
                    assert(changed@[i].0 == it.seq()[i].0);
                    assert(it.seq()[i] == it.seq()[it.index()]);
                }
            }
            assert(entry_can_pull(map@[*k], before, *k));
        }
        let mut o = match observers.remove(k) {
            Some(o) => o,
            None => Observer::default(),
        };
        let ghost o_start = o.inner;
        let c = v.pull_changes(&mut o);
        let key = k.clone();
        observers.insert(key, o);
        let ghost prev_changed = changed@;
        changed.push((k, c));
        proof {
            assert(changed_keys(changed@) == changed_keys(prev_changed).push(*k));
            assert(changed_keys(changed@).to_set() == changed_keys(prev_changed).to_set().insert(*k)) by {
                assert forall|x: K| changed_keys(changed@).to_set().contains(x) == changed_keys(prev_changed).to_set().insert(*k).contains(x) by {
                    if changed_keys(changed@).to_set().contains(x) && x != *k {
                        let i = choose|i: int| 0 <= i < changed_keys(changed@).len() && changed_keys(changed@)[i] == x;
                        assert(changed_keys(prev_changed)[i] == x);
                    }
                    if changed_keys(prev_changed).to_set().contains(x) {
                        let i = choose|i: int| 0 <= i < changed_keys(prev_changed).len() && changed_keys(prev_changed)[i] == x;
                        assert(changed_keys(changed@)[i] == x);
                    }
                    if x == *k {
                        assert(changed_keys(changed@)[prev_changed.len() as int] == x);
                    }
                }
            }
            if !before.contains_key(*k) {
                assert(is_fresh_observer::<V>(o_start));
            }
            assert forall|i: int|
                #![trigger changed@[i]]
                0 <= i < changed@.len() implies {
                    let kk = *changed@[i].0;
                    &&& map@.contains_key(kk)
                    &&& observers@.contains_key(kk)
                    &&& entry_pulled(map@[kk], before, kk, observers@[kk].inner, changed@[i].1)
                } by {
                if i < prev_changed.len() {
                    assert(changed@[i] == prev_changed[i]);
                    assert(changed_keys(prev_changed)[i] == *changed@[i].0);
                }
            }
            assert forall|x: K| #[trigger] observers@.contains_key(x) && !changed_keys(changed@).contains(x)
                implies observers@[x] == before[x] by {
                if changed_keys(prev_changed).contains(x) {
                    let i = choose|i: int| 0 <= i < prev_changed.len() && changed_keys(prev_changed)[i] == x;
                    assert(changed_keys(changed@)[i] == x);
                }
                assert(changed_keys(changed@)[prev_changed.len() as int] == *k);
            }
        }
    }
    proof {
        lemma_distinct_keys_cover(changed_keys(changed@), map@.dom());
        assert forall|k: K| #[trigger] map@.contains_key(k) implies exists|i: int| 0 <= i < changed@.len() && *changed@[i].0 == k by {
            assert(changed_keys(changed@).to_set().contains(k));
            let i = choose|i: int| 0 <= i < changed_keys(changed@).len() && changed_keys(changed@)[i] == k;
            assert(*changed@[i].0 == k);
        }
        assert forall|k: K| #[trigger] before.contains_key(k) && !map@.contains_key(k) implies observers@[k] == before[k] by {
            if changed_keys(changed@).contains(k) {
                let i = choose|i: int| 0 <= i < changed@.len() && changed_keys(changed@)[i] == k;
                assert(*changed@[i].0 == changed_keys(changed@)[i]);
                assert(map@.contains_key(*changed@[i].0));
            }
            assert(observers@.contains_key(k));
        }
        assert(observers@.restrict(map@.dom()).dom() =~= map@.dom());
        assert forall|i: int, j: int| 0 <= i < j < changed@.len() implies *changed@[i].0 != *changed@[j].0 by {
            assert(changed_keys(changed@)[i] == *changed@[i].0);
            assert(changed_keys(changed@)[j] == *changed@[j].0);
        }
    }
    changed
}

/// Removes from `observers` the keys that `map` does not have, and returns them.
fn remove_stale_keys<K: Hash + Eq + Clone, V, O>(
    map: &HashMap<K, V>,
    observers: &mut HashMap<K, O>,
) -> (removed: Vec<K>)
    requires
        keys_modeled::<K>(),
        map@.dom().subset_of(old(observers)@.dom()),
    ensures
        final(observers)@ == old(observers)@.restrict(map@.dom()),
        removed@.no_duplicates(),
        removed@.to_set() == old(observers)@.dom().difference(map@.dom()),
{
    let ghost start = observers@;
    proof {
        vstd::set_lib::lemma_len_subset(map@.dom(), start.dom());
    }
    let n_removed = observers.len() - map.len();
    let mut removed: Vec<K> = Vec::with_capacity(n_removed);
    if n_removed > 0 {
        let ghost mut visited: Set<K> = Set::empty();
        for key in it: observers.keys()
            invariant
                keys_modeled::<K>(),
                observers@ == start,
                it.seq().len() == start.dom().len(),
                it.seq().no_duplicates(),
                it.seq().unref().to_set() == start.dom(),
                visited.finite(),
                visited.len() == it.index(),
                visited.subset_of(start.dom()),
                forall|k: K| #[trigger] visited.contains(k) ==> exists|i: int| 0 <= i < it.index() && *it.seq()[i] == k,
                forall|k: K| #[trigger] visited.contains(k) && !map@.contains_key(k) ==> removed@.contains(k),
                forall|j: int| 0 <= j < removed@.len() ==> visited.contains(#[trigger] removed@[j]) && !map@.contains_key(removed@[j]),
                removed@.no_duplicates(),
        {
            let ghost prev_removed = removed@;
            proof {
                assert(it.seq()[it.index()] == key);
                assert(it.seq().unref()[it.index()] == *key);
                assert(start.contains_key(*key));
                assert(!visited.contains(*key)) by {
                    if visited.contains(*key) {
                        let i = choose|i: int| 0 <= i < it.index() && *it.seq()[i] == *key;
                        assert(it.seq()[i] == it.seq()[it.index()]);
                    }
                }
            }
            if !map.contains_key(key) {
                let k = key.clone();
                removed.push(k);
            }
            proof {
                assert forall|k: K| #[trigger] visited.insert(*key).contains(k) && !map@.contains_key(k)
                    implies removed@.contains(k) by {
                    if k == *key {
                        assert(removed@[removed@.len() - 1] == k);
                    } else {
                        let j = choose|j: int| 0 <= j < prev_removed.len() && prev_removed[j] == k;
                        assert(removed@[j] == k);
                    }
                }
                visited = visited.insert(*key);
            }
        }
        proof {
            vstd::set_lib::lemma_subset_equality(visited, start.dom());
        }
        let mut i: usize = 0;
        while i < removed.len()
            invariant
                keys_modeled::<K>(),
                i <= removed@.len(),
                removed@.no_duplicates(),
                forall|j: int| 0 <= j < removed@.len() ==> start.contains_key(#[trigger] removed@[j]),
                observers@.dom() == start.dom().difference(removed@.take(i as int).to_set()),
                forall|k: K| #[trigger] observers@.contains_key(k) ==> observers@[k] == start[k],
            decreases removed@.len() - i,
        {
            observers.remove(&removed[i]);
            proof {
                assert(removed@.take(i + 1).to_set() == removed@.take(i as int).to_set().insert(removed@[i as int])) by {
                    assert(removed@.take(i + 1) == removed@.take(i as int).push(removed@[i as int]));
                    removed@.take(i as int).lemma_push_to_set_commute(removed@[i as int]);
                }
            }
            i = i + 1;
        }
        proof {
            assert(removed@.take(removed@.len() as int) == removed@);
        }
    } else {
        proof {
            vstd::set_lib::lemma_subset_equality(map@.dom(), start.dom());
        }
    }
    assert(observers@ =~= start.restrict(map@.dom()));
    assert(removed@.to_set() =~= start.dom().difference(map@.dom()));
    removed
}

impl<K: Hash + Eq + Clone + 'static, V: Observable + 'static> Observable for HashMap<K, V> {
    type Observer<'a> = HashMap<K, Observer<'a, V>>;
    type Changes<'a> = MapChanges<'a, K, V>;

    /// The keys follow the hash table model; every value is pulled against the observer
    /// kept for its key (a fresh one for a new key) and reported with its key; the
    /// observers of the keys that are gone are dropped and their keys reported as removed,
    /// each once.
    open spec fn pulled<'a, 'b>(
        &self,
        before: HashMap<K, Observer<'b, V>>,
        after: HashMap<K, Observer<'b, V>>,
        changes: MapChanges<'a, K, V>,
    ) -> bool {
        &&& keys_modeled::<K>()
        &&& entries_pulled(self@, before@, after@, changes.changed@)
        &&& changes.removed@.no_duplicates()
        &&& changes.removed@.to_set() == before@.dom().difference(self@.dom())
    }

    /// The keys follow the hash table model, and every value can be pulled against the
    /// observer kept for its key.
    open spec fn can_pull<'b>(&self, observer: HashMap<K, Observer<'b, V>>) -> bool {
        &&& keys_modeled::<K>()
        &&& entries_can_pull(self@, observer@)
    }

    fn pull_changes<'a, 'b>(&'a self, observer: &mut Observer<'b, Self>) -> (changes: MapChanges<'a, K, V>) {
        let ghost before = observer.inner@;
        let changed = pull_entries(self, &mut observer.inner);
        let ghost visited = observer.inner@;
        let removed = remove_stale_keys(self, &mut observer.inner);
        assert(visited.dom().difference(self@.dom()) =~= before.dom().difference(self@.dom()));
        MapChanges { changed, removed }
    }
}

impl<K: Hash + Eq + Clone + 'static, V: ObservableLaws + 'static> ObservableLaws for HashMap<K, V> {
    /// The observer keeps an up-to-date observer for every key of the store and no other.
    open spec fn up_to_date<'b>(&self, observer: HashMap<K, Observer<'b, V>>) -> bool {
        &&& keys_modeled::<K>()
        &&& observer@.dom() == self@.dom()
        &&& forall|k: K| #[trigger] self@.contains_key(k) ==> self@[k].up_to_date(observer@[k].inner)
    }

    /// No key was removed and no value changed.
    open spec fn unchanged<'a>(&self, changes: MapChanges<'a, K, V>) -> bool {
        &&& changes.removed@.len() == 0
        &&& forall|i: int|
            #![trigger changes.changed@[i]]
            0 <= i < changes.changed@.len() ==> self@[*changes.changed@[i].0].unchanged(changes.changed@[i].1)
    }

    proof fn lemma_pull_brings_up_to_date<'a, 'b>(
        &self,
        before: HashMap<K, Observer<'b, V>>,
        after: HashMap<K, Observer<'b, V>>,
        changes: MapChanges<'a, K, V>,
    ) {
        let changed = changes.changed@;
        assert forall|k: K| #[trigger] self@.contains_key(k) implies self@[k].up_to_date(after@[k].inner) by {
            let i = choose|i: int| 0 <= i < changed.len() && *changed[i].0 == k;
            assert(entry_pulled(self@[k], before@, k, after@[k].inner, changed[i].1));
            if before@.contains_key(k) {
                self@[k].lemma_pull_brings_up_to_date(before@[k].inner, after@[k].inner, changed[i].1);
            } else {
                let o = choose|o: V::Observer<'b>| is_fresh_observer::<V>(o) && self@[k].pulled(o, after@[k].inner, changed[i].1);
                self@[k].lemma_pull_brings_up_to_date(o, after@[k].inner, changed[i].1);
            }
        }
    }

    proof fn lemma_up_to_date_pull_is_unchanged<'a, 'b>(
        &self,
        before: HashMap<K, Observer<'b, V>>,
        after: HashMap<K, Observer<'b, V>>,
        changes: MapChanges<'a, K, V>,
    ) {
        assert forall|k: K| #[trigger] self@.contains_key(k) implies entry_can_pull(self@[k], before@, k) by {
            self@[k].lemma_up_to_date_pull_is_unchanged(before@[k].inner, before@[k].inner, arbitrary());
        }
        if self.pulled(before, after, changes) {
            let changed = changes.changed@;
            assert(changes.removed@.to_set() =~= Set::empty());
            changes.removed@.unique_seq_to_set();
            assert forall|i: int|
                #![trigger changed[i]]
                0 <= i < changed.len() implies self@[*changed[i].0].unchanged(changed[i].1) by {
                let k = *changed[i].0;
                self@[k].lemma_up_to_date_pull_is_unchanged(before@[k].inner, after@[k].inner, changed[i].1);
            }
        }
    }
}

/// For values observed by value (numbers, `bool`): pulling a map against an up-to-date
/// observer removes no key, reports every key once with what `Default::default` gives for
/// its changes (`0`, or `false`), and leaves the observer as it was.
pub proof fn lemma_map_repull_reports_default<'a, 'b, K: Hash + Eq + Clone + 'static, V: TriviallyObservable + 'static>(
    state: HashMap<K, V>,
    before: HashMap<K, Observer<'b, V>>,
    after: HashMap<K, Observer<'b, V>>,
    changes: MapChanges<'a, K, V>,
    fresh: <V as TriviallyObservable>::Detective,
)
    requires
        state.up_to_date(before),
        state.pulled(before, after, changes),
        call_ensures(<<V as TriviallyObservable>::Detective as core::default::Default>::default, (), fresh),
    ensures
        changes.removed@.len() == 0,
        changes.changed@.len() == state@.len(),
        forall|i: int| 0 <= i < changes.changed@.len() ==> #[trigger] changes.changed@[i].1 == fresh,
        after@ == before@,
{
    state.lemma_up_to_date_pull_is_unchanged(before, after, changes);
    let changed = changes.changed@;
    assert forall|i: int| 0 <= i < changed.len() implies #[trigger] changed[i].1 == fresh by {
        let k = *changed[i].0;
        assert(state@[k].unchanged(changed[i].1));
        V::lemma_no_change_is_default(changed[i].1, fresh);
    }
    assert forall|k: K| #[trigger] after@.contains_key(k) implies after@[k] == before@[k] by {
        let i = choose|i: int| 0 <= i < changed.len() && *changed[i].0 == k;
        assert(entry_pulled(state@[k], before@, k, after@[k].inner, changed[i].1));
    }
    assert(after@ =~= before@);
}

} // verus!
