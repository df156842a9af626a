use std::collections::HashMap;
use std::ops::DerefMut;

use simple_observable::{
    new_observer, pull_iter_changes, Atomic, AtomicHash, ChangeFilter, ChangeIter, Changes,
    FilterObserver, IterObserver, MapChanges, Observable, ObservableAsFilter, ObservableAsIter,
    Observer, Untracked,
};

/// A record of an `i32` field and an `i16` field, observed field by field (each field with
/// its own observer), here held as a pair.
#[test]
fn readme_struct_changes() {
    let mut obs: Observer<(i32, i16)> = Default::default();
    let (mut a, mut b): (i32, i16) = (12, 52);

    assert_eq!((a, b).pull_changes(&mut obs), (12, 52));
    a += 1;
    assert_eq!((a, b).pull_changes(&mut obs), (1, 0));
    b -= 2;
    a -= 1;
    assert_eq!((a, b).pull_changes(&mut obs), (-1, -2));
    let changes: Changes<(i32, i16)> = (a, b).pull_changes(&mut obs);
    assert!(changes == (0, 0));
}

#[test]
fn tuple_changes_componentwise() {
    let mut obs: Observer<(i32, i16)> = Default::default();
    let mut state: (i32, i16) = (12, 52);
    assert_eq!(state.pull_changes(&mut obs), (12, 52));
    state.0 += 1;
    assert_eq!(state.pull_changes(&mut obs), (1, 0));
    state.1 -= 2;
    state.0 -= 1;
    assert_eq!(state.pull_changes(&mut obs), (-1, -2));
    assert_eq!(state.pull_changes(&mut obs), (0, 0));
}

#[test]
fn tuple_of_nine_components() {
    let mut obs: Observer<(u8, u16, u32, u64, i8, i16, i32, i64, bool)> = Default::default();
    let state: (u8, u16, u32, u64, i8, i16, i32, i64, bool) = (1, 2, 3, 4, -5, -6, -7, -8, true);
    assert_eq!(state.pull_changes(&mut obs), (1, 2, 3, 4, -5, -6, -7, -8, true));
    assert_eq!(state.pull_changes(&mut obs), (0, 0, 0, 0, 0, 0, 0, 0, false));
}

#[test]
fn unsigned_changes_are_widened() {
    let mut obs: Observer<u8> = Default::default();
    assert_eq!(250u8.pull_changes(&mut obs), 250i16);
    assert_eq!(200u8.pull_changes(&mut obs), -50i16);
    assert_eq!(obs.inner, 200i16);

    let mut big: Observer<u64> = Default::default();
    assert_eq!(u64::MAX.pull_changes(&mut big), u64::MAX as i128);
    assert_eq!(0u64.pull_changes(&mut big), -(u64::MAX as i128));
}

#[test]
fn signed_changes_are_differences() {
    let mut obs: Observer<i8> = new_observer(-100);
    assert_eq!(20i8.pull_changes(&mut obs), 120);
    assert_eq!(obs.inner, 20);
    let mut wide: Observer<i128> = Default::default();
    assert_eq!((-7i128).pull_changes(&mut wide), -7);
}

#[test]
fn bool_changes_report_inequality() {
    let mut obs: Observer<bool> = Default::default();
    assert!(!false.pull_changes(&mut obs));
    assert!(true.pull_changes(&mut obs));
    assert!(!true.pull_changes(&mut obs));
    assert!(false.pull_changes(&mut obs));
}

#[test]
fn untracked_always_reports_current_value() {
    let mut value = Untracked(String::from("a"));
    let mut obs: Observer<Untracked<String>> = Default::default();
    assert_eq!(value.pull_changes(&mut obs), "a");
    assert_eq!(value.pull_changes(&mut obs), "a");
    value.push('b');
    assert_eq!(value.pull_changes(&mut obs), "ab");
    let from: Untracked<u8> = Untracked::from(3);
    assert_eq!(*from, 3);
}

#[test]
fn vec_example_changes() {
    let mut vec: Vec<i32> = vec![1, 2, 3, 4, 5];
    let mut obs: IterObserver<Vec<i32>> = Default::default();

    assert_eq!(vec.iter_changes(&mut obs), vec![1, 2, 3, 4, 5]);
    vec.push(6);
    vec.push(7);
    assert_eq!(vec.iter_changes(&mut obs), vec![0, 0, 0, 0, 0, 6, 7]);
    vec.pop();
    assert_eq!(vec.iter_changes(&mut obs), vec![0, 0, 0, 0, 0, 0]);
    assert_eq!(obs.inner.len(), 6);
    vec.push(8);
    assert_eq!(vec.iter_changes(&mut obs), vec![0, 0, 0, 0, 0, 0, 8]);
}

#[test]
fn change_iter_wrapper_matches_iter_changes() {
    let mut wrapped = ChangeIter(vec![3i16, -4]);
    let mut obs: Observer<ChangeIter<Vec<i16>>> = Default::default();
    assert_eq!(wrapped.pull_changes(&mut obs), vec![3, -4]);
    wrapped[1] = 6;
    assert_eq!(wrapped.pull_changes(&mut obs), vec![0, 10]);
    wrapped.clear();
    assert_eq!(wrapped.pull_changes(&mut obs), Vec::<i16>::new());
    assert!(obs.inner.is_empty());
}

#[test]
fn pull_iter_changes_truncates_observers() {
    let values: [u16; 3] = [7, 8, 9];
    let mut observers: Vec<Observer<u16>> = Vec::new();
    assert_eq!(pull_iter_changes(&values, &mut observers), vec![7, 8, 9]);
    let shorter: [u16; 1] = [10];
    assert_eq!(pull_iter_changes(&shorter, &mut observers), vec![3]);
    assert_eq!(observers.len(), 1);
    assert_eq!(observers[0].inner, 10);
}

#[test]
fn atomic_example_changes() {
    let mut atom: Atomic<i32> = Atomic::from(1);
    let mut obs: Observer<Atomic<i32>> = Default::default();

    assert_eq!(atom.pull_changes(&mut obs), Some(&1));
    *atom += 1;
    assert_eq!(atom.pull_changes(&mut obs), Some(&2));
    atom.deref_mut();
    assert_eq!(atom.pull_changes(&mut obs), Some(&2));
    assert_eq!(atom.pull_changes(&mut obs), None);
    atom.set_changed();
    assert_eq!(atom.pull_changes(&mut obs), Some(&2));
    assert_eq!(*atom, 2);
    assert_eq!(atom.counter(), 3);
}

#[test]
fn atomic_read_access_is_no_change() {
    let atom: Atomic<&str, u8> = Atomic::new("x");
    let mut obs: Observer<Atomic<&str, u8>> = Default::default();
    assert_eq!(atom.pull_changes(&mut obs), Some(&"x"));
    assert_eq!(atom.len(), 1);
    assert_eq!(atom.pull_changes(&mut obs), None);
}

#[test]
fn atomic_observers_are_independent() {
    let mut atom: Atomic<u32> = Atomic::from(5);
    let mut first: Observer<Atomic<u32>> = Default::default();
    let mut second: Observer<Atomic<u32>> = Default::default();
    assert_eq!(atom.pull_changes(&mut first), Some(&5));
    *atom = 6;
    assert_eq!(atom.pull_changes(&mut first), Some(&6));
    assert_eq!(atom.pull_changes(&mut second), Some(&6));
    assert_eq!(atom.pull_changes(&mut first), None);
    assert_eq!(atom.pull_changes(&mut second), None);
}

#[test]
fn filter_example_changes() {
    let mut atom_vec: ChangeFilter<Vec<Atomic<i32>>> =
        ChangeFilter(vec![Atomic::from(1), Atomic::from(2)]);
    let mut obs: FilterObserver<_> = Default::default();

    assert_eq!(atom_vec.pull_changes(&mut obs), vec![(0, &1), (1, &2)]);
    *atom_vec[0] += 1;
    assert_eq!(atom_vec.pull_changes(&mut obs), vec![(0, &2)]);
    atom_vec.push(Atomic::from(3));
    assert_eq!(atom_vec.pull_changes(&mut obs), vec![(2, &3)]);
    assert_eq!(atom_vec.pull_changes(&mut obs), vec![]);
}

#[test]
fn filter_changes_without_wrapper() {
    let mut values: Vec<Atomic<u8>> = vec![Atomic::from(4), Atomic::from(5), Atomic::from(6)];
    let mut obs: FilterObserver<Vec<Atomic<u8>>> = Default::default();
    assert_eq!(values.filter_changes(&mut obs).len(), 3);
    values[1].set_changed();
    assert_eq!(values.filter_changes(&mut obs), vec![(1, &5)]);
    values.truncate(1);
    assert_eq!(values.filter_changes(&mut obs), vec![]);
    assert_eq!(obs.inner.len(), 1);
}

#[test]
fn atomic_hash_reports_when_hash_moves() {
    let mut value: AtomicHash<Vec<u8>> = AtomicHash::from(vec![1, 2]);
    let mut obs: Observer<AtomicHash<Vec<u8>>> = Default::default();
    assert_eq!(value.pull_changes(&mut obs), Some(&vec![1, 2]));
    assert_eq!(value.pull_changes(&mut obs), None);
    value.push(3);
    assert_eq!(value.pull_changes(&mut obs), Some(&vec![1, 2, 3]));
    assert_eq!(value.pull_changes(&mut obs), None);
}

fn sorted_changed(changes: &MapChanges<String, i16>) -> Vec<(String, i16)> {
    let mut out: Vec<(String, i16)> =
        changes.changed.iter().map(|(k, c)| ((*k).clone(), *c)).collect();
    out.sort();
    out
}

#[test]
fn hash_map_example_changes() {
    let mut map: HashMap<String, i16> = HashMap::new();
    let mut obs: Observer<HashMap<String, i16>> = Default::default();

    let changes = map.pull_changes(&mut obs);
    assert!(changes.changed.is_empty());
    assert!(changes.removed.is_empty());

    map.insert("a".to_string(), 1);
    let changes = map.pull_changes(&mut obs);
    assert_eq!(sorted_changed(&changes), vec![("a".to_string(), 1)]);
    assert!(changes.removed.is_empty());

    map.remove("a");
    map.insert("b".to_string(), 2);
    let changes = map.pull_changes(&mut obs);
    assert_eq!(sorted_changed(&changes), vec![("b".to_string(), 2)]);
    assert_eq!(changes.removed, vec!["a".to_string()]);

    map.remove("c");
    let changes = map.pull_changes(&mut obs);
    assert_eq!(sorted_changed(&changes), vec![("b".to_string(), 0)]);
    assert!(changes.removed.is_empty());
    assert_eq!(obs.inner.len(), 1);
}

#[test]
fn hash_map_removes_every_stale_key() {
    let mut map: HashMap<u32, u8> = HashMap::new();
    for k in 0..5u32 {
        map.insert(k, k as u8);
    }
    let mut obs: Observer<HashMap<u32, u8>> = Default::default();
    assert_eq!(map.pull_changes(&mut obs).changed.len(), 5);
    map.retain(|k, _| *k >= 3);
    let changes = map.pull_changes(&mut obs);
    let mut removed = changes.removed.clone();
    removed.sort();
    assert_eq!(removed, vec![0, 1, 2]);
    assert!(changes.changed.iter().all(|(_, c)| *c == 0));
    assert_eq!(obs.inner.len(), 2);
}

#[test]
fn vec_deque_is_observed_element_wise() {
    let mut queue: std::collections::VecDeque<u32> = std::collections::VecDeque::new();
    queue.push_back(10);
    queue.push_back(20);
    let mut obs: IterObserver<std::collections::VecDeque<u32>> = Default::default();
    assert_eq!(queue.iter_changes(&mut obs), vec![10i64, 20]);
    queue.pop_front();
    assert_eq!(queue.iter_changes(&mut obs), vec![10i64]);
    assert_eq!(obs.inner.len(), 1);
}

#[test]
fn sixteen_bit_changes_widen_to_thirty_two() {
    let mut obs: Observer<u16> = Default::default();
    assert_eq!(u16::MAX.pull_changes(&mut obs), 65535i32);
    assert_eq!(1u16.pull_changes(&mut obs), -65534i32);
}

#[test]
fn atomic_counter_wraps_around_on_mutable_access() {
    let mut atom: Atomic<i32, u8> = Atomic::from(0);
    for _ in 0..255 {
        *atom += 1;
    }
    assert_eq!(atom.counter(), 255);
    *atom += 1;
    assert_eq!(atom.counter(), 0);
    assert_eq!(*atom, 256);
}

#[test]
fn successive_changes_sum_to_last_value() {
    let mut obs: Observer<u8> = Default::default();
    let mut sum: i16 = 0;
    for v in [5u8, 200, 3, 3, 90] {
        let before = obs.inner;
        let change = v.pull_changes(&mut obs);
        assert_eq!(before + change, v as i16);
        sum += change;
    }
    assert_eq!(sum, 90);
    assert_eq!(obs.inner, 90);
}

#[test]
fn repull_of_vec_reports_zeros_and_keeps_observers() {
    let values: Vec<i64> = vec![4, -9, 11];
    let mut obs: IterObserver<Vec<i64>> = Default::default();
    values.iter_changes(&mut obs);
    let kept: Vec<i64> = obs.inner.iter().map(|o| o.inner).collect();
    assert_eq!(values.iter_changes(&mut obs), vec![0, 0, 0]);
    let after: Vec<i64> = obs.inner.iter().map(|o| o.inner).collect();
    assert_eq!(after, kept);
}

#[test]
fn boxed_slices_and_slices_are_observed_element_wise() {
    let mut boxed: Box<[i32]> = vec![1, 2, 3].into_boxed_slice();
    let mut obs: IterObserver<Box<[i32]>> = Default::default();
    assert_eq!(boxed.iter_changes(&mut obs), vec![1, 2, 3]);
    boxed[2] = 10;
    assert_eq!(boxed.iter_changes(&mut obs), vec![0, 0, 7]);

    let values: [u8; 4] = [9, 8, 7, 6];
    let mut observers: Vec<Observer<u8>> = Vec::new();
    assert_eq!(pull_iter_changes(&values[1..], &mut observers), vec![8, 7, 6]);
    assert_eq!(pull_iter_changes(&values[..1], &mut observers), vec![1]);
    assert_eq!(observers.len(), 1);
}

#[test]
fn set_changed_is_seen_by_every_observer() {
    let mut atom: Atomic<char> = Atomic::from('x');
    let mut first: Observer<Atomic<char>> = Default::default();
    let mut second: Observer<Atomic<char>> = Default::default();
    atom.pull_changes(&mut first);
    atom.pull_changes(&mut second);
    atom.set_changed();
    assert_eq!(atom.pull_changes(&mut first), Some(&'x'));
    assert_eq!(atom.pull_changes(&mut second), Some(&'x'));
}

#[test]
fn fresh_hash_observer_holds_zero() {
    let obs: Observer<AtomicHash<u32>> = Default::default();
    assert_eq!(obs.inner, 0);
}
