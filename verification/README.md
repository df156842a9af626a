# simple_observable

Change tracking for Rust values, verified with Verus. An `Observer` remembers the state in
which it last saw a value; `Observable::pull_changes` reports what changed since then and
brings the observer up to date. Several observers can track one value independently.

Layout of `src/`:

- `lib.rs`: the `Observer` wrapper and the `Observable`, `ObservableLaws`,
  `MaybeObservable` and `MaybeObservableLaws` traits.
- `manual.rs`: building blocks for hand-written impls (`new_observer`, `MapChanges`,
  `TriviallyObservable`, `SubObservable`).
- `scalar.rs`: integers (changes are differences, unsigned ones widened) and `bool`.
- `wrappers.rs`: `Untracked`, `Atomic` (counts mutable accesses) and `AtomicHash`
  (compares hashes).
- `iter.rs`: `AsIter`, `ChangeIter`, `ChangeFilter` and the element-wise pulls.
- `tuples.rs`: tuples of up to nine components, observed component by component.
- `map.rs`: `HashMap`, observed value by value, with removed keys reported.

Every pull states what it reports as a relation between the observed state, the observer
before and after, and the changes; the laws traits prove that a pull brings the observer up
to date and that a pull against an up-to-date observer reports no change.
