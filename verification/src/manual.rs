//! Building blocks for implementing [`Observable`] by hand.
use vstd::prelude::*;

use crate::{Changes, Observable, Observer};

verus! {

/// Wraps an observer state of `T` into an [`Observer`].
pub fn new_observer<'a, T: Observable>(inner: <T as Observable>::Observer<'a>) -> (observer: Observer<'a, T>)
    ensures
        observer.inner == inner,
{
    Observer { inner }
}

/// A struct representing the changes between the current and previous state of a
/// Key-Value store.
pub struct MapChanges<'a, K, V: Observable + 'static> {
    /// Every key of the store with the changes of its value.
    pub changed: Vec<(&'a K, Changes<'a, V>)>,
    /// The keys that were observed before and are no longer in the store.
    pub removed: Vec<K>,
}

impl<'a, K, V: Observable + 'static> Default for MapChanges<'a, K, V> {
    fn default() -> (changes: Self)
        ensures
            changes.changed@.len() == 0,
            changes.removed@.len() == 0,
    {
        MapChanges { changed: Vec::new(), removed: Vec::new() }
    }
}

/// A `Copy` value observed by comparing it with a recorded copy of its last state
/// (its "detective").
pub trait TriviallyObservable: Default + Copy {
    /// What an observer records of a state, and what a pull reports.
    type Detective: Default + Copy;

    /// The detective that records the state `self`.
    spec fn recorded(self) -> Self::Detective;

    /// The delta reported for the state `self` against the recorded state `previous`.
    spec fn spec_delta(self, previous: Self::Detective) -> Self::Detective;

    /// The delta of `self` against `previous` is representable.
    spec fn delta_defined(self, previous: Self::Detective) -> bool;

    /// `delta` reports no change.
    spec fn is_no_change(delta: Self::Detective) -> bool;

    /// Records the state `self` (the conversion `Detective::from(self)`).
    fn record(&self) -> (detective: Self::Detective)
        ensures
            detective == self.recorded(),
    ;

    /// Computes the delta between `self` and the recorded state `observer`.
    fn delta(&self, observer: &Self::Detective) -> (delta: Self::Detective)
        requires
            self.delta_defined(*observer),
        ensures
            delta == self.spec_delta(*observer),
    ;

    /// The delta of a state against its own record is defined and reports no change.
    proof fn lemma_delta_against_record(self)
        ensures
            self.delta_defined(self.recorded()),
            Self::is_no_change(self.spec_delta(self.recorded())),
    ;

    /// A delta that reports no change is the detective that `Default::default` returns
    /// (`0` for numbers, `false` for `bool`).
    proof fn lemma_no_change_is_default(delta: Self::Detective, fresh: Self::Detective)
        requires
            Self::is_no_change(delta),
            call_ensures(<Self::Detective as core::default::Default>::default, (), fresh),
        ensures
            delta == fresh,
    ;
}

/// A `Copy` value whose changes are the difference `Detective::from(current) - previous`.
pub trait SubObservable: Default + Copy {
    /// The type the value is widened into and differences are taken in.
    type Detective: Default + Copy;

    /// The value widened into the detective type.
    spec fn widened(self) -> Self::Detective;

    /// `current - previous` in the detective type.
    spec fn difference(current: Self::Detective, previous: Self::Detective) -> Self::Detective;

    /// `current - previous` is representable in the detective type.
    spec fn difference_defined(current: Self::Detective, previous: Self::Detective) -> bool;

    /// The zero of the detective type.
    spec fn is_zero(d: Self::Detective) -> bool;

    /// The number that a detective stands for.
    spec fn amount(d: Self::Detective) -> int;

    /// Widens the value (the conversion `Detective::from(self)`).
    fn widen(&self) -> (d: Self::Detective)
        ensures
            d == self.widened(),
    ;

    /// Subtracts in the detective type.
    fn subtract(current: Self::Detective, previous: Self::Detective) -> (d: Self::Detective)
        requires
            Self::difference_defined(current, previous),
        ensures
            d == Self::difference(current, previous),
    ;

    /// A difference of a value with itself is defined and zero.
    proof fn lemma_difference_with_itself(d: Self::Detective)
        ensures
            Self::difference_defined(d, d),
            Self::is_zero(Self::difference(d, d)),
    ;

    /// A defined difference stands for the difference of the numbers.
    proof fn lemma_difference_subtracts(current: Self::Detective, previous: Self::Detective)
        requires
            Self::difference_defined(current, previous),
        ensures
            Self::amount(Self::difference(current, previous)) == Self::amount(current) - Self::amount(
                previous,
            ),
    ;

    /// What `Default::default` returns for the detective type is its zero, the only one,
    /// and stands for `0`.
    proof fn lemma_default_is_zero(fresh: Self::Detective)
        requires
            call_ensures(<Self::Detective as core::default::Default>::default, (), fresh),
        ensures
            Self::is_zero(fresh),
            Self::amount(fresh) == 0,
            forall|d: Self::Detective| #[trigger] Self::is_zero(d) ==> d == fresh,
    ;
}

} // verus!
