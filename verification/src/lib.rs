//! Change tracking for values: an [`Observer`] remembers the state in which it last saw a
//! value, and [`Observable::pull_changes`] reports what changed since then while bringing
//! the observer up to date. Several observers may track one value independently.
use vstd::prelude::*;

pub mod manual;
pub mod scalar;
pub mod wrappers;
pub mod iter;
pub mod tuples;
pub mod map;

pub use iter::{
    pull_iter_changes, AsIter, ChangeFilter, ChangeIter, ObservableAsFilter, ObservableAsIter,
};
pub use manual::{new_observer, MapChanges, SubObservable, TriviallyObservable};
pub use wrappers::{Atomic, AtomicHash, ChangeCounter, Untracked};

verus! {

/// Wrapper type for an observer.
pub struct Observer<'a, T: Observable> {
    pub inner: <T as Observable>::Observer<'a>,
}

/// The changes that an `Observable` type reports.
pub type Changes<'a, T> = <T as Observable>::Changes<'a>;

/// An observer of an iterable observed element by element.
pub type IterObserver<'a, T> = Observer<'a, iter::ChangeIter<T>>;

/// An observer of an iterable observed for the elements that changed.
pub type FilterObserver<'a, T> = Observer<'a, iter::ChangeFilter<T>>;

/// `o` is a value that `Default::default()` may produce for the observer state of `T`:
/// the state of an observer that has not seen any value yet.
pub open spec fn is_fresh_observer<'b, T: Observable>(o: <T as Observable>::Observer<'b>) -> bool {
    call_ensures(<<T as Observable>::Observer<'b> as Default>::default, (), o)
}

/// A trait for types that can be observed, allowing for change detection.
pub trait Observable: Sized {
    /// The type used to observe changes.
    type Observer<'b>: Default;

    /// The type representing the changes between states.
    type Changes<'b> where Self: 'b;

    /// A pull on the state `self` against an observer holding `before` reports `changes`
    /// and leaves the observer holding `after`.
    spec fn pulled<'a, 'b>(
        &self,
        before: Self::Observer<'b>,
        after: Self::Observer<'b>,
        changes: Self::Changes<'a>,
    ) -> bool;

    /// A pull on `self` against an observer holding `observer` is defined
    /// (no arithmetic in it leaves the range of its types).
    spec fn can_pull<'b>(&self, observer: Self::Observer<'b>) -> bool;

    /// Pulls changes since the last observed state and updates the observer.
    ///
    /// Returns the changes since the last observed changes using this observer.
    fn pull_changes<'a, 'b>(&'a self, observer: &mut Observer<'b, Self>) -> (changes: Self::Changes<'a>)
        requires
            self.can_pull(old(observer).inner),
        ensures
            self.pulled(old(observer).inner, final(observer).inner, changes),
    ;
}

/// The laws that make an [`Observable`] a change tracker: a pull brings the observer up to
/// date, and a pull against an up-to-date observer reports no change.
pub trait ObservableLaws: Observable {
    /// `observer` has seen the current state of `self`.
    spec fn up_to_date<'b>(&self, observer: Self::Observer<'b>) -> bool;

    /// `changes`, pulled from `self`, report that nothing changed.
    spec fn unchanged<'a>(&self, changes: Self::Changes<'a>) -> bool;

    /// After a pull, the observer is up to date with the state it pulled from.
    proof fn lemma_pull_brings_up_to_date<'a, 'b>(
        &self,
        before: Self::Observer<'b>,
        after: Self::Observer<'b>,
        changes: Self::Changes<'a>,
    )
        requires
            self.pulled(before, after, changes),
        ensures
            self.up_to_date(after),
    ;

    /// A pull against an up-to-date observer is defined and reports no change.
    proof fn lemma_up_to_date_pull_is_unchanged<'a, 'b>(
        &self,
        before: Self::Observer<'b>,
        after: Self::Observer<'b>,
        changes: Self::Changes<'a>,
    )
        requires
            self.up_to_date(before),
        ensures
            self.can_pull(before),
            self.pulled(before, after, changes) ==> self.unchanged(changes),
    ;
}

/// A trait for types that can be observed, but yielding `Option<_>` as `Changes`.
pub trait MaybeObservable: Observable {
    /// What a pull reports when there is a change.
    type ChangesInner<'a> where Self: 'a;

    /// A pull on `self` against an observer holding `before` reports `changes`
    /// (`None` for no change) and leaves the observer holding `after`.
    spec fn try_pulled<'a, 'b>(
        &self,
        before: Self::Observer<'b>,
        after: Self::Observer<'b>,
        changes: Option<Self::ChangesInner<'a>>,
    ) -> bool;

    /// Pulls changes like [`Observable::pull_changes`], with `None` for no change.
    fn try_pull_changes<'a, 'b>(&'a self, observer: &mut Observer<'b, Self>) -> (changes: Option<
        Self::ChangesInner<'a>,
    >)
        requires
            self.can_pull(old(observer).inner),
        ensures
            self.try_pulled(old(observer).inner, final(observer).inner, changes),
    ;
}

/// The laws of [`ObservableLaws`] for pulls that yield `Option<_>`: such a pull brings the
/// observer up to date, and against an up-to-date observer it yields `None`.
pub trait MaybeObservableLaws: MaybeObservable + ObservableLaws {
    /// After a pull, the observer is up to date with the state it pulled from.
    proof fn lemma_try_pull_brings_up_to_date<'a, 'b>(
        &self,
        before: Self::Observer<'b>,
        after: Self::Observer<'b>,
        changes: Option<Self::ChangesInner<'a>>,
    )
        requires
            self.try_pulled(before, after, changes),
        ensures
            self.up_to_date(after),
    ;

    /// A pull against an up-to-date observer yields `None`.
    proof fn lemma_up_to_date_try_pull_is_none<'a, 'b>(
        &self,
        before: Self::Observer<'b>,
        after: Self::Observer<'b>,
        changes: Option<Self::ChangesInner<'a>>,
    )
        requires
            self.up_to_date(before),
            self.try_pulled(before, after, changes),
        ensures
            changes is None,
    ;
}

impl<'a, T: Observable> Default for Observer<'a, T> {
    fn default() -> (observer: Self)
        ensures
            is_fresh_observer::<T>(observer.inner),
    {
        Observer { inner: Default::default() }
    }
}

} // verus!
