//! Element-wise observation of sequences: [`ChangeIter`] reports the changes of every
//! element, [`ChangeFilter`] only those of the elements that changed.
use vstd::prelude::*;

use crate::manual::TriviallyObservable;
use crate::{
    is_fresh_observer, Changes, MaybeObservable, MaybeObservableLaws, Observable, ObservableLaws,
    Observer,
};

verus! {

/// A trait for types whose elements can be visited in order.
pub trait AsIter {
    /// The element type.
    type Item;

    /// The elements, in order.
    spec fn items(&self) -> Seq<Self::Item>;

    /// The number of elements.
    fn item_count(&self) -> (count: usize)
        ensures
            count == self.items().len(),
    ;

    /// The element at position `i`.
    fn item(&self, i: usize) -> (item: &Self::Item)
        requires
            i < self.items().len(),
        ensures
            *item == self.items()[i as int],
    ;
}

impl<T> AsIter for Vec<T> {
    type Item = T;

    open spec fn items(&self) -> Seq<T> {
        self@
    }

    fn item_count(&self) -> (count: usize) {
        self.len()
    }

    fn item(&self, i: usize) -> (item: &T) {
        &self[i]
    }
}

impl<T> AsIter for std::collections::VecDeque<T> {
    type Item = T;

    open spec fn items(&self) -> Seq<T> {
        self@
    }

    fn item_count(&self) -> (count: usize) {
        self.len()
    }

    fn item(&self, i: usize) -> (item: &T) {
        &self[i]
    }
}

impl<T> AsIter for Box<[T]> {
    type Item = T;

    open spec fn items(&self) -> Seq<T> {
        (**self)@
    }

    fn item_count(&self) -> (count: usize) {
        self.len()
    }

    fn item(&self, i: usize) -> (item: &T) {
        &self[i]
    }
}

impl<T> AsIter for [T] {
    type Item = T;

    open spec fn items(&self) -> Seq<T> {
        self@
    }

    fn item_count(&self) -> (count: usize) {
        self.len()
    }

    fn item(&self, i: usize) -> (item: &T) {
        &self[i]
    }
}

impl<T, const N: usize> AsIter for [T; N] {
    type Item = T;

    open spec fn items(&self) -> Seq<T> {
        self@
    }

    fn item_count(&self) -> (count: usize) {
        N
    }

    fn item(&self, i: usize) -> (item: &T) {
        &self[i]
    }
}

/// The observer state that the element at position `i` is pulled against: the one an
/// observer holds for that position, or a fresh one past the end of `before`.
pub open spec fn element_can_pull<'b, T: Observable>(x: T, before: Seq<Observer<'b, T>>, i: int) -> bool {
    if i < before.len() {
        x.can_pull(before[i].inner)
    } else {
        forall|o: T::Observer<'b>| is_fresh_observer::<T>(o) ==> x.can_pull(o)
    }
}

/// The element `x` at position `i` was pulled against the observer state for that
/// position (a fresh one past the end of `before`), reporting `changes` and leaving `after`.
pub open spec fn element_pulled<'a, 'b, T: Observable>(
    x: T,
    before: Seq<Observer<'b, T>>,
    i: int,
    after: T::Observer<'b>,
    changes: T::Changes<'a>,
) -> bool {
    if i < before.len() {
        x.pulled(before[i].inner, after, changes)
    } else {
        exists|o: T::Observer<'b>| is_fresh_observer::<T>(o) && x.pulled(o, after, changes)
    }
}

/// Every element of `items` can be pulled against its observer state in `before`.
pub open spec fn items_can_pull<'b, T: Observable>(items: Seq<T>, before: Seq<Observer<'b, T>>) -> bool {
    forall|i: int| 0 <= i < items.len() ==> #[trigger] element_can_pull(items[i], before, i)
}

/// `items` were pulled element by element: the observers `after` and the changes are one
/// per element, each the result of pulling the element against its state in `before`.
pub open spec fn items_pulled<'a, 'b, T: Observable>(
    items: Seq<T>,
    before: Seq<Observer<'b, T>>,
    after: Seq<Observer<'b, T>>,
    changes: Seq<T::Changes<'a>>,
) -> bool {
    &&& after.len() == items.len()
    &&& changes.len() == items.len()
    &&& forall|i: int|
        0 <= i < items.len() ==> #[trigger] element_pulled(items[i], before, i, after[i].inner, changes[i])
}

/// Pulls the changes of every element of `iter`, one observer per element: observers are
/// added for new elements and dropped for elements that are gone.
pub fn pull_iter_changes<'a, 'b, T: AsIter + ?Sized>(
    iter: &'a T,
    observer: &mut Vec<Observer<'b, <T as AsIter>::Item>>,
) -> (changes: Vec<Changes<'a, <T as AsIter>::Item>>) where <T as AsIter>::Item: Observable
    requires
        items_can_pull(iter.items(), old(observer)@),
    ensures
        items_pulled(iter.items(), old(observer)@, final(observer)@, changes@),
{
    let prev_len = observer.len();
    let n = iter.item_count();
    let ghost before = observer@;
    let mut changes: Vec<Changes<'a, <T as AsIter>::Item>> = Vec::new();
    let mut i: usize = 0;
    while i < n
        invariant
            n == iter.items().len(),
            prev_len == before.len(),
            i <= n,
            items_can_pull(iter.items(), before),
            changes@.len() == i,
            observer@.len() == if i < prev_len { prev_len as int } else { i as int },
            forall|j: int| i <= j < observer@.len() ==> observer@[j] == before[j],
            forall|j: int|
                0 <= j < i ==> #[trigger] element_pulled(
                    iter.items()[j],
                    before,
                    j,
                    observer@[j].inner,
                    changes@[j],
                ),
        decreases n - i,
    {
        if i >= prev_len {
            observer.push(Observer::default());
        }
        assert(element_can_pull(iter.items()[i as int], before, i as int));
        let ghost start = observer@[i as int].inner;
        let item = iter.item(i);
        let c = item.pull_changes(&mut observer[i]);
        changes.push(c);
        proof {
            if (i as int) >= before.len() {
                assert(is_fresh_observer::<<T as AsIter>::Item>(start));
            }
        }
        i = i + 1;
    }
    if observer.len() > changes.len() {
        observer.truncate(changes.len());
    }
    changes
}

/// A wrapper that treats the inner value as an iterable and reports changes for each element.
///
/// Use this when you need change detection for each element of an iterable.
///
/// (Wrapping the type in `ChangeIter<T>` is optional if you are willing to use
/// [`ObservableAsIter`].)
#[derive(Debug)]
pub struct ChangeIter<T>(pub T);

impl<T: Default> Default for ChangeIter<T> {
    fn default() -> (wrapper: Self)
        ensures
            call_ensures(T::default, (), wrapper.0),
    {
        ChangeIter(T::default())
    }
}

impl<T> core::ops::Deref for ChangeIter<T> {
    type Target = T;

    fn deref(&self) -> (inner: &T)
        ensures
            *inner == self.0,
    {
        &self.0
    }
}

impl<T> core::ops::DerefMut for ChangeIter<T> {
    fn deref_mut(&mut self) -> (inner: &mut T)
        ensures
            *inner == old(self).0,
            final(self).0 == *final(inner),
    {
        &mut self.0
    }
}

impl<T> From<T> for ChangeIter<T> {
    fn from(value: T) -> (wrapper: Self) {
        ChangeIter(value)
    }
}

impl<T> vstd::std_specs::convert::FromSpecImpl<T> for ChangeIter<T> {
    open spec fn obeys_from_spec() -> bool {
        true
    }

    open spec fn from_spec(v: T) -> Self {
        ChangeIter(v)
    }
}

impl<T: AsIter + 'static> Observable for ChangeIter<T> where <T as AsIter>::Item: Observable {
    type Observer<'a> = Vec<Observer<'a, <T as AsIter>::Item>>;
    type Changes<'a> = Vec<Changes<'a, <T as AsIter>::Item>>;

    /// Each element is pulled against the observer at its position (a fresh one for new
    /// elements); one observer and one change per element remain.
    open spec fn pulled<'a, 'b>(
        &self,
        before: Vec<Observer<'b, <T as AsIter>::Item>>,
        after: Vec<Observer<'b, <T as AsIter>::Item>>,
        changes: Vec<Changes<'a, <T as AsIter>::Item>>,
    ) -> bool {
        items_pulled(self.0.items(), before@, after@, changes@)
    }

    open spec fn can_pull<'b>(&self, observer: Vec<Observer<'b, <T as AsIter>::Item>>) -> bool {
        items_can_pull(self.0.items(), observer@)
    }

    fn pull_changes<'a, 'b>(&'a self, observer: &mut Observer<'b, Self>) -> (changes: Vec<
        Changes<'a, <T as AsIter>::Item>,
    >) {
        pull_iter_changes(&self.0, &mut observer.inner)
    }
}

/// Every element of `items` is up to date with its observer in `observers`, one per element.
pub open spec fn items_up_to_date<'b, T: ObservableLaws>(items: Seq<T>, observers: Seq<Observer<'b, T>>) -> bool {
    &&& observers.len() == items.len()
    &&& forall|i: int| 0 <= i < items.len() ==> #[trigger] items[i].up_to_date(observers[i].inner)
}

/// The element-wise changes report no change for any element of `items`.
pub open spec fn items_unchanged<'a, T: ObservableLaws>(items: Seq<T>, changes: Seq<T::Changes<'a>>) -> bool {
    &&& changes.len() == items.len()
    &&& forall|i: int| 0 <= i < items.len() ==> #[trigger] items[i].unchanged(changes[i])
}

/// An element-wise pull brings every element's observer up to date.
pub proof fn lemma_items_pull_brings_up_to_date<'a, 'b, T: ObservableLaws>(
    items: Seq<T>,
    before: Seq<Observer<'b, T>>,
    after: Seq<Observer<'b, T>>,
    changes: Seq<T::Changes<'a>>,
)
    requires
        items_pulled(items, before, after, changes),
    ensures
        items_up_to_date(items, after),
{
    assert forall|i: int| 0 <= i < items.len() implies #[trigger] items[i].up_to_date(after[i].inner) by {
        assert(element_pulled(items[i], before, i, after[i].inner, changes[i]));
        if i < before.len() {
            items[i].lemma_pull_brings_up_to_date(before[i].inner, after[i].inner, changes[i]);
        } else {
            let o = choose|o: T::Observer<'b>| is_fresh_observer::<T>(o) && items[i].pulled(o, after[i].inner, changes[i]);
            items[i].lemma_pull_brings_up_to_date(o, after[i].inner, changes[i]);
        }
    }
}

/// An element-wise pull against up-to-date observers is defined and reports no change.
pub proof fn lemma_items_up_to_date_pull_is_unchanged<'a, 'b, T: ObservableLaws>(
    items: Seq<T>,
    before: Seq<Observer<'b, T>>,
    after: Seq<Observer<'b, T>>,
    changes: Seq<T::Changes<'a>>,
)
    requires
        items_up_to_date(items, before),
    ensures
        items_can_pull(items, before),
        items_pulled(items, before, after, changes) ==> items_unchanged(items, changes),
{
    assert forall|i: int| 0 <= i < items.len() implies #[trigger] element_can_pull(items[i], before, i) by {
        items[i].lemma_up_to_date_pull_is_unchanged(before[i].inner, before[i].inner, arbitrary());
    }
    if items_pulled(items, before, after, changes) {
        assert forall|i: int| 0 <= i < items.len() implies #[trigger] items[i].unchanged(changes[i]) by {
            assert(element_pulled(items[i], before, i, after[i].inner, changes[i]));
            items[i].lemma_up_to_date_pull_is_unchanged(before[i].inner, after[i].inner, changes[i]);
        }
    }
}

/// For elements observed by value (numbers, `bool`): pulling against up-to-date observers
/// leaves the observers as they were and reports, for every element, what
/// `Default::default` gives for its changes (`0`, or `false`).
pub proof fn lemma_items_repull_reports_default<'a, 'b, T: TriviallyObservable + 'static>(
    items: Seq<T>,
    before: Seq<Observer<'b, T>>,
    after: Seq<Observer<'b, T>>,
    changes: Seq<<T as TriviallyObservable>::Detective>,
    fresh: <T as TriviallyObservable>::Detective,
)
    requires
        items_up_to_date(items, before),
        items_pulled(items, before, after, changes),
        call_ensures(<<T as TriviallyObservable>::Detective as core::default::Default>::default, (), fresh),
    ensures
        after == before,
        forall|i: int| 0 <= i < changes.len() ==> changes[i] == fresh,
{
    assert forall|i: int| 0 <= i < items.len() implies after[i] == before[i] && changes[i] == fresh by {
        assert(element_pulled(items[i], before, i, after[i].inner, changes[i]));
        assert(items[i].up_to_date(before[i].inner));
        items[i].lemma_delta_against_record();
        T::lemma_no_change_is_default(changes[i], fresh);
    }
    assert(after =~= before);
}

impl<T: AsIter + 'static> ObservableLaws for ChangeIter<T> where <T as AsIter>::Item: ObservableLaws {
    open spec fn up_to_date<'b>(&self, observer: Vec<Observer<'b, <T as AsIter>::Item>>) -> bool {
        items_up_to_date(self.0.items(), observer@)
    }

    open spec fn unchanged<'a>(&self, changes: Vec<Changes<'a, <T as AsIter>::Item>>) -> bool {
        items_unchanged(self.0.items(), changes@)
    }

    proof fn lemma_pull_brings_up_to_date<'a, 'b>(
        &self,
        before: Vec<Observer<'b, <T as AsIter>::Item>>,
        after: Vec<Observer<'b, <T as AsIter>::Item>>,
        changes: Vec<Changes<'a, <T as AsIter>::Item>>,
    ) {
        lemma_items_pull_brings_up_to_date(self.0.items(), before@, after@, changes@);
    }

    proof fn lemma_up_to_date_pull_is_unchanged<'a, 'b>(
        &self,
        before: Vec<Observer<'b, <T as AsIter>::Item>>,
        after: Vec<Observer<'b, <T as AsIter>::Item>>,
        changes: Vec<Changes<'a, <T as AsIter>::Item>>,
    ) {
        lemma_items_up_to_date_pull_is_unchanged(self.0.items(), before@, after@, changes@);
    }
}

/// A trait for types that can be observed as an iterable.
///
/// Used to avoid having to wrap the iterable in `ChangeIter<T>`.
pub trait ObservableAsIter: AsIter + Sized + 'static where <Self as AsIter>::Item: Observable {
    /// Pulls the changes of every element, as `ChangeIter(self)` would.
    fn iter_changes<'a, 'b>(&'a self, observer: &mut Observer<'b, ChangeIter<Self>>) -> (changes: Vec<
        Changes<'a, <Self as AsIter>::Item>,
    >)
        requires
            items_can_pull(self.items(), old(observer).inner@),
        ensures
            items_pulled(self.items(), old(observer).inner@, final(observer).inner@, changes@),
    ;
}

impl<T: AsIter + 'static> ObservableAsIter for T where <T as AsIter>::Item: Observable {
    fn iter_changes<'a, 'b>(&'a self, observer: &mut Observer<'b, ChangeIter<T>>) -> (changes: Vec<
        Changes<'a, <T as AsIter>::Item>,
    >) {
        pull_iter_changes(self, &mut observer.inner)
    }
}

/// A wrapper that treats the inner value as an iterable over `MaybeObservable`
/// and only reports changes for elements that actually changed.
#[derive(Debug)]
pub struct ChangeFilter<T>(pub T);

impl<T: Default> Default for ChangeFilter<T> {
    fn default() -> (wrapper: Self)
        ensures
            call_ensures(T::default, (), wrapper.0),
    {
        ChangeFilter(T::default())
    }
}

impl<T> core::ops::Deref for ChangeFilter<T> {
    type Target = T;

    fn deref(&self) -> (inner: &T)
        ensures
            *inner == self.0,
    {
        &self.0
    }
}

impl<T> core::ops::DerefMut for ChangeFilter<T> {
    fn deref_mut(&mut self) -> (inner: &mut T)
        ensures
            *inner == old(self).0,
            final(self).0 == *final(inner),
    {
        &mut self.0
    }
}

impl<T> From<T> for ChangeFilter<T> {
    fn from(value: T) -> (wrapper: Self) {
        ChangeFilter(value)
    }
}

impl<T> vstd::std_specs::convert::FromSpecImpl<T> for ChangeFilter<T> {
    open spec fn obeys_from_spec() -> bool {
        true
    }

    open spec fn from_spec(v: T) -> Self {
        ChangeFilter(v)
    }
}

/// The element `x` at position `i` was pulled with `try_pull_changes` against the observer
/// state for that position (a fresh one past the end of `before`).
pub open spec fn element_try_pulled<'a, 'b, T: MaybeObservable>(
    x: T,
    before: Seq<Observer<'b, T>>,
    i: int,
    after: T::Observer<'b>,
    result: Option<T::ChangesInner<'a>>,
) -> bool {
    if i < before.len() {
        x.try_pulled(before[i].inner, after, result)
    } else {
        exists|o: T::Observer<'b>| is_fresh_observer::<T>(o) && x.try_pulled(o, after, result)
    }
}

/// The positions and changes of the elements whose pull reported a change, in order.
pub open spec fn reported<C>(results: Seq<Option<C>>) -> Seq<(usize, C)>
    decreases results.len(),
{
    if results.len() == 0 {
        Seq::empty()
    } else {
        let earlier = reported(results.drop_last());
        match results.last() {
            Some(c) => earlier.push(((results.len() - 1) as usize, c)),
            None => earlier,
        }
    }
}

/// `items` were pulled element by element with `try_pull_changes`, with results
/// `results`; one observer per element remains.
pub open spec fn items_try_pulled<'a, 'b, T: MaybeObservable>(
    items: Seq<T>,
    before: Seq<Observer<'b, T>>,
    after: Seq<Observer<'b, T>>,
    results: Seq<Option<T::ChangesInner<'a>>>,
) -> bool {
    &&& after.len() == items.len()
    &&& results.len() == items.len()
    &&& forall|i: int|
        0 <= i < items.len() ==> #[trigger] element_try_pulled(items[i], before, i, after[i].inner, results[i])
}

/// Pulls every element of `iter` with `try_pull_changes`, one observer per element, and
/// keeps the changes of the elements that changed, with their positions.
pub fn pull_filter_changes<'a, 'b, T: AsIter + ?Sized>(
    iter: &'a T,
    observer: &mut Vec<Observer<'b, <T as AsIter>::Item>>,
) -> (changes: Vec<(usize, <<T as AsIter>::Item as MaybeObservable>::ChangesInner<'a>)>) where
    <T as AsIter>::Item: MaybeObservable,

    requires
        items_can_pull(iter.items(), old(observer)@),
    ensures
        exists|results: Seq<Option<<<T as AsIter>::Item as MaybeObservable>::ChangesInner<'a>>>|
            {
                &&& items_try_pulled(iter.items(), old(observer)@, final(observer)@, results)
                &&& changes@ == reported(results)
            },
{
    let prev_len = observer.len();
    let n = iter.item_count();
    let ghost before = observer@;
    let ghost mut results: Seq<Option<<<T as AsIter>::Item as MaybeObservable>::ChangesInner<'a>>> =
        Seq::empty();
    let mut changes: Vec<(usize, <<T as AsIter>::Item as MaybeObservable>::ChangesInner<'a>)> =
        Vec::new();
    let mut i: usize = 0;
    while i < n
        invariant
            n == iter.items().len(),
            prev_len == before.len(),
            i <= n,
            items_can_pull(iter.items(), before),
            results.len() == i,
            changes@ == reported(results),
            observer@.len() == if i < prev_len { prev_len as int } else { i as int },
            forall|j: int| i <= j < observer@.len() ==> observer@[j] == before[j],
            forall|j: int|
                0 <= j < i ==> #[trigger] element_try_pulled(
                    iter.items()[j],
                    before,
                    j,
                    observer@[j].inner,
                    results[j],
                ),
        decreases n - i,
    {
        if i >= prev_len {
            observer.push(Observer::default());
        }
        assert(element_can_pull(iter.items()[i as int], before, i as int));
        let ghost start = observer@[i as int].inner;
        let item = iter.item(i);
        let r = item.try_pull_changes(&mut observer[i]);
        proof {
            if (i as int) >= before.len() {
                assert(is_fresh_observer::<<T as AsIter>::Item>(start));
            }
            assert(results.push(r).drop_last() == results);
        }
        match r {
            Some(c) => {
                changes.push((i, c));
            },
            None => {},
        }
        proof {
            results = results.push(r);
        }
        i = i + 1;
    }
    if observer.len() > n {
        observer.truncate(n);
    }
    assert(items_try_pulled(iter.items(), before, observer@, results));
    changes
}

impl<T: AsIter + 'static> Observable for ChangeFilter<T> where <T as AsIter>::Item: MaybeObservable {
    type Observer<'a> = Vec<Observer<'a, <T as AsIter>::Item>>;
    type Changes<'a> = Vec<(usize, <<T as AsIter>::Item as MaybeObservable>::ChangesInner<'a>)>;

    /// Each element is pulled against the observer at its position (a fresh one for new
    /// elements); the changes are those of the elements that reported one, with their
    /// positions, in order.
    open spec fn pulled<'a, 'b>(
        &self,
        before: Vec<Observer<'b, <T as AsIter>::Item>>,
        after: Vec<Observer<'b, <T as AsIter>::Item>>,
        changes: Vec<(usize, <<T as AsIter>::Item as MaybeObservable>::ChangesInner<'a>)>,
    ) -> bool {
        exists|results: Seq<Option<<<T as AsIter>::Item as MaybeObservable>::ChangesInner<'a>>>|
            {
                &&& items_try_pulled(self.0.items(), before@, after@, results)
                &&& changes@ == reported(results)
            }
    }

    open spec fn can_pull<'b>(&self, observer: Vec<Observer<'b, <T as AsIter>::Item>>) -> bool {
        items_can_pull(self.0.items(), observer@)
    }

    fn pull_changes<'a, 'b>(&'a self, observer: &mut Observer<'b, Self>) -> (changes: Vec<
        (usize, <<T as AsIter>::Item as MaybeObservable>::ChangesInner<'a>),
    >) {
        pull_filter_changes(&self.0, &mut observer.inner)
    }
}

/// Nothing is reported when no element's pull reported a change.
pub proof fn lemma_reported_none<C>(results: Seq<Option<C>>)
    requires
        forall|i: int| 0 <= i < results.len() ==> results[i] is None,
    ensures
        reported(results).len() == 0,
    decreases results.len(),
{
    if results.len() > 0 {
        lemma_reported_none(results.drop_last());
    }
}

impl<T: AsIter + 'static> ObservableLaws for ChangeFilter<T> where <T as AsIter>::Item: MaybeObservableLaws {
    open spec fn up_to_date<'b>(&self, observer: Vec<Observer<'b, <T as AsIter>::Item>>) -> bool {
        items_up_to_date(self.0.items(), observer@)
    }

    /// No element is reported.
    open spec fn unchanged<'a>(
        &self,
        changes: Vec<(usize, <<T as AsIter>::Item as MaybeObservable>::ChangesInner<'a>)>,
    ) -> bool {
        changes@.len() == 0
    }

    proof fn lemma_pull_brings_up_to_date<'a, 'b>(
        &self,
        before: Vec<Observer<'b, <T as AsIter>::Item>>,
        after: Vec<Observer<'b, <T as AsIter>::Item>>,
        changes: Vec<(usize, <<T as AsIter>::Item as MaybeObservable>::ChangesInner<'a>)>,
    ) {
        let items = self.0.items();
        let results = choose|results: Seq<Option<<<T as AsIter>::Item as MaybeObservable>::ChangesInner<'a>>>|
            {
                &&& items_try_pulled(items, before@, after@, results)
                &&& changes@ == reported(results)
            };
        assert forall|i: int| 0 <= i < items.len() implies #[trigger] items[i].up_to_date(after@[i].inner) by {
            assert(element_try_pulled(items[i], before@, i, after@[i].inner, results[i]));
            if i < before@.len() {
                items[i].lemma_try_pull_brings_up_to_date(before@[i].inner, after@[i].inner, results[i]);
            } else {
                let o = choose|o: <<T as AsIter>::Item as Observable>::Observer<'b>|
                    is_fresh_observer::<<T as AsIter>::Item>(o) && items[i].try_pulled(o, after@[i].inner, results[i]);
                items[i].lemma_try_pull_brings_up_to_date(o, after@[i].inner, results[i]);
            }
        }
    }

    proof fn lemma_up_to_date_pull_is_unchanged<'a, 'b>(
        &self,
        before: Vec<Observer<'b, <T as AsIter>::Item>>,
        after: Vec<Observer<'b, <T as AsIter>::Item>>,
        changes: Vec<(usize, <<T as AsIter>::Item as MaybeObservable>::ChangesInner<'a>)>,
    ) {
        let items = self.0.items();
        assert forall|i: int| 0 <= i < items.len() implies #[trigger] element_can_pull(items[i], before@, i) by {
            items[i].lemma_up_to_date_pull_is_unchanged(before@[i].inner, before@[i].inner, arbitrary());
        }
        if self.pulled(before, after, changes) {
            let results = choose|results: Seq<Option<<<T as AsIter>::Item as MaybeObservable>::ChangesInner<'a>>>|
                {
                    &&& items_try_pulled(items, before@, after@, results)
                    &&& changes@ == reported(results)
                };
            assert forall|i: int| 0 <= i < results.len() implies results[i] is None by {
                assert(element_try_pulled(items[i], before@, i, after@[i].inner, results[i]));
                items[i].lemma_up_to_date_try_pull_is_none(before@[i].inner, after@[i].inner, results[i]);
            }
            lemma_reported_none(results);
        }
    }
}

/// A trait for types that can be observed as an iterable over `MaybeObservable`.
///
/// Used to avoid having to wrap the iterable in `ChangeFilter<T>`.
pub trait ObservableAsFilter: AsIter + Sized + 'static where <Self as AsIter>::Item: MaybeObservable {
    /// Pulls the changes of the elements that changed, as `ChangeFilter(self)` would.
    fn filter_changes<'a, 'b>(&'a self, observer: &mut Observer<'b, ChangeFilter<Self>>) -> (changes: Vec<
        (usize, <<Self as AsIter>::Item as MaybeObservable>::ChangesInner<'a>),
    >)
        requires
            items_can_pull(self.items(), old(observer).inner@),
        ensures
            exists|results: Seq<Option<<<Self as AsIter>::Item as MaybeObservable>::ChangesInner<'a>>>|
                {
                    &&& items_try_pulled(self.items(), old(observer).inner@, final(observer).inner@, results)
                    &&& changes@ == reported(results)
                },
    ;
}

impl<T: AsIter + 'static> ObservableAsFilter for T where <T as AsIter>::Item: MaybeObservable {
    fn filter_changes<'a, 'b>(&'a self, observer: &mut Observer<'b, ChangeFilter<T>>) -> (changes: Vec<
        (usize, <<T as AsIter>::Item as MaybeObservable>::ChangesInner<'a>),
    >) {
        pull_filter_changes(self, &mut observer.inner)
    }
}

} // verus!
