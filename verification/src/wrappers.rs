//! Wrappers that choose how a value is observed: [`Untracked`] always reports it,
//! [`Atomic`] reports it after a mutable access, [`AtomicHash`] reports it when its hash moves.
use vstd::prelude::*;

use crate::{MaybeObservable, MaybeObservableLaws, Observable, ObservableLaws, Observer};

verus! {

/// A wrapper that treats the inner value as untracked and always reports it as changed.
///
/// Use this when you don't need change detection and just want to carry the current value each time.
#[derive(Debug)]
pub struct Untracked<T>(pub T);

impl<T: Default> Default for Untracked<T> {
    fn default() -> (untracked: Self)
        ensures
            call_ensures(T::default, (), untracked.0),
    {
        Untracked(T::default())
    }
}

impl<T> core::ops::Deref for Untracked<T> {
    type Target = T;

    fn deref(&self) -> (inner: &T)
        ensures
            *inner == self.0,
    {
        &self.0
    }
}

impl<T> core::ops::DerefMut for Untracked<T> {
    fn deref_mut(&mut self) -> (inner: &mut T)
        ensures
            *inner == old(self).0,
            final(self).0 == *final(inner),
    {
        &mut self.0
    }
}

impl<T> From<T> for Untracked<T> {
    fn from(value: T) -> (untracked: Self) {
        Untracked(value)
    }
}

impl<T> vstd::std_specs::convert::FromSpecImpl<T> for Untracked<T> {
    open spec fn obeys_from_spec() -> bool {
        true
    }

    open spec fn from_spec(v: T) -> Self {
        Untracked(v)
    }
}

impl<T: 'static> Observable for Untracked<T> {
    type Observer<'b> = ();
    type Changes<'b> = &'b T;

    /// The current value is reported, whatever the observer saw.
    open spec fn pulled<'a, 'b>(&self, before: (), after: (), changes: &'a T) -> bool {
        *changes == self.0
    }

    open spec fn can_pull<'b>(&self, observer: ()) -> bool {
        true
    }

    fn pull_changes<'a, 'b>(&'a self, _observer: &mut Observer<'b, Self>) -> (changes: &'a T) {
        &self.0
    }
}

impl<T: 'static> ObservableLaws for Untracked<T> {
    open spec fn up_to_date<'b>(&self, observer: ()) -> bool {
        true
    }

    /// An untracked value reports nothing beyond its current value.
    open spec fn unchanged<'a>(&self, changes: &'a T) -> bool {
        *changes == self.0
    }

    proof fn lemma_pull_brings_up_to_date<'a, 'b>(&self, before: (), after: (), changes: &'a T) {
    }

    proof fn lemma_up_to_date_pull_is_unchanged<'a, 'b>(&self, before: (), after: (), changes: &'a T) {
    }
}

/// A counter of mutable accesses, kept by [`Atomic`].
pub trait ChangeCounter: Copy + Default {
    /// The number of accesses the counter stands for.
    spec fn count(self) -> nat;

    /// One more than the largest count the counter can hold.
    spec fn limit() -> nat;

    /// The counter at zero.
    spec fn spec_zero() -> Self;

    /// Returns the counter at zero.
    fn zero() -> (counter: Self)
        ensures
            counter == Self::spec_zero(),
            counter.count() == 0,
    ;

    /// The counter advanced by one access (`counter + 1`).
    fn incremented(&self) -> (counter: Self)
        requires
            self.count() + 1 < Self::limit(),
        ensures
            counter.count() == self.count() + 1,
    ;

    /// The counter advanced by one access, back to zero after its largest count.
    fn wrapping_incremented(&self) -> (counter: Self)
        ensures
            counter.count() == (self.count() + 1) % Self::limit(),
    ;

    /// A count is below the limit, and the counter can hold at least two counts, so that
    /// one access always moves it.
    proof fn lemma_count_range(self)
        ensures
            self.count() < Self::limit(),
            Self::limit() > 1,
    ;

    /// Whether two counters stand for the same count.
    fn same_count(&self, other: &Self) -> (same: bool)
        ensures
            same == (self.count() == other.count()),
    ;
}

impl ChangeCounter for u8 {
    open spec fn count(self) -> nat {
        self as nat
    }

    open spec fn limit() -> nat {
        u8::MAX as nat + 1
    }

    open spec fn spec_zero() -> u8 {
        0
    }

    fn zero() -> (counter: u8) {
        0
    }

    fn incremented(&self) -> (counter: u8) {
        *self + 1
    }

    fn wrapping_incremented(&self) -> (counter: u8) {
        if *self == u8::MAX {
            0
        } else {
            *self + 1
        }
    }

    proof fn lemma_count_range(self) {
    }

    fn same_count(&self, other: &u8) -> (same: bool) {
        *self == *other
    }
}

impl ChangeCounter for u16 {
    open spec fn count(self) -> nat {
        self as nat
    }

    open spec fn limit() -> nat {
        u16::MAX as nat + 1
    }

    open spec fn spec_zero() -> u16 {
        0
    }

    fn zero() -> (counter: u16) {
        0
    }

    fn incremented(&self) -> (counter: u16) {
        *self + 1
    }

    fn wrapping_incremented(&self) -> (counter: u16) {
        if *self == u16::MAX {
            0
        } else {
            *self + 1
        }
    }

    proof fn lemma_count_range(self) {
    }

    fn same_count(&self, other: &u16) -> (same: bool) {
        *self == *other
    }
}

impl ChangeCounter for u32 {
    open spec fn count(self) -> nat {
        self as nat
    }

    open spec fn limit() -> nat {
        u32::MAX as nat + 1
    }

    open spec fn spec_zero() -> u32 {
        0
    }

    fn zero() -> (counter: u32) {
        0
    }

    fn incremented(&self) -> (counter: u32) {
        *self + 1
    }

    fn wrapping_incremented(&self) -> (counter: u32) {
        if *self == u32::MAX {
            0
        } else {
            *self + 1
        }
    }

    proof fn lemma_count_range(self) {
    }

    fn same_count(&self, other: &u32) -> (same: bool) {
        *self == *other
    }
}

impl ChangeCounter for u64 {
    open spec fn count(self) -> nat {
        self as nat
    }

    open spec fn limit() -> nat {
        u64::MAX as nat + 1
    }

    open spec fn spec_zero() -> u64 {
        0
    }

    fn zero() -> (counter: u64) {
        0
    }

    fn incremented(&self) -> (counter: u64) {
        *self + 1
    }

    fn wrapping_incremented(&self) -> (counter: u64) {
        if *self == u64::MAX {
            0
        } else {
            *self + 1
        }
    }

    proof fn lemma_count_range(self) {
    }

    fn same_count(&self, other: &u64) -> (same: bool) {
        *self == *other
    }
}

impl ChangeCounter for u128 {
    open spec fn count(self) -> nat {
        self as nat
    }

    open spec fn limit() -> nat {
        u128::MAX as nat + 1
    }

    open spec fn spec_zero() -> u128 {
        0
    }

    fn zero() -> (counter: u128) {
        0
    }

    fn incremented(&self) -> (counter: u128) {
        *self + 1
    }

    fn wrapping_incremented(&self) -> (counter: u128) {
        if *self == u128::MAX {
            0
        } else {
            *self + 1
        }
    }

    proof fn lemma_count_range(self) {
    }

    fn same_count(&self, other: &u128) -> (same: bool) {
        *self == *other
    }
}

impl ChangeCounter for usize {
    open spec fn count(self) -> nat {
        self as nat
    }

    open spec fn limit() -> nat {
        usize::MAX as nat + 1
    }

    open spec fn spec_zero() -> usize {
        0
    }

    fn zero() -> (counter: usize) {
        0
    }

    fn incremented(&self) -> (counter: usize) {
        *self + 1
    }

    fn wrapping_incremented(&self) -> (counter: usize) {
        if *self == usize::MAX {
            0
        } else {
            *self + 1
        }
    }

    proof fn lemma_count_range(self) {
    }

    fn same_count(&self, other: &usize) -> (same: bool) {
        *self == *other
    }
}

/// A wrapper that observes `T` as a single atomic value and only reports changes if the
/// value was mutably accessed since the last observation.
///
/// Each mutable access (through `DerefMut`, which wraps around at the counter's maximum, or
/// [`Atomic::set_changed`]) advances a counter; an observer remembers the counter it last
/// saw.
#[derive(Debug)]
pub struct Atomic<T, N = u16> {
    inner: T,
    counter: N,
}

impl<T, N: ChangeCounter> Atomic<T, N> {
    /// The wrapped value.
    pub closed spec fn value(&self) -> T {
        self.inner
    }

    /// The count that the access counter holds.
    pub closed spec fn accesses(&self) -> nat {
        self.counter.count()
    }

    /// Wraps `value`, with no access counted.
    pub fn new(value: T) -> (atomic: Self)
        ensures
            atomic.value() == value,
            atomic.accesses() == 0,
    {
        Atomic { inner: value, counter: N::zero() }
    }

    /// Marks the value as changed without touching it.
    pub fn set_changed(&mut self)
        requires
            old(self).accesses() + 1 < N::limit(),
        ensures
            final(self).value() == old(self).value(),
            final(self).accesses() == old(self).accesses() + 1,
    {
        self.counter = self.counter.incremented();
    }

    /// The number of mutable accesses so far, as the counter holds it.
    pub fn counter(&self) -> (counter: N)
        ensures
            counter.count() == self.accesses(),
    {
        self.counter
    }
}

impl<T, N: ChangeCounter> core::ops::Deref for Atomic<T, N> {
    type Target = T;

    /// Shared access to the value; not a change.
    fn deref(&self) -> (inner: &T)
        ensures
            *inner == self.value(),
    {
        &self.inner
    }
}

impl<T, N: ChangeCounter> core::ops::DerefMut for Atomic<T, N> {
    /// Mutable access to the value; counts as a change. The counter wraps around to zero
    /// after its maximum.
    fn deref_mut(&mut self) -> (inner: &mut T)
        ensures
            *inner == old(self).value(),
            final(self).value() == *final(inner),
            final(self).accesses() == (old(self).accesses() + 1) % N::limit(),
    {
        self.counter = self.counter.wrapping_incremented();
        &mut self.inner
    }
}

impl<T: Default, N: ChangeCounter> Default for Atomic<T, N> {
    fn default() -> (atomic: Self)
        ensures
            call_ensures(T::default, (), atomic.value()),
            atomic.accesses() == 0,
    {
        Atomic { inner: T::default(), counter: N::zero() }
    }
}

impl<T, N: ChangeCounter> From<T> for Atomic<T, N> {
    fn from(value: T) -> (atomic: Self)
        ensures
            atomic.value() == value,
            atomic.accesses() == 0,
    {
        Atomic { inner: value, counter: N::zero() }
    }
}

impl<T, N: ChangeCounter> vstd::std_specs::convert::FromSpecImpl<T> for Atomic<T, N> {
    open spec fn obeys_from_spec() -> bool {
        true
    }

    closed spec fn from_spec(v: T) -> Self {
        Atomic { inner: v, counter: N::spec_zero() }
    }
}

/// Whether an observer that last saw the access count `seen` (`None`: nothing seen) has
/// missed a change of a value at access count `current`.
pub open spec fn missed_accesses<N: ChangeCounter>(seen: Option<N>, current: nat) -> bool {
    match seen {
        Some(n) => n.count() != current,
        None => true,
    }
}

impl<T: 'static, N: ChangeCounter + 'static> Observable for Atomic<T, N> {
    type Observer<'b> = Option<N>;
    type Changes<'b> = Option<&'b T>;

    /// The value is reported iff it was accessed mutably since the observer last saw it;
    /// the observer then holds the current access count.
    open spec fn pulled<'a, 'b>(&self, before: Option<N>, after: Option<N>, changes: Option<&'a T>) -> bool {
        &&& after matches Some(n) && n.count() == self.accesses()
        &&& if missed_accesses(before, self.accesses()) {
            changes matches Some(v) && *v == self.value()
        } else {
            changes is None
        }
    }

    open spec fn can_pull<'b>(&self, observer: Option<N>) -> bool {
        true
    }

    fn pull_changes<'a, 'b>(&'a self, observer: &mut Observer<'b, Self>) -> (changes: Option<&'a T>) {
        let missed = match &observer.inner {
            Some(seen) => !seen.same_count(&self.counter),
            None => true,
        };
        observer.inner = Some(self.counter);
        if missed {
            Some(&self.inner)
        } else {
            None
        }
    }
}

impl<T: 'static, N: ChangeCounter + 'static> ObservableLaws for Atomic<T, N> {
    open spec fn up_to_date<'b>(&self, observer: Option<N>) -> bool {
        observer matches Some(n) && n.count() == self.accesses()
    }

    open spec fn unchanged<'a>(&self, changes: Option<&'a T>) -> bool {
        changes is None
    }

    proof fn lemma_pull_brings_up_to_date<'a, 'b>(&self, before: Option<N>, after: Option<N>, changes: Option<&'a T>) {
    }

    proof fn lemma_up_to_date_pull_is_unchanged<'a, 'b>(&self, before: Option<N>, after: Option<N>, changes: Option<&'a T>) {
    }
}

/// A mutable access is seen at the next pull: an observer that was up to date with an
/// `Atomic` reports its value once the value has been accessed mutably once more (through
/// `DerefMut`, which wraps the counter around, or `set_changed`). Several observers each see
/// the access, as a pull changes only its own observer.
pub proof fn lemma_access_is_reported<'a, T: 'static, N: ChangeCounter + 'static>(
    before: Atomic<T, N>,
    after: Atomic<T, N>,
    seen: Option<N>,
    left: Option<N>,
    changes: Option<&'a T>,
)
    requires
        before.up_to_date(seen),
        after.accesses() == (before.accesses() + 1) % N::limit() || after.accesses()
            == before.accesses() + 1,
        after.pulled(seen, left, changes),
    ensures
        changes matches Some(v) && *v == after.value(),
{
    before.counter.lemma_count_range();
    after.counter.lemma_count_range();
    let a = before.accesses();
    let limit = N::limit();
    if a + 1 < limit {
        vstd::arithmetic::div_mod::lemma_small_mod((a + 1) as nat, limit);
    } else {
        assert((a + 1) % limit == 0) by (nonlinear_arith)
            requires
                a + 1 == limit,
                limit > 1,
        ;
    }
}

impl<T: 'static, N: ChangeCounter + 'static> MaybeObservable for Atomic<T, N> {
    type ChangesInner<'a> = &'a T;

    open spec fn try_pulled<'a, 'b>(&self, before: Option<N>, after: Option<N>, changes: Option<&'a T>) -> bool {
        self.pulled(before, after, changes)
    }

    fn try_pull_changes<'a, 'b>(&'a self, observer: &mut Observer<'b, Self>) -> (changes: Option<&'a T>) {
        self.pull_changes(observer)
    }
}

impl<T: 'static, N: ChangeCounter + 'static> MaybeObservableLaws for Atomic<T, N> {
    proof fn lemma_try_pull_brings_up_to_date<'a, 'b>(&self, before: Option<N>, after: Option<N>, changes: Option<&'a T>) {
    }

    proof fn lemma_up_to_date_try_pull_is_none<'a, 'b>(&self, before: Option<N>, after: Option<N>, changes: Option<&'a T>) {
    }
}

/// A wrapper that treats the inner value as a hash and reports changes if the hash changes.
/// Similar to `Atomic<T, N>` but for hashes.
///
/// ### ✅ Useful for types with interior mutability
#[derive(Debug)]
pub struct AtomicHash<T, H = std::hash::DefaultHasher>(pub T, core::marker::PhantomData<H>);

impl<T, H> AtomicHash<T, H> {
    /// The wrapped value.
    pub closed spec fn value(&self) -> T {
        self.0
    }

    /// Wraps `value`.
    pub fn new(value: T) -> (atomic: Self)
        ensures
            atomic.value() == value,
    {
        AtomicHash(value, core::marker::PhantomData)
    }
}

impl<T: Default, H> Default for AtomicHash<T, H> {
    fn default() -> (atomic: Self)
        ensures
            call_ensures(T::default, (), atomic.value()),
    {
        AtomicHash(T::default(), core::marker::PhantomData)
    }
}

impl<T, H> core::ops::Deref for AtomicHash<T, H> {
    type Target = T;

    fn deref(&self) -> (inner: &T)
        ensures
            *inner == self.value(),
    {
        &self.0
    }
}

impl<T, H> core::ops::DerefMut for AtomicHash<T, H> {
    fn deref_mut(&mut self) -> (inner: &mut T)
        ensures
            *inner == old(self).value(),
            final(self).value() == *final(inner),
    {
        &mut self.0
    }
}

impl<T, H> From<T> for AtomicHash<T, H> {
    fn from(value: T) -> (atomic: Self)
        ensures
            atomic.value() == value,
    {
        AtomicHash(value, core::marker::PhantomData)
    }
}

impl<T, H> vstd::std_specs::convert::FromSpecImpl<T> for AtomicHash<T, H> {
    open spec fn obeys_from_spec() -> bool {
        true
    }

    closed spec fn from_spec(v: T) -> Self {
        AtomicHash(v, core::marker::PhantomData)
    }
}

/// Feeds `value` into `state` (`Hash::hash`) and hands the hasher back. What it writes
/// depends on the `Hash` impl of `T`; nothing is stated of it.
#[verifier::external_body]
fn feed_hasher<T: std::hash::Hash, H: std::hash::Hasher>(value: &T, state: H) -> H {
    let mut state = state;
    value.hash(&mut state);
    state
}

/// The hash that `state` holds (`Hasher::finish`). It depends on the hasher's
/// implementation and on what was fed to it; nothing is stated of it.
#[verifier::external_body]
fn finish_hasher<H: std::hash::Hasher>(state: &H) -> u64 {
    state.finish()
}

/// The hash of `value` under a fresh hasher of type `H`: `value` is fed to
/// `H::default()`, then the hasher is finished.
pub fn hash_value<T: std::hash::Hash, H: std::hash::Hasher + Default>(value: &T) -> (hash: u64)
    ensures
        is_hash_of::<T, H>(*value, hash),
{
    let new_hasher = H::default;
    let feed = feed_hasher::<T, H>;
    let finish = finish_hasher::<H>;
    let fresh = new_hasher();
    let fed = feed(value, fresh);
    finish(&fed)
}

/// `hash` is what a hasher of type `H` gives when it is made by `H::default()`, fed
/// `value` by `Hash::hash`, and finished by `Hasher::finish`.
pub closed spec fn is_hash_of<T: std::hash::Hash, H: std::hash::Hasher + Default>(value: T, hash: u64) -> bool {
    exists|fresh: H, fed: H|
        {
            &&& call_ensures(H::default, (), fresh)
            &&& call_ensures(feed_hasher::<T, H>, (&value, fresh), fed)
            &&& call_ensures(finish_hasher::<H>, (&fed,), hash)
        }
}

/// Brings a hash observer up to date with the hash `current` of the observed value and
/// says whether the value is to be reported: when the hash the observer holds (`0` for a
/// fresh observer) differs from `current`.
pub fn observe_hash(previous_hash: &mut u64, current: u64) -> (changed: bool)
    ensures
        *final(previous_hash) == current,
        changed == (*old(previous_hash) != current),
{
    let changed = *previous_hash != current;
    *previous_hash = current;
    changed
}

impl<T: std::hash::Hash + 'static, H: std::hash::Hasher + Default + 'static> Observable for AtomicHash<T, H> {
    type Observer<'b> = u64;
    type Changes<'b> = Option<&'b T>;

    /// The observer holds afterwards the hash that the value had at the pull, and the value
    /// is reported iff the observer held another hash before (a fresh observer holds `0`).
    open spec fn pulled<'a, 'b>(&self, before: u64, after: u64, changes: Option<&'a T>) -> bool {
        &&& is_hash_of::<T, H>(self.value(), after)
        &&& if before == after {
            changes is None
        } else {
            changes matches Some(v) && *v == self.value()
        }
    }

    open spec fn can_pull<'b>(&self, observer: u64) -> bool {
        true
    }

    fn pull_changes<'a, 'b>(&'a self, observer: &mut Observer<'b, Self>) -> (changes: Option<&'a T>) {
        let current = hash_value::<T, H>(&self.0);
        if observe_hash(&mut observer.inner, current) {
            Some(&self.0)
        } else {
            None
        }
    }
}

/// A pull of an `AtomicHash` leaves the observer holding the hash of the value at the pull
/// (a fresh `H::default()` fed the value and finished), and reports the value exactly when
/// that hash differs from the hash the observer held before.
pub proof fn lemma_hash_pull_tracks_hash<'a, T: std::hash::Hash + 'static, H: std::hash::Hasher + Default + 'static>(
    v: AtomicHash<T, H>,
    before: u64,
    after: u64,
    changes: Option<&'a T>,
)
    requires
        v.pulled(before, after, changes),
    ensures
        is_hash_of::<T, H>(v.value(), after),
        changes is Some <==> before != after,
        changes matches Some(r) ==> *r == v.value(),
{
}

impl<T: std::hash::Hash + 'static, H: std::hash::Hasher + Default + 'static> MaybeObservable for AtomicHash<T, H> {
    type ChangesInner<'a> = &'a T;

    open spec fn try_pulled<'a, 'b>(&self, before: u64, after: u64, changes: Option<&'a T>) -> bool {
        self.pulled(before, after, changes)
    }

    fn try_pull_changes<'a, 'b>(&'a self, observer: &mut Observer<'b, Self>) -> (changes: Option<&'a T>) {
        self.pull_changes(observer)
    }
}

} // verus!
