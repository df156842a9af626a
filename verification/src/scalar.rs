//! Observation of plain `Copy` values: integers by difference, `bool` by inequality.
use vstd::prelude::*;

use crate::manual::{SubObservable, TriviallyObservable};
use crate::{Observable, ObservableLaws, Observer};

verus! {

impl<T: SubObservable> TriviallyObservable for T {
    type Detective = <T as SubObservable>::Detective;

    open spec fn recorded(self) -> Self::Detective {
        self.widened()
    }

    open spec fn spec_delta(self, previous: Self::Detective) -> Self::Detective {
        T::difference(self.widened(), previous)
    }

    open spec fn delta_defined(self, previous: Self::Detective) -> bool {
        T::difference_defined(self.widened(), previous)
    }

    open spec fn is_no_change(delta: Self::Detective) -> bool {
        T::is_zero(delta)
    }

    fn record(&self) -> (detective: Self::Detective) {
        self.widen()
    }

    fn delta(&self, observer: &Self::Detective) -> (delta: Self::Detective) {
        T::subtract(self.widen(), *observer)
    }

    proof fn lemma_delta_against_record(self) {
        T::lemma_difference_with_itself(self.widened());
    }

    proof fn lemma_no_change_is_default(delta: Self::Detective, fresh: Self::Detective) {
        T::lemma_default_is_zero(fresh);
    }
}

impl TriviallyObservable for bool {
    type Detective = bool;

    open spec fn recorded(self) -> bool {
        self
    }

    open spec fn spec_delta(self, previous: bool) -> bool {
        self != previous
    }

    open spec fn delta_defined(self, previous: bool) -> bool {
        true
    }

    open spec fn is_no_change(delta: bool) -> bool {
        !delta
    }

    fn record(&self) -> (detective: bool) {
        *self
    }

    fn delta(&self, observer: &bool) -> (delta: bool) {
        let changes = *self != *observer;
        changes
    }

    proof fn lemma_delta_against_record(self) {
    }

    proof fn lemma_no_change_is_default(delta: bool, fresh: bool) {
    }
}

impl<T: TriviallyObservable + 'static> Observable for T {
    type Observer<'b> = T::Detective;
    type Changes<'b> = T::Detective;

    /// The delta against the recorded state is reported, and the observer records the
    /// current state.
    open spec fn pulled<'a, 'b>(&self, before: T::Detective, after: T::Detective, changes: T::Detective) -> bool {
        &&& changes == self.spec_delta(before)
        &&& after == self.recorded()
    }

    open spec fn can_pull<'b>(&self, observer: T::Detective) -> bool {
        self.delta_defined(observer)
    }

    fn pull_changes<'a, 'b>(&'a self, observer: &mut Observer<'b, Self>) -> (changes: T::Detective) {
        let changes = self.delta(&observer.inner);
        observer.inner = self.record();
        changes
    }
}

impl<T: TriviallyObservable + 'static> ObservableLaws for T {
    open spec fn up_to_date<'b>(&self, observer: T::Detective) -> bool {
        observer == self.recorded()
    }

    open spec fn unchanged<'a>(&self, changes: T::Detective) -> bool {
        T::is_no_change(changes)
    }

    proof fn lemma_pull_brings_up_to_date<'a, 'b>(&self, before: T::Detective, after: T::Detective, changes: T::Detective) {
    }

    proof fn lemma_up_to_date_pull_is_unchanged<'a, 'b>(&self, before: T::Detective, after: T::Detective, changes: T::Detective) {
        self.lemma_delta_against_record();
    }
}

/// Round trip: the previously observed value plus the reported change is the current value,
/// and the observer then holds the current value.
pub proof fn lemma_pull_round_trip<T: SubObservable + 'static>(
    x: T,
    before: <T as SubObservable>::Detective,
    after: <T as SubObservable>::Detective,
    changes: <T as SubObservable>::Detective,
)
    requires
        x.can_pull(before),
        x.pulled(before, after, changes),
    ensures
        T::amount(before) + T::amount(changes) == T::amount(x.widened()),
        after == x.widened(),
{
    T::lemma_difference_subtracts(x.widened(), before);
}

/// A pull against an observer that holds the current value reports what
/// `Default::default` gives for the changes (`0`, or `false` for `bool`) and leaves the
/// observer as it was.
pub proof fn lemma_repull_reports_default<T: TriviallyObservable + 'static>(
    x: T,
    before: <T as TriviallyObservable>::Detective,
    after: <T as TriviallyObservable>::Detective,
    changes: <T as TriviallyObservable>::Detective,
    fresh: <T as TriviallyObservable>::Detective,
)
    requires
        before == x.recorded(),
        x.pulled(before, after, changes),
        call_ensures(<<T as TriviallyObservable>::Detective as core::default::Default>::default, (), fresh),
    ensures
        changes == fresh,
        after == before,
{
    x.lemma_delta_against_record();
    T::lemma_no_change_is_default(changes, fresh);
}

/// The sum of the amounts that `changes` stand for.
pub open spec fn sum_amounts<T: SubObservable>(changes: Seq<<T as SubObservable>::Detective>) -> int
    decreases changes.len(),
{
    if changes.len() == 0 {
        0
    } else {
        sum_amounts::<T>(changes.drop_last()) + T::amount(changes.last())
    }
}

/// `observers[i]` to `observers[i + 1]` is a pull of `values[i]` reporting `changes[i]`, for
/// every `i`, starting from a fresh observer.
pub open spec fn pulled_in_turn<T: SubObservable + 'static>(
    values: Seq<T>,
    observers: Seq<<T as SubObservable>::Detective>,
    changes: Seq<<T as SubObservable>::Detective>,
) -> bool {
    &&& observers.len() == values.len() + 1
    &&& changes.len() == values.len()
    &&& call_ensures(<<T as SubObservable>::Detective as core::default::Default>::default, (), observers[0])
    &&& forall|i: int|
        #![trigger values[i]]
        0 <= i < values.len() ==> values[i].can_pull(observers[i]) && values[i].pulled(
            observers[i],
            observers[i + 1],
            changes[i],
        )
}

/// After `k` of the pulls, the changes reported so far add up to what the observer holds.
proof fn lemma_pulls_sum_prefix<T: SubObservable + 'static>(
    values: Seq<T>,
    observers: Seq<<T as SubObservable>::Detective>,
    changes: Seq<<T as SubObservable>::Detective>,
    k: int,
)
    requires
        pulled_in_turn(values, observers, changes),
        0 <= k <= values.len(),
    ensures
        sum_amounts::<T>(changes.take(k)) == T::amount(observers[k]),
    decreases k,
{
    if k == 0 {
        T::lemma_default_is_zero(observers[0]);
        assert(changes.take(0).len() == 0);
    } else {
        lemma_pulls_sum_prefix(values, observers, changes, k - 1);
        assert(changes.take(k).drop_last() == changes.take(k - 1));
        let x = values[k - 1];
        lemma_pull_round_trip(x, observers[k - 1], observers[k], changes[k - 1]);
    }
}

/// Starting from a fresh observer and pulling `values` in turn, the reported changes add
/// up to the last value, which the observer then holds.
pub proof fn lemma_pulls_sum_to_last<T: SubObservable + 'static>(
    values: Seq<T>,
    observers: Seq<<T as SubObservable>::Detective>,
    changes: Seq<<T as SubObservable>::Detective>,
)
    requires
        values.len() > 0,
        pulled_in_turn(values, observers, changes),
    ensures
        sum_amounts::<T>(changes) == T::amount(values.last().widened()),
        observers.last() == values.last().widened(),
{
    let n = values.len() as int;
    lemma_pulls_sum_prefix(values, observers, changes, n);
    assert(changes.take(n) == changes);
    lemma_pull_round_trip(values[n - 1], observers[n - 1], observers[n], changes[n - 1]);
}

/// A pull of a `bool` reports whether it differs from the value the observer held, and
/// leaves the observer holding the current value; from a fresh observer it reports the
/// value itself.
pub proof fn lemma_bool_pull_is_inequality(x: bool, before: bool, after: bool, changes: bool)
    requires
        x.pulled(before, after, changes),
    ensures
        changes == (x != before),
        after == x,
        call_ensures(bool::default, (), before) ==> changes == x,
{
}

/// A pull of an `i8` reports the current value minus the value the observer held, as a
/// `i8`, and leaves the observer holding the current value; from a fresh observer it
/// reports the value itself.
pub proof fn lemma_i8_pull_is_difference(x: i8, before: i8, after: i8, changes: i8)
    requires
        x.can_pull(before),
        x.pulled(before, after, changes),
    ensures
        changes as int == x as int - before as int,
        after as int == x as int,
        call_ensures(i8::default, (), before) ==> changes as int == x as int,
{
}

/// A pull of an `i16` reports the current value minus the value the observer held, as a
/// `i16`, and leaves the observer holding the current value; from a fresh observer it
/// reports the value itself.
pub proof fn lemma_i16_pull_is_difference(x: i16, before: i16, after: i16, changes: i16)
    requires
        x.can_pull(before),
        x.pulled(before, after, changes),
    ensures
        changes as int == x as int - before as int,
        after as int == x as int,
        call_ensures(i16::default, (), before) ==> changes as int == x as int,
{
}

/// A pull of an `i32` reports the current value minus the value the observer held, as a
/// `i32`, and leaves the observer holding the current value; from a fresh observer it
/// reports the value itself.
pub proof fn lemma_i32_pull_is_difference(x: i32, before: i32, after: i32, changes: i32)
    requires
        x.can_pull(before),
        x.pulled(before, after, changes),
    ensures
        changes as int == x as int - before as int,
        after as int == x as int,
        call_ensures(i32::default, (), before) ==> changes as int == x as int,
{
}

/// A pull of an `i64` reports the current value minus the value the observer held, as a
/// `i64`, and leaves the observer holding the current value; from a fresh observer it
/// reports the value itself.
pub proof fn lemma_i64_pull_is_difference(x: i64, before: i64, after: i64, changes: i64)
    requires
        x.can_pull(before),
        x.pulled(before, after, changes),
    ensures
        changes as int == x as int - before as int,
        after as int == x as int,
        call_ensures(i64::default, (), before) ==> changes as int == x as int,
{
}

/// A pull of an `i128` reports the current value minus the value the observer held, as a
/// `i128`, and leaves the observer holding the current value; from a fresh observer it
/// reports the value itself.
pub proof fn lemma_i128_pull_is_difference(x: i128, before: i128, after: i128, changes: i128)
    requires
        x.can_pull(before),
        x.pulled(before, after, changes),
    ensures
        changes as int == x as int - before as int,
        after as int == x as int,
        call_ensures(i128::default, (), before) ==> changes as int == x as int,
{
}

/// A pull of a `u8` reports the current value minus the value the observer held, as a
/// `i16`, and leaves the observer holding the current value; from a fresh observer it
/// reports the value itself.
pub proof fn lemma_u8_pull_is_difference(x: u8, before: i16, after: i16, changes: i16)
    requires
        x.can_pull(before),
        x.pulled(before, after, changes),
    ensures
        changes as int == x as int - before as int,
        after as int == x as int,
        call_ensures(i16::default, (), before) ==> changes as int == x as int,
{
}

/// A pull of a `u16` reports the current value minus the value the observer held, as a
/// `i32`, and leaves the observer holding the current value; from a fresh observer it
/// reports the value itself.
pub proof fn lemma_u16_pull_is_difference(x: u16, before: i32, after: i32, changes: i32)
    requires
        x.can_pull(before),
        x.pulled(before, after, changes),
    ensures
        changes as int == x as int - before as int,
        after as int == x as int,
        call_ensures(i32::default, (), before) ==> changes as int == x as int,
{
}

/// A pull of a `u32` reports the current value minus the value the observer held, as a
/// `i64`, and leaves the observer holding the current value; from a fresh observer it
/// reports the value itself.
pub proof fn lemma_u32_pull_is_difference(x: u32, before: i64, after: i64, changes: i64)
    requires
        x.can_pull(before),
        x.pulled(before, after, changes),
    ensures
        changes as int == x as int - before as int,
        after as int == x as int,
        call_ensures(i64::default, (), before) ==> changes as int == x as int,
{
}

/// A pull of a `u64` reports the current value minus the value the observer held, as a
/// `i128`, and leaves the observer holding the current value; from a fresh observer it
/// reports the value itself.
pub proof fn lemma_u64_pull_is_difference(x: u64, before: i128, after: i128, changes: i128)
    requires
        x.can_pull(before),
        x.pulled(before, after, changes),
    ensures
        changes as int == x as int - before as int,
        after as int == x as int,
        call_ensures(i128::default, (), before) ==> changes as int == x as int,
{
}

impl SubObservable for i8 {
    type Detective = i8;

    open spec fn widened(self) -> i8 {
        self as i8
    }

    open spec fn difference(current: i8, previous: i8) -> i8 {
        (current - previous) as i8
    }

    open spec fn difference_defined(current: i8, previous: i8) -> bool {
        i8::MIN <= current - previous <= i8::MAX
    }

    open spec fn is_zero(d: i8) -> bool {
        d == 0
    }

    fn widen(&self) -> (d: i8) {
        *self
    }

    fn subtract(current: i8, previous: i8) -> (d: i8) {
        current - previous
    }

    open spec fn amount(d: i8) -> int {
        d as int
    }

    proof fn lemma_difference_subtracts(current: i8, previous: i8) {
    }

    proof fn lemma_default_is_zero(fresh: i8) {
    }

    proof fn lemma_difference_with_itself(d: i8) {
    }
}

impl SubObservable for i16 {
    type Detective = i16;

    open spec fn widened(self) -> i16 {
        self as i16
    }

    open spec fn difference(current: i16, previous: i16) -> i16 {
        (current - previous) as i16
    }

    open spec fn difference_defined(current: i16, previous: i16) -> bool {
        i16::MIN <= current - previous <= i16::MAX
    }

    open spec fn is_zero(d: i16) -> bool {
        d == 0
    }

    fn widen(&self) -> (d: i16) {
        *self
    }

    fn subtract(current: i16, previous: i16) -> (d: i16) {
        current - previous
    }

    open spec fn amount(d: i16) -> int {
        d as int
    }

    proof fn lemma_difference_subtracts(current: i16, previous: i16) {
    }

    proof fn lemma_default_is_zero(fresh: i16) {
    }

    proof fn lemma_difference_with_itself(d: i16) {
    }
}

impl SubObservable for i32 {
    type Detective = i32;

    open spec fn widened(self) -> i32 {
        self as i32
    }

    open spec fn difference(current: i32, previous: i32) -> i32 {
        (current - previous) as i32
    }

    open spec fn difference_defined(current: i32, previous: i32) -> bool {
        i32::MIN <= current - previous <= i32::MAX
    }

    open spec fn is_zero(d: i32) -> bool {
        d == 0
    }

    fn widen(&self) -> (d: i32) {
        *self
    }

    fn subtract(current: i32, previous: i32) -> (d: i32) {
        current - previous
    }

    open spec fn amount(d: i32) -> int {
        d as int
    }

    proof fn lemma_difference_subtracts(current: i32, previous: i32) {
    }

    proof fn lemma_default_is_zero(fresh: i32) {
    }

    proof fn lemma_difference_with_itself(d: i32) {
    }
}

impl SubObservable for i64 {
    type Detective = i64;

    open spec fn widened(self) -> i64 {
        self as i64
    }

    open spec fn difference(current: i64, previous: i64) -> i64 {
        (current - previous) as i64
    }

    open spec fn difference_defined(current: i64, previous: i64) -> bool {
        i64::MIN <= current - previous <= i64::MAX
    }

    open spec fn is_zero(d: i64) -> bool {
        d == 0
    }

    fn widen(&self) -> (d: i64) {
        *self
    }

    fn subtract(current: i64, previous: i64) -> (d: i64) {
        current - previous
    }

    open spec fn amount(d: i64) -> int {
        d as int
    }

    proof fn lemma_difference_subtracts(current: i64, previous: i64) {
    }

    proof fn lemma_default_is_zero(fresh: i64) {
    }

    proof fn lemma_difference_with_itself(d: i64) {
    }
}

impl SubObservable for i128 {
    type Detective = i128;

    open spec fn widened(self) -> i128 {
        self as i128
    }

    open spec fn difference(current: i128, previous: i128) -> i128 {
        (current - previous) as i128
    }

    open spec fn difference_defined(current: i128, previous: i128) -> bool {
        i128::MIN <= current - previous <= i128::MAX
    }

    open spec fn is_zero(d: i128) -> bool {
        d == 0
    }

    fn widen(&self) -> (d: i128) {
        *self
    }

    fn subtract(current: i128, previous: i128) -> (d: i128) {
        current - previous
    }

    open spec fn amount(d: i128) -> int {
        d as int
    }

    proof fn lemma_difference_subtracts(current: i128, previous: i128) {
    }

    proof fn lemma_default_is_zero(fresh: i128) {
    }

    proof fn lemma_difference_with_itself(d: i128) {
    }
}

impl SubObservable for u8 {
    type Detective = i16;

    open spec fn widened(self) -> i16 {
        self as i16
    }

    open spec fn difference(current: i16, previous: i16) -> i16 {
        (current - previous) as i16
    }

    open spec fn difference_defined(current: i16, previous: i16) -> bool {
        i16::MIN <= current - previous <= i16::MAX
    }

    open spec fn is_zero(d: i16) -> bool {
        d == 0
    }

    fn widen(&self) -> (d: i16) {
        *self as i16
    }

    fn subtract(current: i16, previous: i16) -> (d: i16) {
        current - previous
    }

    open spec fn amount(d: i16) -> int {
        d as int
    }

    proof fn lemma_difference_subtracts(current: i16, previous: i16) {
    }

    proof fn lemma_default_is_zero(fresh: i16) {
    }

    proof fn lemma_difference_with_itself(d: i16) {
    }
}

impl SubObservable for u16 {
    type Detective = i32;

    open spec fn widened(self) -> i32 {
        self as i32
    }

    open spec fn difference(current: i32, previous: i32) -> i32 {
        (current - previous) as i32
    }

    open spec fn difference_defined(current: i32, previous: i32) -> bool {
        i32::MIN <= current - previous <= i32::MAX
    }

    open spec fn is_zero(d: i32) -> bool {
        d == 0
    }

    fn widen(&self) -> (d: i32) {
        *self as i32
    }

    fn subtract(current: i32, previous: i32) -> (d: i32) {
        current - previous
    }

    open spec fn amount(d: i32) -> int {
        d as int
    }

    proof fn lemma_difference_subtracts(current: i32, previous: i32) {
    }

    proof fn lemma_default_is_zero(fresh: i32) {
    }

    proof fn lemma_difference_with_itself(d: i32) {
    }
}

impl SubObservable for u32 {
    type Detective = i64;

    open spec fn widened(self) -> i64 {
        self as i64
    }

    open spec fn difference(current: i64, previous: i64) -> i64 {
        (current - previous) as i64
    }

    open spec fn difference_defined(current: i64, previous: i64) -> bool {
        i64::MIN <= current - previous <= i64::MAX
    }

    open spec fn is_zero(d: i64) -> bool {
        d == 0
    }

    fn widen(&self) -> (d: i64) {
        *self as i64
    }

    fn subtract(current: i64, previous: i64) -> (d: i64) {
        current - previous
    }

    open spec fn amount(d: i64) -> int {
        d as int
    }

    proof fn lemma_difference_subtracts(current: i64, previous: i64) {
    }

    proof fn lemma_default_is_zero(fresh: i64) {
    }

    proof fn lemma_difference_with_itself(d: i64) {
    }
}

impl SubObservable for u64 {
    type Detective = i128;

    open spec fn widened(self) -> i128 {
        self as i128
    }

    open spec fn difference(current: i128, previous: i128) -> i128 {
        (current - previous) as i128
    }

    open spec fn difference_defined(current: i128, previous: i128) -> bool {
        i128::MIN <= current - previous <= i128::MAX
    }

    open spec fn is_zero(d: i128) -> bool {
        d == 0
    }

    fn widen(&self) -> (d: i128) {
        *self as i128
    }

    fn subtract(current: i128, previous: i128) -> (d: i128) {
        current - previous
    }

    open spec fn amount(d: i128) -> int {
        d as int
    }

    proof fn lemma_difference_subtracts(current: i128, previous: i128) {
    }

    proof fn lemma_default_is_zero(fresh: i128) {
    }

    proof fn lemma_difference_with_itself(d: i128) {
    }
}

} // verus!
