//! Tuples are observed component by component, each component with its own observer.
use vstd::prelude::*;

use crate::{Changes, Observable, ObservableLaws, Observer};

verus! {

// std implements `Default` for tuples by building each component with its own `Default`;
// vstd states it for pairs and triples, the other arities used here are stated below.

/// `Default::default` of a 1-tuple: each component is a value that its type's `default`
/// may return.
pub assume_specification<
    U0: core::default::Default,
>[ <(U0,) as core::default::Default>::default ]() -> (r: (U0,))
    ensures
        call_ensures(U0::default, (), r.0),
;

/// `Default::default` of a 4-tuple: each component is a value that its type's `default`
/// may return.
pub assume_specification<
    U0: core::default::Default,
    U1: core::default::Default,
    U2: core::default::Default,
    U3: core::default::Default,
>[ <(U0, U1, U2, U3) as core::default::Default>::default ]() -> (r: (U0, U1, U2, U3))
    ensures
        call_ensures(U0::default, (), r.0),
        call_ensures(U1::default, (), r.1),
        call_ensures(U2::default, (), r.2),
        call_ensures(U3::default, (), r.3),
;

/// `Default::default` of a 5-tuple: each component is a value that its type's `default`
/// may return.
pub assume_specification<
    U0: core::default::Default,
    U1: core::default::Default,
    U2: core::default::Default,
    U3: core::default::Default,
    U4: core::default::Default,
>[ <(U0, U1, U2, U3, U4) as core::default::Default>::default ]() -> (r: (U0, U1, U2, U3, U4))
    ensures
        call_ensures(U0::default, (), r.0),
        call_ensures(U1::default, (), r.1),
        call_ensures(U2::default, (), r.2),
        call_ensures(U3::default, (), r.3),
        call_ensures(U4::default, (), r.4),
;

/// `Default::default` of a 6-tuple: each component is a value that its type's `default`
/// may return.
pub assume_specification<
    U0: core::default::Default,
    U1: core::default::Default,
    U2: core::default::Default,
    U3: core::default::Default,
    U4: core::default::Default,
    U5: core::default::Default,
>[ <(U0, U1, U2, U3, U4, U5) as core::default::Default>::default ]() -> (r: (U0, U1, U2, U3, U4, U5))
    ensures
        call_ensures(U0::default, (), r.0),
        call_ensures(U1::default, (), r.1),
        call_ensures(U2::default, (), r.2),
        call_ensures(U3::default, (), r.3),
        call_ensures(U4::default, (), r.4),
        call_ensures(U5::default, (), r.5),
;

/// `Default::default` of a 7-tuple: each component is a value that its type's `default`
/// may return.
pub assume_specification<
    U0: core::default::Default,
    U1: core::default::Default,
    U2: core::default::Default,
    U3: core::default::Default,
    U4: core::default::Default,
    U5: core::default::Default,
    U6: core::default::Default,
>[ <(U0, U1, U2, U3, U4, U5, U6) as core::default::Default>::default ]() -> (r: (U0, U1, U2, U3, U4, U5, U6))
    ensures
        call_ensures(U0::default, (), r.0),
        call_ensures(U1::default, (), r.1),
        call_ensures(U2::default, (), r.2),
        call_ensures(U3::default, (), r.3),
        call_ensures(U4::default, (), r.4),
        call_ensures(U5::default, (), r.5),
        call_ensures(U6::default, (), r.6),
;

/// `Default::default` of a 8-tuple: each component is a value that its type's `default`
/// may return.
pub assume_specification<
    U0: core::default::Default,
    U1: core::default::Default,
    U2: core::default::Default,
    U3: core::default::Default,
    U4: core::default::Default,
    U5: core::default::Default,
    U6: core::default::Default,
    U7: core::default::Default,
>[ <(U0, U1, U2, U3, U4, U5, U6, U7) as core::default::Default>::default ]() -> (r: (U0, U1, U2, U3, U4, U5, U6, U7))
    ensures
        call_ensures(U0::default, (), r.0),
        call_ensures(U1::default, (), r.1),
        call_ensures(U2::default, (), r.2),
        call_ensures(U3::default, (), r.3),
        call_ensures(U4::default, (), r.4),
        call_ensures(U5::default, (), r.5),
        call_ensures(U6::default, (), r.6),
        call_ensures(U7::default, (), r.7),
;

/// `Default::default` of a 9-tuple: each component is a value that its type's `default`
/// may return.
pub assume_specification<
    U0: core::default::Default,
    U1: core::default::Default,
    U2: core::default::Default,
    U3: core::default::Default,
    U4: core::default::Default,
    U5: core::default::Default,
    U6: core::default::Default,
    U7: core::default::Default,
    U8: core::default::Default,
>[ <(U0, U1, U2, U3, U4, U5, U6, U7, U8) as core::default::Default>::default ]() -> (r: (U0, U1, U2, U3, U4, U5, U6, U7, U8))
    ensures
        call_ensures(U0::default, (), r.0),
        call_ensures(U1::default, (), r.1),
        call_ensures(U2::default, (), r.2),
        call_ensures(U3::default, (), r.3),
        call_ensures(U4::default, (), r.4),
        call_ensures(U5::default, (), r.5),
        call_ensures(U6::default, (), r.6),
        call_ensures(U7::default, (), r.7),
        call_ensures(U8::default, (), r.8),
;

impl<A: Observable + 'static> Observable for (A, ) {
    type Observer<'a> = (Observer<'a, A>, );
    type Changes<'a> = (Changes<'a, A>, );

    /// Each component is pulled against its own observer.
    open spec fn pulled<'a, 'b>(&self, before: (Observer<'b, A>, ), after: (Observer<'b, A>, ), changes: (Changes<'a, A>, )) -> bool {
        &&& self.0.pulled(before.0.inner, after.0.inner, changes.0)
    }

    open spec fn can_pull<'b>(&self, observer: (Observer<'b, A>, )) -> bool {
        &&& self.0.can_pull(observer.0.inner)
    }

    fn pull_changes<'a, 'b>(&'a self, observer: &mut Observer<'b, Self>) -> (changes: (Changes<'a, A>, )) {
        (self.0.pull_changes(&mut observer.inner.0), )
    }
}

impl<A: ObservableLaws + 'static> ObservableLaws for (A, ) {
    open spec fn up_to_date<'b>(&self, observer: (Observer<'b, A>, )) -> bool {
        &&& self.0.up_to_date(observer.0.inner)
    }

    open spec fn unchanged<'a>(&self, changes: (Changes<'a, A>, )) -> bool {
        &&& self.0.unchanged(changes.0)
    }

    proof fn lemma_pull_brings_up_to_date<'a, 'b>(&self, before: (Observer<'b, A>, ), after: (Observer<'b, A>, ), changes: (Changes<'a, A>, )) {
        self.0.lemma_pull_brings_up_to_date(before.0.inner, after.0.inner, changes.0);
    }

    proof fn lemma_up_to_date_pull_is_unchanged<'a, 'b>(&self, before: (Observer<'b, A>, ), after: (Observer<'b, A>, ), changes: (Changes<'a, A>, )) {
        self.0.lemma_up_to_date_pull_is_unchanged(before.0.inner, after.0.inner, changes.0);
    }
}

impl<A: Observable + 'static, B: Observable + 'static> Observable for (A, B, ) {
    type Observer<'a> = (Observer<'a, A>, Observer<'a, B>, );
    type Changes<'a> = (Changes<'a, A>, Changes<'a, B>, );

    /// Each component is pulled against its own observer.
    open spec fn pulled<'a, 'b>(&self, before: (Observer<'b, A>, Observer<'b, B>, ), after: (Observer<'b, A>, Observer<'b, B>, ), changes: (Changes<'a, A>, Changes<'a, B>, )) -> bool {
        &&& self.0.pulled(before.0.inner, after.0.inner, changes.0)
        &&& self.1.pulled(before.1.inner, after.1.inner, changes.1)
    }

    open spec fn can_pull<'b>(&self, observer: (Observer<'b, A>, Observer<'b, B>, )) -> bool {
        &&& self.0.can_pull(observer.0.inner)
        &&& self.1.can_pull(observer.1.inner)
    }

    fn pull_changes<'a, 'b>(&'a self, observer: &mut Observer<'b, Self>) -> (changes: (Changes<'a, A>, Changes<'a, B>, )) {
        (self.0.pull_changes(&mut observer.inner.0), self.1.pull_changes(&mut observer.inner.1), )
    }
}

impl<A: ObservableLaws + 'static, B: ObservableLaws + 'static> ObservableLaws for (A, B, ) {
    open spec fn up_to_date<'b>(&self, observer: (Observer<'b, A>, Observer<'b, B>, )) -> bool {
        &&& self.0.up_to_date(observer.0.inner)
        &&& self.1.up_to_date(observer.1.inner)
    }

    open spec fn unchanged<'a>(&self, changes: (Changes<'a, A>, Changes<'a, B>, )) -> bool {
        &&& self.0.unchanged(changes.0)
        &&& self.1.unchanged(changes.1)
    }

    proof fn lemma_pull_brings_up_to_date<'a, 'b>(&self, before: (Observer<'b, A>, Observer<'b, B>, ), after: (Observer<'b, A>, Observer<'b, B>, ), changes: (Changes<'a, A>, Changes<'a, B>, )) {
        self.0.lemma_pull_brings_up_to_date(before.0.inner, after.0.inner, changes.0);
        self.1.lemma_pull_brings_up_to_date(before.1.inner, after.1.inner, changes.1);
    }

    proof fn lemma_up_to_date_pull_is_unchanged<'a, 'b>(&self, before: (Observer<'b, A>, Observer<'b, B>, ), after: (Observer<'b, A>, Observer<'b, B>, ), changes: (Changes<'a, A>, Changes<'a, B>, )) {
        self.0.lemma_up_to_date_pull_is_unchanged(before.0.inner, after.0.inner, changes.0);
        self.1.lemma_up_to_date_pull_is_unchanged(before.1.inner, after.1.inner, changes.1);
    }
}

impl<A: Observable + 'static, B: Observable + 'static, C: Observable + 'static> Observable for (A, B, C, ) {
    type Observer<'a> = (Observer<'a, A>, Observer<'a, B>, Observer<'a, C>, );
    type Changes<'a> = (Changes<'a, A>, Changes<'a, B>, Changes<'a, C>, );

    /// Each component is pulled against its own observer.
    open spec fn pulled<'a, 'b>(&self, before: (Observer<'b, A>, Observer<'b, B>, Observer<'b, C>, ), after: (Observer<'b, A>, Observer<'b, B>, Observer<'b, C>, ), changes: (Changes<'a, A>, Changes<'a, B>, Changes<'a, C>, )) -> bool {
        &&& self.0.pulled(before.0.inner, after.0.inner, changes.0)
        &&& self.1.pulled(before.1.inner, after.1.inner, changes.1)
        &&& self.2.pulled(before.2.inner, after.2.inner, changes.2)
    }

    open spec fn can_pull<'b>(&self, observer: (Observer<'b, A>, Observer<'b, B>, Observer<'b, C>, )) -> bool {
        &&& self.0.can_pull(observer.0.inner)
        &&& self.1.can_pull(observer.1.inner)
        &&& self.2.can_pull(observer.2.inner)
    }

    fn pull_changes<'a, 'b>(&'a self, observer: &mut Observer<'b, Self>) -> (changes: (Changes<'a, A>, Changes<'a, B>, Changes<'a, C>, )) {
        (self.0.pull_changes(&mut observer.inner.0), self.1.pull_changes(&mut observer.inner.1), self.2.pull_changes(&mut observer.inner.2), )
    }
}

impl<A: ObservableLaws + 'static, B: ObservableLaws + 'static, C: ObservableLaws + 'static> ObservableLaws for (A, B, C, ) {
    open spec fn up_to_date<'b>(&self, observer: (Observer<'b, A>, Observer<'b, B>, Observer<'b, C>, )) -> bool {
        &&& self.0.up_to_date(observer.0.inner)
        &&& self.1.up_to_date(observer.1.inner)
        &&& self.2.up_to_date(observer.2.inner)
    }

    open spec fn unchanged<'a>(&self, changes: (Changes<'a, A>, Changes<'a, B>, Changes<'a, C>, )) -> bool {
        &&& self.0.unchanged(changes.0)
        &&& self.1.unchanged(changes.1)
        &&& self.2.unchanged(changes.2)
    }

    proof fn lemma_pull_brings_up_to_date<'a, 'b>(&self, before: (Observer<'b, A>, Observer<'b, B>, Observer<'b, C>, ), after: (Observer<'b, A>, Observer<'b, B>, Observer<'b, C>, ), changes: (Changes<'a, A>, Changes<'a, B>, Changes<'a, C>, )) {
        self.0.lemma_pull_brings_up_to_date(before.0.inner, after.0.inner, changes.0);
        self.1.lemma_pull_brings_up_to_date(before.1.inner, after.1.inner, changes.1);
        self.2.lemma_pull_brings_up_to_date(before.2.inner, after.2.inner, changes.2);
    }

    proof fn lemma_up_to_date_pull_is_unchanged<'a, 'b>(&self, before: (Observer<'b, A>, Observer<'b, B>, Observer<'b, C>, ), after: (Observer<'b, A>, Observer<'b, B>, Observer<'b, C>, ), changes: (Changes<'a, A>, Changes<'a, B>, Changes<'a, C>, )) {
        self.0.lemma_up_to_date_pull_is_unchanged(before.0.inner, after.0.inner, changes.0);
        self.1.lemma_up_to_date_pull_is_unchanged(before.1.inner, after.1.inner, changes.1);
        self.2.lemma_up_to_date_pull_is_unchanged(before.2.inner, after.2.inner, changes.2);
    }
}

impl<A: Observable + 'static, B: Observable + 'static, C: Observable + 'static, D: Observable + 'static> Observable for (A, B, C, D, ) {
    type Observer<'a> = (Observer<'a, A>, Observer<'a, B>, Observer<'a, C>, Observer<'a, D>, );
    type Changes<'a> = (Changes<'a, A>, Changes<'a, B>, Changes<'a, C>, Changes<'a, D>, );

    /// Each component is pulled against its own observer.
    open spec fn pulled<'a, 'b>(&self, before: (Observer<'b, A>, Observer<'b, B>, Observer<'b, C>, Observer<'b, D>, ), after: (Observer<'b, A>, Observer<'b, B>, Observer<'b, C>, Observer<'b, D>, ), changes: (Changes<'a, A>, Changes<'a, B>, Changes<'a, C>, Changes<'a, D>, )) -> bool {
        &&& self.0.pulled(before.0.inner, after.0.inner, changes.0)
        &&& self.1.pulled(before.1.inner, after.1.inner, changes.1)
        &&& self.2.pulled(before.2.inner, after.2.inner, changes.2)
        &&& self.3.pulled(before.3.inner, after.3.inner, changes.3)
    }

    open spec fn can_pull<'b>(&self, observer: (Observer<'b, A>, Observer<'b, B>, Observer<'b, C>, Observer<'b, D>, )) -> bool {
        &&& self.0.can_pull(observer.0.inner)
        &&& self.1.can_pull(observer.1.inner)
        &&& self.2.can_pull(observer.2.inner)
        &&& self.3.can_pull(observer.3.inner)
    }

    fn pull_changes<'a, 'b>(&'a self, observer: &mut Observer<'b, Self>) -> (changes: (Changes<'a, A>, Changes<'a, B>, Changes<'a, C>, Changes<'a, D>, )) {
        (self.0.pull_changes(&mut observer.inner.0), self.1.pull_changes(&mut observer.inner.1), self.2.pull_changes(&mut observer.inner.2), self.3.pull_changes(&mut observer.inner.3), )
    }
}

impl<A: ObservableLaws + 'static, B: ObservableLaws + 'static, C: ObservableLaws + 'static, D: ObservableLaws + 'static> ObservableLaws for (A, B, C, D, ) {
    open spec fn up_to_date<'b>(&self, observer: (Observer<'b, A>, Observer<'b, B>, Observer<'b, C>, Observer<'b, D>, )) -> bool {
        &&& self.0.up_to_date(observer.0.inner)
        &&& self.1.up_to_date(observer.1.inner)
        &&& self.2.up_to_date(observer.2.inner)
        &&& self.3.up_to_date(observer.3.inner)
    }

    open spec fn unchanged<'a>(&self, changes: (Changes<'a, A>, Changes<'a, B>, Changes<'a, C>, Changes<'a, D>, )) -> bool {
        &&& self.0.unchanged(changes.0)
        &&& self.1.unchanged(changes.1)
        &&& self.2.unchanged(changes.2)
        &&& self.3.unchanged(changes.3)
    }

    proof fn lemma_pull_brings_up_to_date<'a, 'b>(&self, before: (Observer<'b, A>, Observer<'b, B>, Observer<'b, C>, Observer<'b, D>, ), after: (Observer<'b, A>, Observer<'b, B>, Observer<'b, C>, Observer<'b, D>, ), changes: (Changes<'a, A>, Changes<'a, B>, Changes<'a, C>, Changes<'a, D>, )) {
        self.0.lemma_pull_brings_up_to_date(before.0.inner, after.0.inner, changes.0);
        self.1.lemma_pull_brings_up_to_date(before.1.inner, after.1.inner, changes.1);
        self.2.lemma_pull_brings_up_to_date(before.2.inner, after.2.inner, changes.2);
        self.3.lemma_pull_brings_up_to_date(before.3.inner, after.3.inner, changes.3);
    }

    proof fn lemma_up_to_date_pull_is_unchanged<'a, 'b>(&self, before: (Observer<'b, A>, Observer<'b, B>, Observer<'b, C>, Observer<'b, D>, ), after: (Observer<'b, A>, Observer<'b, B>, Observer<'b, C>, Observer<'b, D>, ), changes: (Changes<'a, A>, Changes<'a, B>, Changes<'a, C>, Changes<'a, D>, )) {
        self.0.lemma_up_to_date_pull_is_unchanged(before.0.inner, after.0.inner, changes.0);
        self.1.lemma_up_to_date_pull_is_unchanged(before.1.inner, after.1.inner, changes.1);
        self.2.lemma_up_to_date_pull_is_unchanged(before.2.inner, after.2.inner, changes.2);
        self.3.lemma_up_to_date_pull_is_unchanged(before.3.inner, after.3.inner, changes.3);
    }
}

impl<A: Observable + 'static, B: Observable + 'static, C: Observable + 'static, D: Observable + 'static, E: Observable + 'static> Observable for (A, B, C, D, E, ) {
    type Observer<'a> = (Observer<'a, A>, Observer<'a, B>, Observer<'a, C>, Observer<'a, D>, Observer<'a, E>, );
    type Changes<'a> = (Changes<'a, A>, Changes<'a, B>, Changes<'a, C>, Changes<'a, D>, Changes<'a, E>, );

    /// Each component is pulled against its own observer.
    open spec fn pulled<'a, 'b>(&self, before: (Observer<'b, A>, Observer<'b, B>, Observer<'b, C>, Observer<'b, D>, Observer<'b, E>, ), after: (Observer<'b, A>, Observer<'b, B>, Observer<'b, C>, Observer<'b, D>, Observer<'b, E>, ), changes: (Changes<'a, A>, Changes<'a, B>, Changes<'a, C>, Changes<'a, D>, Changes<'a, E>, )) -> bool {
        &&& self.0.pulled(before.0.inner, after.0.inner, changes.0)
        &&& self.1.pulled(before.1.inner, after.1.inner, changes.1)
        &&& self.2.pulled(before.2.inner, after.2.inner, changes.2)
        &&& self.3.pulled(before.3.inner, after.3.inner, changes.3)
        &&& self.4.pulled(before.4.inner, after.4.inner, changes.4)
    }

    open spec fn can_pull<'b>(&self, observer: (Observer<'b, A>, Observer<'b, B>, Observer<'b, C>, Observer<'b, D>, Observer<'b, E>, )) -> bool {
        &&& self.0.can_pull(observer.0.inner)
        &&& self.1.can_pull(observer.1.inner)
        &&& self.2.can_pull(observer.2.inner)
        &&& self.3.can_pull(observer.3.inner)
        &&& self.4.can_pull(observer.4.inner)
    }

    fn pull_changes<'a, 'b>(&'a self, observer: &mut Observer<'b, Self>) -> (changes: (Changes<'a, A>, Changes<'a, B>, Changes<'a, C>, Changes<'a, D>, Changes<'a, E>, )) {
        (self.0.pull_changes(&mut observer.inner.0), self.1.pull_changes(&mut observer.inner.1), self.2.pull_changes(&mut observer.inner.2), self.3.pull_changes(&mut observer.inner.3), self.4.pull_changes(&mut observer.inner.4), )
    }
}

impl<A: ObservableLaws + 'static, B: ObservableLaws + 'static, C: ObservableLaws + 'static, D: ObservableLaws + 'static, E: ObservableLaws + 'static> ObservableLaws for (A, B, C, D, E, ) {
    open spec fn up_to_date<'b>(&self, observer: (Observer<'b, A>, Observer<'b, B>, Observer<'b, C>, Observer<'b, D>, Observer<'b, E>, )) -> bool {
        &&& self.0.up_to_date(observer.0.inner)
        &&& self.1.up_to_date(observer.1.inner)
        &&& self.2.up_to_date(observer.2.inner)
        &&& self.3.up_to_date(observer.3.inner)
        &&& self.4.up_to_date(observer.4.inner)
    }

    open spec fn unchanged<'a>(&self, changes: (Changes<'a, A>, Changes<'a, B>, Changes<'a, C>, Changes<'a, D>, Changes<'a, E>, )) -> bool {
        &&& self.0.unchanged(changes.0)
        &&& self.1.unchanged(changes.1)
        &&& self.2.unchanged(changes.2)
        &&& self.3.unchanged(changes.3)
        &&& self.4.unchanged(changes.4)
    }

    proof fn lemma_pull_brings_up_to_date<'a, 'b>(&self, before: (Observer<'b, A>, Observer<'b, B>, Observer<'b, C>, Observer<'b, D>, Observer<'b, E>, ), after: (Observer<'b, A>, Observer<'b, B>, Observer<'b, C>, Observer<'b, D>, Observer<'b, E>, ), changes: (Changes<'a, A>, Changes<'a, B>, Changes<'a, C>, Changes<'a, D>, Changes<'a, E>, )) {
        self.0.lemma_pull_brings_up_to_date(before.0.inner, after.0.inner, changes.0);
        self.1.lemma_pull_brings_up_to_date(before.1.inner, after.1.inner, changes.1);
        self.2.lemma_pull_brings_up_to_date(before.2.inner, after.2.inner, changes.2);
        self.3.lemma_pull_brings_up_to_date(before.3.inner, after.3.inner, changes.3);
        self.4.lemma_pull_brings_up_to_date(before.4.inner, after.4.inner, changes.4);
    }

    proof fn lemma_up_to_date_pull_is_unchanged<'a, 'b>(&self, before: (Observer<'b, A>, Observer<'b, B>, Observer<'b, C>, Observer<'b, D>, Observer<'b, E>, ), after: (Observer<'b, A>, Observer<'b, B>, Observer<'b, C>, Observer<'b, D>, Observer<'b, E>, ), changes: (Changes<'a, A>, Changes<'a, B>, Changes<'a, C>, Changes<'a, D>, Changes<'a, E>, )) {
        self.0.lemma_up_to_date_pull_is_unchanged(before.0.inner, after.0.inner, changes.0);
        self.1.lemma_up_to_date_pull_is_unchanged(before.1.inner, after.1.inner, changes.1);
        self.2.lemma_up_to_date_pull_is_unchanged(before.2.inner, after.2.inner, changes.2);
        self.3.lemma_up_to_date_pull_is_unchanged(before.3.inner, after.3.inner, changes.3);
        self.4.lemma_up_to_date_pull_is_unchanged(before.4.inner, after.4.inner, changes.4);
    }
}

impl<A: Observable + 'static, B: Observable + 'static, C: Observable + 'static, D: Observable + 'static, E: Observable + 'static, F: Observable + 'static> Observable for (A, B, C, D, E, F, ) {
    type Observer<'a> = (Observer<'a, A>, Observer<'a, B>, Observer<'a, C>, Observer<'a, D>, Observer<'a, E>, Observer<'a, F>, );
    type Changes<'a> = (Changes<'a, A>, Changes<'a, B>, Changes<'a, C>, Changes<'a, D>, Changes<'a, E>, Changes<'a, F>, );

    /// Each component is pulled against its own observer.
    open spec fn pulled<'a, 'b>(&self, before: (Observer<'b, A>, Observer<'b, B>, Observer<'b, C>, Observer<'b, D>, Observer<'b, E>, Observer<'b, F>, ), after: (Observer<'b, A>, Observer<'b, B>, Observer<'b, C>, Observer<'b, D>, Observer<'b, E>, Observer<'b, F>, ), changes: (Changes<'a, A>, Changes<'a, B>, Changes<'a, C>, Changes<'a, D>, Changes<'a, E>, Changes<'a, F>, )) -> bool {
        &&& self.0.pulled(before.0.inner, after.0.inner, changes.0)
        &&& self.1.pulled(before.1.inner, after.1.inner, changes.1)
        &&& self.2.pulled(before.2.inner, after.2.inner, changes.2)
        &&& self.3.pulled(before.3.inner, after.3.inner, changes.3)
        &&& self.4.pulled(before.4.inner, after.4.inner, changes.4)
        &&& self.5.pulled(before.5.inner, after.5.inner, changes.5)
    }

    open spec fn can_pull<'b>(&self, observer: (Observer<'b, A>, Observer<'b, B>, Observer<'b, C>, Observer<'b, D>, Observer<'b, E>, Observer<'b, F>, )) -> bool {
        &&& self.0.can_pull(observer.0.inner)
        &&& self.1.can_pull(observer.1.inner)
        &&& self.2.can_pull(observer.2.inner)
        &&& self.3.can_pull(observer.3.inner)
        &&& self.4.can_pull(observer.4.inner)
        &&& self.5.can_pull(observer.5.inner)
    }

    fn pull_changes<'a, 'b>(&'a self, observer: &mut Observer<'b, Self>) -> (changes: (Changes<'a, A>, Changes<'a, B>, Changes<'a, C>, Changes<'a, D>, Changes<'a, E>, Changes<'a, F>, )) {
        (self.0.pull_changes(&mut observer.inner.0), self.1.pull_changes(&mut observer.inner.1), self.2.pull_changes(&mut observer.inner.2), self.3.pull_changes(&mut observer.inner.3), self.4.pull_changes(&mut observer.inner.4), self.5.pull_changes(&mut observer.inner.5), )
    }
}

impl<A: ObservableLaws + 'static, B: ObservableLaws + 'static, C: ObservableLaws + 'static, D: ObservableLaws + 'static, E: ObservableLaws + 'static, F: ObservableLaws + 'static> ObservableLaws for (A, B, C, D, E, F, ) {
    open spec fn up_to_date<'b>(&self, observer: (Observer<'b, A>, Observer<'b, B>, Observer<'b, C>, Observer<'b, D>, Observer<'b, E>, Observer<'b, F>, )) -> bool {
        &&& self.0.up_to_date(observer.0.inner)
        &&& self.1.up_to_date(observer.1.inner)
        &&& self.2.up_to_date(observer.2.inner)
        &&& self.3.up_to_date(observer.3.inner)
        &&& self.4.up_to_date(observer.4.inner)
        &&& self.5.up_to_date(observer.5.inner)
    }

    open spec fn unchanged<'a>(&self, changes: (Changes<'a, A>, Changes<'a, B>, Changes<'a, C>, Changes<'a, D>, Changes<'a, E>, Changes<'a, F>, )) -> bool {
        &&& self.0.unchanged(changes.0)
        &&& self.1.unchanged(changes.1)
        &&& self.2.unchanged(changes.2)
        &&& self.3.unchanged(changes.3)
        &&& self.4.unchanged(changes.4)
        &&& self.5.unchanged(changes.5)
    }

    proof fn lemma_pull_brings_up_to_date<'a, 'b>(&self, before: (Observer<'b, A>, Observer<'b, B>, Observer<'b, C>, Observer<'b, D>, Observer<'b, E>, Observer<'b, F>, ), after: (Observer<'b, A>, Observer<'b, B>, Observer<'b, C>, Observer<'b, D>, Observer<'b, E>, Observer<'b, F>, ), changes: (Changes<'a, A>, Changes<'a, B>, Changes<'a, C>, Changes<'a, D>, Changes<'a, E>, Changes<'a, F>, )) {
        self.0.lemma_pull_brings_up_to_date(before.0.inner, after.0.inner, changes.0);
        self.1.lemma_pull_brings_up_to_date(before.1.inner, after.1.inner, changes.1);
        self.2.lemma_pull_brings_up_to_date(before.2.inner, after.2.inner, changes.2);
        self.3.lemma_pull_brings_up_to_date(before.3.inner, after.3.inner, changes.3);
        self.4.lemma_pull_brings_up_to_date(before.4.inner, after.4.inner, changes.4);
        self.5.lemma_pull_brings_up_to_date(before.5.inner, after.5.inner, changes.5);
    }

    proof fn lemma_up_to_date_pull_is_unchanged<'a, 'b>(&self, before: (Observer<'b, A>, Observer<'b, B>, Observer<'b, C>, Observer<'b, D>, Observer<'b, E>, Observer<'b, F>, ), after: (Observer<'b, A>, Observer<'b, B>, Observer<'b, C>, Observer<'b, D>, Observer<'b, E>, Observer<'b, F>, ), changes: (Changes<'a, A>, Changes<'a, B>, Changes<'a, C>, Changes<'a, D>, Changes<'a, E>, Changes<'a, F>, )) {
        self.0.lemma_up_to_date_pull_is_unchanged(before.0.inner, after.0.inner, changes.0);
        self.1.lemma_up_to_date_pull_is_unchanged(before.1.inner, after.1.inner, changes.1);
        self.2.lemma_up_to_date_pull_is_unchanged(before.2.inner, after.2.inner, changes.2);
        self.3.lemma_up_to_date_pull_is_unchanged(before.3.inner, after.3.inner, changes.3);
        self.4.lemma_up_to_date_pull_is_unchanged(before.4.inner, after.4.inner, changes.4);
        self.5.lemma_up_to_date_pull_is_unchanged(before.5.inner, after.5.inner, changes.5);
    }
}

impl<A: Observable + 'static, B: Observable + 'static, C: Observable + 'static, D: Observable + 'static, E: Observable + 'static, F: Observable + 'static, G: Observable + 'static> Observable for (A, B, C, D, E, F, G, ) {
    type Observer<'a> = (Observer<'a, A>, Observer<'a, B>, Observer<'a, C>, Observer<'a, D>, Observer<'a, E>, Observer<'a, F>, Observer<'a, G>, );
    type Changes<'a> = (Changes<'a, A>, Changes<'a, B>, Changes<'a, C>, Changes<'a, D>, Changes<'a, E>, Changes<'a, F>, Changes<'a, G>, );

    /// Each component is pulled against its own observer.
    open spec fn pulled<'a, 'b>(&self, before: (Observer<'b, A>, Observer<'b, B>, Observer<'b, C>, Observer<'b, D>, Observer<'b, E>, Observer<'b, F>, Observer<'b, G>, ), after: (Observer<'b, A>, Observer<'b, B>, Observer<'b, C>, Observer<'b, D>, Observer<'b, E>, Observer<'b, F>, Observer<'b, G>, ), changes: (Changes<'a, A>, Changes<'a, B>, Changes<'a, C>, Changes<'a, D>, Changes<'a, E>, Changes<'a, F>, Changes<'a, G>, )) -> bool {
        &&& self.0.pulled(before.0.inner, after.0.inner, changes.0)
        &&& self.1.pulled(before.1.inner, after.1.inner, changes.1)
        &&& self.2.pulled(before.2.inner, after.2.inner, changes.2)
        &&& self.3.pulled(before.3.inner, after.3.inner, changes.3)
        &&& self.4.pulled(before.4.inner, after.4.inner, changes.4)
        &&& self.5.pulled(before.5.inner, after.5.inner, changes.5)
        &&& self.6.pulled(before.6.inner, after.6.inner, changes.6)
    }

    open spec fn can_pull<'b>(&self, observer: (Observer<'b, A>, Observer<'b, B>, Observer<'b, C>, Observer<'b, D>, Observer<'b, E>, Observer<'b, F>, Observer<'b, G>, )) -> bool {
        &&& self.0.can_pull(observer.0.inner)
        &&& self.1.can_pull(observer.1.inner)
        &&& self.2.can_pull(observer.2.inner)
        &&& self.3.can_pull(observer.3.inner)
        &&& self.4.can_pull(observer.4.inner)
        &&& self.5.can_pull(observer.5.inner)
        &&& self.6.can_pull(observer.6.inner)
    }

    fn pull_changes<'a, 'b>(&'a self, observer: &mut Observer<'b, Self>) -> (changes: (Changes<'a, A>, Changes<'a, B>, Changes<'a, C>, Changes<'a, D>, Changes<'a, E>, Changes<'a, F>, Changes<'a, G>, )) {
        (self.0.pull_changes(&mut observer.inner.0), self.1.pull_changes(&mut observer.inner.1), self.2.pull_changes(&mut observer.inner.2), self.3.pull_changes(&mut observer.inner.3), self.4.pull_changes(&mut observer.inner.4), self.5.pull_changes(&mut observer.inner.5), self.6.pull_changes(&mut observer.inner.6), )
    }
}

impl<A: ObservableLaws + 'static, B: ObservableLaws + 'static, C: ObservableLaws + 'static, D: ObservableLaws + 'static, E: ObservableLaws + 'static, F: ObservableLaws + 'static, G: ObservableLaws + 'static> ObservableLaws for (A, B, C, D, E, F, G, ) {
    open spec fn up_to_date<'b>(&self, observer: (Observer<'b, A>, Observer<'b, B>, Observer<'b, C>, Observer<'b, D>, Observer<'b, E>, Observer<'b, F>, Observer<'b, G>, )) -> bool {
        &&& self.0.up_to_date(observer.0.inner)
        &&& self.1.up_to_date(observer.1.inner)
        &&& self.2.up_to_date(observer.2.inner)
        &&& self.3.up_to_date(observer.3.inner)
        &&& self.4.up_to_date(observer.4.inner)
        &&& self.5.up_to_date(observer.5.inner)
        &&& self.6.up_to_date(observer.6.inner)
    }

    open spec fn unchanged<'a>(&self, changes: (Changes<'a, A>, Changes<'a, B>, Changes<'a, C>, Changes<'a, D>, Changes<'a, E>, Changes<'a, F>, Changes<'a, G>, )) -> bool {
        &&& self.0.unchanged(changes.0)
        &&& self.1.unchanged(changes.1)
        &&& self.2.unchanged(changes.2)
        &&& self.3.unchanged(changes.3)
        &&& self.4.unchanged(changes.4)
        &&& self.5.unchanged(changes.5)
        &&& self.6.unchanged(changes.6)
    }

    proof fn lemma_pull_brings_up_to_date<'a, 'b>(&self, before: (Observer<'b, A>, Observer<'b, B>, Observer<'b, C>, Observer<'b, D>, Observer<'b, E>, Observer<'b, F>, Observer<'b, G>, ), after: (Observer<'b, A>, Observer<'b, B>, Observer<'b, C>, Observer<'b, D>, Observer<'b, E>, Observer<'b, F>, Observer<'b, G>, ), changes: (Changes<'a, A>, Changes<'a, B>, Changes<'a, C>, Changes<'a, D>, Changes<'a, E>, Changes<'a, F>, Changes<'a, G>, )) {
        self.0.lemma_pull_brings_up_to_date(before.0.inner, after.0.inner, changes.0);
        self.1.lemma_pull_brings_up_to_date(before.1.inner, after.1.inner, changes.1);
        self.2.lemma_pull_brings_up_to_date(before.2.inner, after.2.inner, changes.2);
        self.3.lemma_pull_brings_up_to_date(before.3.inner, after.3.inner, changes.3);
        self.4.lemma_pull_brings_up_to_date(before.4.inner, after.4.inner, changes.4);
        self.5.lemma_pull_brings_up_to_date(before.5.inner, after.5.inner, changes.5);
        self.6.lemma_pull_brings_up_to_date(before.6.inner, after.6.inner, changes.6);
    }

    proof fn lemma_up_to_date_pull_is_unchanged<'a, 'b>(&self, before: (Observer<'b, A>, Observer<'b, B>, Observer<'b, C>, Observer<'b, D>, Observer<'b, E>, Observer<'b, F>, Observer<'b, G>, ), after: (Observer<'b, A>, Observer<'b, B>, Observer<'b, C>, Observer<'b, D>, Observer<'b, E>, Observer<'b, F>, Observer<'b, G>, ), changes: (Changes<'a, A>, Changes<'a, B>, Changes<'a, C>, Changes<'a, D>, Changes<'a, E>, Changes<'a, F>, Changes<'a, G>, )) {
        self.0.lemma_up_to_date_pull_is_unchanged(before.0.inner, after.0.inner, changes.0);
        self.1.lemma_up_to_date_pull_is_unchanged(before.1.inner, after.1.inner, changes.1);
        self.2.lemma_up_to_date_pull_is_unchanged(before.2.inner, after.2.inner, changes.2);
        self.3.lemma_up_to_date_pull_is_unchanged(before.3.inner, after.3.inner, changes.3);
        self.4.lemma_up_to_date_pull_is_unchanged(before.4.inner, after.4.inner, changes.4);
        self.5.lemma_up_to_date_pull_is_unchanged(before.5.inner, after.5.inner, changes.5);
        self.6.lemma_up_to_date_pull_is_unchanged(before.6.inner, after.6.inner, changes.6);
    }
}

impl<A: Observable + 'static, B: Observable + 'static, C: Observable + 'static, D: Observable + 'static, E: Observable + 'static, F: Observable + 'static, G: Observable + 'static, H: Observable + 'static> Observable for (A, B, C, D, E, F, G, H, ) {
    type Observer<'a> = (Observer<'a, A>, Observer<'a, B>, Observer<'a, C>, Observer<'a, D>, Observer<'a, E>, Observer<'a, F>, Observer<'a, G>, Observer<'a, H>, );
    type Changes<'a> = (Changes<'a, A>, Changes<'a, B>, Changes<'a, C>, Changes<'a, D>, Changes<'a, E>, Changes<'a, F>, Changes<'a, G>, Changes<'a, H>, );

    /// Each component is pulled against its own observer.
    open spec fn pulled<'a, 'b>(&self, before: (Observer<'b, A>, Observer<'b, B>, Observer<'b, C>, Observer<'b, D>, Observer<'b, E>, Observer<'b, F>, Observer<'b, G>, Observer<'b, H>, ), after: (Observer<'b, A>, Observer<'b, B>, Observer<'b, C>, Observer<'b, D>, Observer<'b, E>, Observer<'b, F>, Observer<'b, G>, Observer<'b, H>, ), changes: (Changes<'a, A>, Changes<'a, B>, Changes<'a, C>, Changes<'a, D>, Changes<'a, E>, Changes<'a, F>, Changes<'a, G>, Changes<'a, H>, )) -> bool {
        &&& self.0.pulled(before.0.inner, after.0.inner, changes.0)
        &&& self.1.pulled(before.1.inner, after.1.inner, changes.1)
        &&& self.2.pulled(before.2.inner, after.2.inner, changes.2)
        &&& self.3.pulled(before.3.inner, after.3.inner, changes.3)
        &&& self.4.pulled(before.4.inner, after.4.inner, changes.4)
        &&& self.5.pulled(before.5.inner, after.5.inner, changes.5)
        &&& self.6.pulled(before.6.inner, after.6.inner, changes.6)
        &&& self.7.pulled(before.7.inner, after.7.inner, changes.7)
    }

    open spec fn can_pull<'b>(&self, observer: (Observer<'b, A>, Observer<'b, B>, Observer<'b, C>, Observer<'b, D>, Observer<'b, E>, Observer<'b, F>, Observer<'b, G>, Observer<'b, H>, )) -> bool {
        &&& self.0.can_pull(observer.0.inner)
        &&& self.1.can_pull(observer.1.inner)
        &&& self.2.can_pull(observer.2.inner)
        &&& self.3.can_pull(observer.3.inner)
        &&& self.4.can_pull(observer.4.inner)
        &&& self.5.can_pull(observer.5.inner)
        &&& self.6.can_pull(observer.6.inner)
        &&& self.7.can_pull(observer.7.inner)
    }

    fn pull_changes<'a, 'b>(&'a self, observer: &mut Observer<'b, Self>) -> (changes: (Changes<'a, A>, Changes<'a, B>, Changes<'a, C>, Changes<'a, D>, Changes<'a, E>, Changes<'a, F>, Changes<'a, G>, Changes<'a, H>, )) {
        (self.0.pull_changes(&mut observer.inner.0), self.1.pull_changes(&mut observer.inner.1), self.2.pull_changes(&mut observer.inner.2), self.3.pull_changes(&mut observer.inner.3), self.4.pull_changes(&mut observer.inner.4), self.5.pull_changes(&mut observer.inner.5), self.6.pull_changes(&mut observer.inner.6), self.7.pull_changes(&mut observer.inner.7), )
    }
}

impl<A: ObservableLaws + 'static, B: ObservableLaws + 'static, C: ObservableLaws + 'static, D: ObservableLaws + 'static, E: ObservableLaws + 'static, F: ObservableLaws + 'static, G: ObservableLaws + 'static, H: ObservableLaws + 'static> ObservableLaws for (A, B, C, D, E, F, G, H, ) {
    open spec fn up_to_date<'b>(&self, observer: (Observer<'b, A>, Observer<'b, B>, Observer<'b, C>, Observer<'b, D>, Observer<'b, E>, Observer<'b, F>, Observer<'b, G>, Observer<'b, H>, )) -> bool {
        &&& self.0.up_to_date(observer.0.inner)
        &&& self.1.up_to_date(observer.1.inner)
        &&& self.2.up_to_date(observer.2.inner)
        &&& self.3.up_to_date(observer.3.inner)
        &&& self.4.up_to_date(observer.4.inner)
        &&& self.5.up_to_date(observer.5.inner)
        &&& self.6.up_to_date(observer.6.inner)
        &&& self.7.up_to_date(observer.7.inner)
    }

    open spec fn unchanged<'a>(&self, changes: (Changes<'a, A>, Changes<'a, B>, Changes<'a, C>, Changes<'a, D>, Changes<'a, E>, Changes<'a, F>, Changes<'a, G>, Changes<'a, H>, )) -> bool {
        &&& self.0.unchanged(changes.0)
        &&& self.1.unchanged(changes.1)
        &&& self.2.unchanged(changes.2)
        &&& self.3.unchanged(changes.3)
        &&& self.4.unchanged(changes.4)
        &&& self.5.unchanged(changes.5)
        &&& self.6.unchanged(changes.6)
        &&& self.7.unchanged(changes.7)
    }

    proof fn lemma_pull_brings_up_to_date<'a, 'b>(&self, before: (Observer<'b, A>, Observer<'b, B>, Observer<'b, C>, Observer<'b, D>, Observer<'b, E>, Observer<'b, F>, Observer<'b, G>, Observer<'b, H>, ), after: (Observer<'b, A>, Observer<'b, B>, Observer<'b, C>, Observer<'b, D>, Observer<'b, E>, Observer<'b, F>, Observer<'b, G>, Observer<'b, H>, ), changes: (Changes<'a, A>, Changes<'a, B>, Changes<'a, C>, Changes<'a, D>, Changes<'a, E>, Changes<'a, F>, Changes<'a, G>, Changes<'a, H>, )) {
        self.0.lemma_pull_brings_up_to_date(before.0.inner, after.0.inner, changes.0);
        self.1.lemma_pull_brings_up_to_date(before.1.inner, after.1.inner, changes.1);
        self.2.lemma_pull_brings_up_to_date(before.2.inner, after.2.inner, changes.2);
        self.3.lemma_pull_brings_up_to_date(before.3.inner, after.3.inner, changes.3);
        self.4.lemma_pull_brings_up_to_date(before.4.inner, after.4.inner, changes.4);
        self.5.lemma_pull_brings_up_to_date(before.5.inner, after.5.inner, changes.5);
        self.6.lemma_pull_brings_up_to_date(before.6.inner, after.6.inner, changes.6);
        self.7.lemma_pull_brings_up_to_date(before.7.inner, after.7.inner, changes.7);
    }

    proof fn lemma_up_to_date_pull_is_unchanged<'a, 'b>(&self, before: (Observer<'b, A>, Observer<'b, B>, Observer<'b, C>, Observer<'b, D>, Observer<'b, E>, Observer<'b, F>, Observer<'b, G>, Observer<'b, H>, ), after: (Observer<'b, A>, Observer<'b, B>, Observer<'b, C>, Observer<'b, D>, Observer<'b, E>, Observer<'b, F>, Observer<'b, G>, Observer<'b, H>, ), changes: (Changes<'a, A>, Changes<'a, B>, Changes<'a, C>, Changes<'a, D>, Changes<'a, E>, Changes<'a, F>, Changes<'a, G>, Changes<'a, H>, )) {
        self.0.lemma_up_to_date_pull_is_unchanged(before.0.inner, after.0.inner, changes.0);
        self.1.lemma_up_to_date_pull_is_unchanged(before.1.inner, after.1.inner, changes.1);
        self.2.lemma_up_to_date_pull_is_unchanged(before.2.inner, after.2.inner, changes.2);
        self.3.lemma_up_to_date_pull_is_unchanged(before.3.inner, after.3.inner, changes.3);
        self.4.lemma_up_to_date_pull_is_unchanged(before.4.inner, after.4.inner, changes.4);
        self.5.lemma_up_to_date_pull_is_unchanged(before.5.inner, after.5.inner, changes.5);
        self.6.lemma_up_to_date_pull_is_unchanged(before.6.inner, after.6.inner, changes.6);
        self.7.lemma_up_to_date_pull_is_unchanged(before.7.inner, after.7.inner, changes.7);
    }
}

impl<A: Observable + 'static, B: Observable + 'static, C: Observable + 'static, D: Observable + 'static, E: Observable + 'static, F: Observable + 'static, G: Observable + 'static, H: Observable + 'static, I: Observable + 'static> Observable for (A, B, C, D, E, F, G, H, I, ) {
    type Observer<'a> = (Observer<'a, A>, Observer<'a, B>, Observer<'a, C>, Observer<'a, D>, Observer<'a, E>, Observer<'a, F>, Observer<'a, G>, Observer<'a, H>, Observer<'a, I>, );
    type Changes<'a> = (Changes<'a, A>, Changes<'a, B>, Changes<'a, C>, Changes<'a, D>, Changes<'a, E>, Changes<'a, F>, Changes<'a, G>, Changes<'a, H>, Changes<'a, I>, );

    /// Each component is pulled against its own observer.
    open spec fn pulled<'a, 'b>(&self, before: (Observer<'b, A>, Observer<'b, B>, Observer<'b, C>, Observer<'b, D>, Observer<'b, E>, Observer<'b, F>, Observer<'b, G>, Observer<'b, H>, Observer<'b, I>, ), after: (Observer<'b, A>, Observer<'b, B>, Observer<'b, C>, Observer<'b, D>, Observer<'b, E>, Observer<'b, F>, Observer<'b, G>, Observer<'b, H>, Observer<'b, I>, ), changes: (Changes<'a, A>, Changes<'a, B>, Changes<'a, C>, Changes<'a, D>, Changes<'a, E>, Changes<'a, F>, Changes<'a, G>, Changes<'a, H>, Changes<'a, I>, )) -> bool {
        &&& self.0.pulled(before.0.inner, after.0.inner, changes.0)
        &&& self.1.pulled(before.1.inner, after.1.inner, changes.1)
        &&& self.2.pulled(before.2.inner, after.2.inner, changes.2)
        &&& self.3.pulled(before.3.inner, after.3.inner, changes.3)
        &&& self.4.pulled(before.4.inner, after.4.inner, changes.4)
        &&& self.5.pulled(before.5.inner, after.5.inner, changes.5)
        &&& self.6.pulled(before.6.inner, after.6.inner, changes.6)
        &&& self.7.pulled(before.7.inner, after.7.inner, changes.7)
        &&& self.8.pulled(before.8.inner, after.8.inner, changes.8)
    }

    open spec fn can_pull<'b>(&self, observer: (Observer<'b, A>, Observer<'b, B>, Observer<'b, C>, Observer<'b, D>, Observer<'b, E>, Observer<'b, F>, Observer<'b, G>, Observer<'b, H>, Observer<'b, I>, )) -> bool {
        &&& self.0.can_pull(observer.0.inner)
        &&& self.1.can_pull(observer.1.inner)
        &&& self.2.can_pull(observer.2.inner)
        &&& self.3.can_pull(observer.3.inner)
        &&& self.4.can_pull(observer.4.inner)
        &&& self.5.can_pull(observer.5.inner)
        &&& self.6.can_pull(observer.6.inner)
        &&& self.7.can_pull(observer.7.inner)
        &&& self.8.can_pull(observer.8.inner)
    }

    fn pull_changes<'a, 'b>(&'a self, observer: &mut Observer<'b, Self>) -> (changes: (Changes<'a, A>, Changes<'a, B>, Changes<'a, C>, Changes<'a, D>, Changes<'a, E>, Changes<'a, F>, Changes<'a, G>, Changes<'a, H>, Changes<'a, I>, )) {
        (self.0.pull_changes(&mut observer.inner.0), self.1.pull_changes(&mut observer.inner.1), self.2.pull_changes(&mut observer.inner.2), self.3.pull_changes(&mut observer.inner.3), self.4.pull_changes(&mut observer.inner.4), self.5.pull_changes(&mut observer.inner.5), self.6.pull_changes(&mut observer.inner.6), self.7.pull_changes(&mut observer.inner.7), self.8.pull_changes(&mut observer.inner.8), )
    }
}

impl<A: ObservableLaws + 'static, B: ObservableLaws + 'static, C: ObservableLaws + 'static, D: ObservableLaws + 'static, E: ObservableLaws + 'static, F: ObservableLaws + 'static, G: ObservableLaws + 'static, H: ObservableLaws + 'static, I: ObservableLaws + 'static> ObservableLaws for (A, B, C, D, E, F, G, H, I, ) {
    open spec fn up_to_date<'b>(&self, observer: (Observer<'b, A>, Observer<'b, B>, Observer<'b, C>, Observer<'b, D>, Observer<'b, E>, Observer<'b, F>, Observer<'b, G>, Observer<'b, H>, Observer<'b, I>, )) -> bool {
        &&& self.0.up_to_date(observer.0.inner)
        &&& self.1.up_to_date(observer.1.inner)
        &&& self.2.up_to_date(observer.2.inner)
        &&& self.3.up_to_date(observer.3.inner)
        &&& self.4.up_to_date(observer.4.inner)
        &&& self.5.up_to_date(observer.5.inner)
        &&& self.6.up_to_date(observer.6.inner)
        &&& self.7.up_to_date(observer.7.inner)
        &&& self.8.up_to_date(observer.8.inner)
    }

    open spec fn unchanged<'a>(&self, changes: (Changes<'a, A>, Changes<'a, B>, Changes<'a, C>, Changes<'a, D>, Changes<'a, E>, Changes<'a, F>, Changes<'a, G>, Changes<'a, H>, Changes<'a, I>, )) -> bool {
        &&& self.0.unchanged(changes.0)
        &&& self.1.unchanged(changes.1)
        &&& self.2.unchanged(changes.2)
        &&& self.3.unchanged(changes.3)
        &&& self.4.unchanged(changes.4)
        &&& self.5.unchanged(changes.5)
        &&& self.6.unchanged(changes.6)
        &&& self.7.unchanged(changes.7)
        &&& self.8.unchanged(changes.8)
    }

    proof fn lemma_pull_brings_up_to_date<'a, 'b>(&self, before: (Observer<'b, A>, Observer<'b, B>, Observer<'b, C>, Observer<'b, D>, Observer<'b, E>, Observer<'b, F>, Observer<'b, G>, Observer<'b, H>, Observer<'b, I>, ), after: (Observer<'b, A>, Observer<'b, B>, Observer<'b, C>, Observer<'b, D>, Observer<'b, E>, Observer<'b, F>, Observer<'b, G>, Observer<'b, H>, Observer<'b, I>, ), changes: (Changes<'a, A>, Changes<'a, B>, Changes<'a, C>, Changes<'a, D>, Changes<'a, E>, Changes<'a, F>, Changes<'a, G>, Changes<'a, H>, Changes<'a, I>, )) {
        self.0.lemma_pull_brings_up_to_date(before.0.inner, after.0.inner, changes.0);
        self.1.lemma_pull_brings_up_to_date(before.1.inner, after.1.inner, changes.1);
        self.2.lemma_pull_brings_up_to_date(before.2.inner, after.2.inner, changes.2);
        self.3.lemma_pull_brings_up_to_date(before.3.inner, after.3.inner, changes.3);
        self.4.lemma_pull_brings_up_to_date(before.4.inner, after.4.inner, changes.4);
        self.5.lemma_pull_brings_up_to_date(before.5.inner, after.5.inner, changes.5);
        self.6.lemma_pull_brings_up_to_date(before.6.inner, after.6.inner, changes.6);
        self.7.lemma_pull_brings_up_to_date(before.7.inner, after.7.inner, changes.7);
        self.8.lemma_pull_brings_up_to_date(before.8.inner, after.8.inner, changes.8);
    }

    proof fn lemma_up_to_date_pull_is_unchanged<'a, 'b>(&self, before: (Observer<'b, A>, Observer<'b, B>, Observer<'b, C>, Observer<'b, D>, Observer<'b, E>, Observer<'b, F>, Observer<'b, G>, Observer<'b, H>, Observer<'b, I>, ), after: (Observer<'b, A>, Observer<'b, B>, Observer<'b, C>, Observer<'b, D>, Observer<'b, E>, Observer<'b, F>, Observer<'b, G>, Observer<'b, H>, Observer<'b, I>, ), changes: (Changes<'a, A>, Changes<'a, B>, Changes<'a, C>, Changes<'a, D>, Changes<'a, E>, Changes<'a, F>, Changes<'a, G>, Changes<'a, H>, Changes<'a, I>, )) {
        self.0.lemma_up_to_date_pull_is_unchanged(before.0.inner, after.0.inner, changes.0);
        self.1.lemma_up_to_date_pull_is_unchanged(before.1.inner, after.1.inner, changes.1);
        self.2.lemma_up_to_date_pull_is_unchanged(before.2.inner, after.2.inner, changes.2);
        self.3.lemma_up_to_date_pull_is_unchanged(before.3.inner, after.3.inner, changes.3);
        self.4.lemma_up_to_date_pull_is_unchanged(before.4.inner, after.4.inner, changes.4);
        self.5.lemma_up_to_date_pull_is_unchanged(before.5.inner, after.5.inner, changes.5);
        self.6.lemma_up_to_date_pull_is_unchanged(before.6.inner, after.6.inner, changes.6);
        self.7.lemma_up_to_date_pull_is_unchanged(before.7.inner, after.7.inner, changes.7);
        self.8.lemma_up_to_date_pull_is_unchanged(before.8.inner, after.8.inner, changes.8);
    }
}

} // verus!
