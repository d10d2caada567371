//! Transducers: composable, source-independent sequence transformations.
//!
//! A transducer transforms a *step function* (an operation folding one element
//! into an accumulator) into another step function over a different element
//! type, independently of what produces the elements and of what the
//! accumulator is. Pipelines are built by composing the standard transducers
//! ([`Identity`], [`Mapping`], [`Filtering`]) and are run by the drivers
//! [`reduce_iter`] and [`transduce`].

use core::marker::PhantomData;
use vstd::prelude::*;

pub use compose::{
    compose, compose_trans, lemma_compose_associative, lemma_compose_identity,
    lemma_compose_trans_associative, lemma_compose_trans_identity, Composed, ComposedTransducer,
};
pub use transform::{
    lemma_filtering_transduce, lemma_identity_transduce, lemma_mapping_filtering_transduce,
    lemma_mapping_transduce, Filtering, FilteringStep, Identity, IdentityStep, Mapping,
    MappingStep,
};

mod compose;
mod transform;

verus! {

/// A unary function value: a value of a type implementing `Func` stands for
/// the mathematical function `eval`, and `call` computes it.
pub trait Func {
    /// The argument type.
    type In;

    /// The result type.
    type Out;

    /// The function this value stands for.
    spec fn eval(&self, x: Self::In) -> Self::Out;

    /// Computes `eval` on `x`.
    fn call(&self, x: Self::In) -> (y: Self::Out)
        ensures
            y == self.eval(x),
    ;
}

/// A predicate over elements: a value of a type implementing `Pred` stands
/// for the property `holds`, and `test` decides it. The element is taken by
/// reference, so testing does not consume it.
pub trait Pred {
    /// The element type the predicate speaks of.
    type Elem;

    /// The property this value stands for.
    spec fn holds(&self, t: Self::Elem) -> bool;

    /// Decides `holds` on `t`.
    fn test(&self, t: &Self::Elem) -> (b: bool)
        ensures
            b == self.holds(*t),
    ;
}

/// A step function: a binary operation folding one element into an
/// accumulator, producing a new accumulator. The accumulator is taken and
/// returned by value, so a driver cannot reuse a stale accumulator: the
/// previous one is consumed by the call that produced the next one.
pub trait StepFn {
    /// The accumulator type threaded through the fold.
    type Acc: View;

    /// The element type this step consumes.
    type Elem;

    /// What the step computes, on the accumulator's abstract value.
    spec fn eval(&self, r: <Self::Acc as View>::V, t: Self::Elem) -> <Self::Acc as View>::V;

    /// Folds `t` into `r`.
    fn step(&self, r: Self::Acc, t: Self::Elem) -> (out: Self::Acc)
        ensures
            out@ == self.eval(r@, t),
    ;
}

/// The meaning of a step function value, as a spec-level function.
pub open spec fn step_sem<S: StepFn>(s: S) -> spec_fn(
    <S::Acc as View>::V,
    S::Elem,
) -> <S::Acc as View>::V {
    |r: <S::Acc as View>::V, t: S::Elem| s.eval(r, t)
}

/// An abstract transformation/reduction of data.
///
/// A transducer represents a transformation or reduction like `map` or
/// `filter`, independent of the way in which the data might arrive: given a
/// step function consuming elements of type `S::Elem`, `apply` produces a step
/// function over the same accumulator consuming elements of type
/// `<Self::Applied as StepFn>::Elem`.
///
/// The spec function `sem` is the transducer's meaning: it transforms the
/// meaning of the wrapped step into the meaning of the produced step, and
/// `apply` is proved to agree with it pointwise.
pub trait Transducer<S: StepFn> {
    /// The type of step that application of the transducer produces.
    type Applied: StepFn<Acc = S::Acc>;

    /// The transformation this transducer performs on step-function meanings.
    spec fn sem(
        &self,
        step: spec_fn(<S::Acc as View>::V, S::Elem) -> <S::Acc as View>::V,
    ) -> spec_fn(<S::Acc as View>::V, <Self::Applied as StepFn>::Elem) -> <S::Acc as View>::V;

    /// Applies the transducer to the step function to obtain a new step
    /// function. The transducer itself is not changed, and the produced step
    /// computes exactly what `sem` says it computes.
    fn apply(&self, step: S) -> (out: Self::Applied)
        ensures
            forall|r: <S::Acc as View>::V, t: <Self::Applied as StepFn>::Elem|
                #[trigger] out.eval(r, t) == self.sem(step_sem(step))(r, t),
    ;
}

/// Applies the `fold` reduction operation on `items` transformed by `trans`:
/// the effective step is `trans.apply(fold)`, and the result is the left fold
/// of that step over `items`, starting from `seed`. One pass, in order.
pub fn reduce_iter<Fold: StepFn, Trans: Transducer<Fold>>(
    items: Vec<<Trans::Applied as StepFn>::Elem>,
    seed: Fold::Acc,
    fold: Fold,
    trans: Trans,
) -> (out: Fold::Acc)
    ensures
        out@ == items@.fold_left(seed@, trans.sem(step_sem(fold))),
{
    let ghost all = items@;
    let ghost eff = trans.sem(step_sem(fold));
    let source_len = items.len();
    proof {
        assert(all.len() == source_len);
    }
    let step = trans.apply(fold);
    let mut state = seed;
    let mut items = items;
    let mut taken: usize = 0;
    while items.len() > 0
        invariant
            all.len() <= usize::MAX,
            taken + items.len() == all.len(),
            all == all.take(taken as int) + items@,
            state@ == all.take(taken as int).fold_left(seed@, eff),
            forall|r: <Fold::Acc as View>::V, t: <Trans::Applied as StepFn>::Elem|
                #[trigger] step.eval(r, t) == eff(r, t),
        decreases items.len(),
    {
        let t = items.remove(0);
        proof {
            assert(all.take(taken as int + 1) =~= all.take(taken as int).push(t));
            lemma_fold_left_push(all.take(taken as int), seed@, eff, t);
        }
        state = step.step(state, t);
        taken = taken + 1;
        proof {
            assert(all == all.take(taken as int) + items@);
        }
    }
    proof {
        assert(all.take(taken as int) =~= all);
    }
    state
}

/// The base step of [`transduce`]: append the element to the end of the
/// result vector and return the vector.
pub struct Append<T> {
    marker: PhantomData<T>,
}

impl<T> Append<T> {
    /// Produces the appending step.
    pub fn new() -> Append<T> {
        Append { marker: PhantomData }
    }
}

impl<T> StepFn for Append<T> {
    type Acc = Vec<T>;

    type Elem = T;

    open spec fn eval(&self, r: Seq<T>, t: T) -> Seq<T> {
        r.push(t)
    }

    fn step(&self, r: Vec<T>, t: T) -> (out: Vec<T>) {
        let mut r = r;
        r.push(t);
        r
    }
}

/// The meaning of the appending step, as a spec-level function.
pub open spec fn append_sem<T>() -> spec_fn(Seq<T>, T) -> Seq<T> {
    |r: Seq<T>, t: T| r.push(t)
}

/// Transduces `items` with the transducer `trans`: the result vector is the
/// left fold, over `items` in order, of the step that `trans` makes out of
/// appending. It is the specialization of [`reduce_iter`] in which the
/// accumulator is a growable vector seeded empty and the base step appends.
/// The source length serves as a capacity hint only; a filtering transducer
/// may leave the result shorter.
///
/// This is an alternative to methods like `map` and `filter` on iterators in
/// the standard library.
pub fn transduce<T, Trans: Transducer<Append<T>>>(
    items: Vec<<Trans::Applied as StepFn>::Elem>,
    trans: Trans,
) -> (out: Vec<T>)
    ensures
        out@ == items@.fold_left(Seq::<T>::empty(), trans.sem(append_sem::<T>())),
{
    let base = Append::<T>::new();
    proof {
        assert(step_sem(base) =~= append_sem::<T>());
    }
    let seed = Vec::with_capacity(items.len());
    reduce_iter(items, seed, base, trans)
}

/// Folding over a sequence extended by one element is one more application of
/// the step.
proof fn lemma_fold_left_push<B, A>(s: Seq<A>, b: B, f: spec_fn(B, A) -> B, a: A)
    ensures
        s.push(a).fold_left(b, f) == f(s.fold_left(b, f), a),
{
    assert(s.push(a).drop_last() =~= s);
}

} // verus!
