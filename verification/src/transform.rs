//! The standard transducers: identity, mapping and filtering.

use vstd::prelude::*;

use crate::{append_sem, Append, ComposedTransducer, Func, Pred, StepFn, Transducer, step_sem};

verus! {

/// The step produced by [`Identity`]: a pass-through wrapper around the
/// wrapped step, with no transformation.
pub struct IdentityStep<S> {
    /// The wrapped step.
    pub step: S,
}

impl<S: StepFn> StepFn for IdentityStep<S> {
    type Acc = S::Acc;

    type Elem = S::Elem;

    open spec fn eval(&self, r: <S::Acc as View>::V, t: S::Elem) -> <S::Acc as View>::V {
        self.step.eval(r, t)
    }

    fn step(&self, r: S::Acc, t: S::Elem) -> (out: S::Acc) {
        self.step.step(r, t)
    }
}

/// The identity transducer: applying it to a step function gives a step that
/// does exactly what the wrapped step does. It is the two-sided unit of
/// transducer composition.
pub struct Identity;

impl<S: StepFn> Transducer<S> for Identity {
    type Applied = IdentityStep<S>;

    open spec fn sem(
        &self,
        step: spec_fn(<S::Acc as View>::V, S::Elem) -> <S::Acc as View>::V,
    ) -> spec_fn(<S::Acc as View>::V, S::Elem) -> <S::Acc as View>::V {
        step
    }

    fn apply(&self, step: S) -> (out: IdentityStep<S>) {
        IdentityStep { step }
    }
}

impl Identity {
    /// Produces the identity transducer.
    pub fn new() -> Identity {
        Identity
    }
}

/// The step produced by [`Mapping`]: it maps the element through `f`, then
/// hands the image to the wrapped step.
pub struct MappingStep<'t, F, S> {
    /// The mapping function.
    pub f: &'t F,
    /// The wrapped step.
    pub step: S,
}

impl<'t, F: Func, S: StepFn<Elem = F::Out>> StepFn for MappingStep<'t, F, S> {
    type Acc = S::Acc;

    type Elem = F::In;

    open spec fn eval(&self, r: <S::Acc as View>::V, t: F::In) -> <S::Acc as View>::V {
        self.step.eval(r, self.f.eval(t))
    }

    fn step(&self, r: S::Acc, t: F::In) -> (out: S::Acc) {
        let u = self.f.call(t);
        self.step.step(r, u)
    }
}

/// The mapping transducer: applying it to a step function gives a step that
/// maps every element through `f` before folding it. `f` is applied exactly
/// once per element, in element order; no element is reordered or skipped.
pub struct Mapping<'t, F> {
    /// The function applied to every element.
    pub f: &'t F,
}

impl<'t, F: Func, S: StepFn<Elem = F::Out>> Transducer<S> for Mapping<'t, F> {
    type Applied = MappingStep<'t, F, S>;

    open spec fn sem(
        &self,
        step: spec_fn(<S::Acc as View>::V, F::Out) -> <S::Acc as View>::V,
    ) -> spec_fn(<S::Acc as View>::V, F::In) -> <S::Acc as View>::V {
        |r: <S::Acc as View>::V, t: F::In| step(r, self.f.eval(t))
    }

    fn apply(&self, step: S) -> (out: MappingStep<'t, F, S>) {
        MappingStep { f: self.f, step }
    }
}

impl<'t, F> Mapping<'t, F> {
    /// The mapping transducer that applies `f` to every element.
    pub fn new(f: &'t F) -> (m: Mapping<'t, F>)
        ensures
            m.f == f,
    {
        Mapping { f }
    }
}

/// The step produced by [`Filtering`]: it tests the element; one that passes
/// is folded by the wrapped step, one that fails is dropped and the
/// accumulator is returned unchanged.
pub struct FilteringStep<'t, P, S> {
    /// The predicate elements must satisfy.
    pub p: &'t P,
    /// The wrapped step.
    pub step: S,
}

impl<'t, P: Pred, S: StepFn<Elem = P::Elem>> StepFn for FilteringStep<'t, P, S> {
    type Acc = S::Acc;

    type Elem = P::Elem;

    open spec fn eval(&self, r: <S::Acc as View>::V, t: P::Elem) -> <S::Acc as View>::V {
        if self.p.holds(t) {
            self.step.eval(r, t)
        } else {
            r
        }
    }

    fn step(&self, r: S::Acc, t: P::Elem) -> (out: S::Acc) {
        if self.p.test(&t) {
            self.step.step(r, t)
        } else {
            r
        }
    }
}

/// The filtering transducer: applying it to a step function gives a step that
/// folds exactly the elements satisfying `p` and drops the others. Each
/// element is tested exactly once; elements that pass keep their relative
/// order.
pub struct Filtering<'t, P> {
    /// The predicate elements must satisfy to pass.
    pub p: &'t P,
}

impl<'t, P: Pred, S: StepFn<Elem = P::Elem>> Transducer<S> for Filtering<'t, P> {
    type Applied = FilteringStep<'t, P, S>;

    open spec fn sem(
        &self,
        step: spec_fn(<S::Acc as View>::V, P::Elem) -> <S::Acc as View>::V,
    ) -> spec_fn(<S::Acc as View>::V, P::Elem) -> <S::Acc as View>::V {
        |r: <S::Acc as View>::V, t: P::Elem|
            if self.p.holds(t) {
                step(r, t)
            } else {
                r
            }
    }

    fn apply(&self, step: S) -> (out: FilteringStep<'t, P, S>) {
        FilteringStep { p: self.p, step }
    }
}

impl<'t, P> Filtering<'t, P> {
    /// The filtering transducer that passes through all elements for which
    /// the predicate `p` is true.
    pub fn new(p: &'t P) -> (fl: Filtering<'t, P>)
        ensures
            fl.p == p,
    {
        Filtering { p }
    }
}

/// Folding appending over a sequence appends the whole sequence.
proof fn lemma_fold_append<T>(items: Seq<T>, acc: Seq<T>)
    ensures
        items.fold_left(acc, append_sem::<T>()) == acc + items,
    decreases items.len(),
{
    if items.len() == 0 {
        assert(acc + items =~= acc);
    } else {
        lemma_fold_append(items.drop_last(), acc);
        assert(acc + items =~= (acc + items.drop_last()).push(items.last()));
    }
}

/// Folding the mapped appending step over a sequence appends the image of the
/// whole sequence under `f`.
proof fn lemma_fold_map_append<T, U>(items: Seq<T>, acc: Seq<U>, f: spec_fn(T) -> U)
    ensures
        items.fold_left(acc, |r: Seq<U>, t: T| r.push(f(t))) == acc + items.map_values(f),
    decreases items.len(),
{
    if items.len() == 0 {
        assert(acc + items.map_values(f) =~= acc);
    } else {
        lemma_fold_map_append(items.drop_last(), acc, f);
        assert(items.drop_last().map_values(f) =~= items.map_values(f).drop_last());
        assert(acc + items.map_values(f) =~= (acc + items.map_values(f).drop_last()).push(
            f(items.last()),
        ));
    }
}

/// Folding the filtered appending step over a sequence appends exactly the
/// elements that satisfy `p`, in order.
proof fn lemma_fold_filter_append<T>(items: Seq<T>, acc: Seq<T>, p: spec_fn(T) -> bool)
    ensures
        items.fold_left(
            acc,
            |r: Seq<T>, t: T|
                if p(t) {
                    r.push(t)
                } else {
                    r
                },
        ) == acc + items.filter(p),
    decreases items.len(),
{
    reveal(Seq::filter);
    if items.len() == 0 {
        assert(acc + items.filter(p) =~= acc);
    } else {
        lemma_fold_filter_append(items.drop_last(), acc, p);
        if p(items.last()) {
            assert(acc + items.filter(p) =~= (acc + items.drop_last().filter(p)).push(
                items.last(),
            ));
        } else {
            assert(acc + items.filter(p) =~= acc + items.drop_last().filter(p));
        }
    }
}

/// Folding the mapped-then-filtered appending step over a sequence appends
/// exactly the images under `f` that satisfy `p`, in order.
proof fn lemma_fold_map_filter_append<T, U>(
    items: Seq<T>,
    acc: Seq<U>,
    f: spec_fn(T) -> U,
    p: spec_fn(U) -> bool,
)
    ensures
        items.fold_left(
            acc,
            |r: Seq<U>, t: T|
                if p(f(t)) {
                    r.push(f(t))
                } else {
                    r
                },
        ) == acc + items.map_values(f).filter(p),
    decreases items.len(),
{
    reveal(Seq::filter);
    if items.len() == 0 {
        assert(acc + items.map_values(f).filter(p) =~= acc);
    } else {
        lemma_fold_map_filter_append(items.drop_last(), acc, f, p);
        let mapped = items.map_values(f);
        assert(items.drop_last().map_values(f) =~= mapped.drop_last());
        if p(f(items.last())) {
            assert(acc + mapped.filter(p) =~= (acc + mapped.drop_last().filter(p)).push(
                f(items.last()),
            ));
        } else {
            assert(acc + mapped.filter(p) =~= acc + mapped.drop_last().filter(p));
        }
    }
}

/// Law: transducing with the identity transducer reproduces the source
/// sequence exactly, preserving order and length.
pub proof fn lemma_identity_transduce<T>(id: Identity, items: Seq<T>)
    ensures
        items.fold_left(
            Seq::<T>::empty(),
            <Identity as Transducer<Append<T>>>::sem(&id, append_sem::<T>()),
        ) == items,
{
    lemma_fold_append(items, Seq::<T>::empty());
    assert(Seq::<T>::empty() + items =~= items);
}

/// Law: transducing with a mapping transducer is the element-wise transform:
/// the result is the source sequence with `f` applied to every element, in
/// order.
pub proof fn lemma_mapping_transduce<'t, F: Func>(m: Mapping<'t, F>, items: Seq<F::In>)
    ensures
        items.fold_left(
            Seq::<F::Out>::empty(),
            <Mapping<'t, F> as Transducer<Append<F::Out>>>::sem(&m, append_sem::<F::Out>()),
        ) == items.map_values(|t: F::In| m.f.eval(t)),
{
    let f = |t: F::In| m.f.eval(t);
    let sem = <Mapping<'t, F> as Transducer<Append<F::Out>>>::sem(&m, append_sem::<F::Out>());
    assert(sem =~= (|r: Seq<F::Out>, t: F::In| r.push(f(t))));
    lemma_fold_map_append(items, Seq::<F::Out>::empty(), f);
    assert(Seq::<F::Out>::empty() + items.map_values(f) =~= items.map_values(f));
}

/// Law: transducing with a filtering transducer drops exactly the elements
/// that fail the predicate and preserves the order of those that pass.
pub proof fn lemma_filtering_transduce<'t, P: Pred>(fl: Filtering<'t, P>, items: Seq<P::Elem>)
    ensures
        items.fold_left(
            Seq::<P::Elem>::empty(),
            <Filtering<'t, P> as Transducer<Append<P::Elem>>>::sem(&fl, append_sem::<P::Elem>()),
        ) == items.filter(|t: P::Elem| fl.p.holds(t)),
{
    let p = |t: P::Elem| fl.p.holds(t);
    let sem = <Filtering<'t, P> as Transducer<Append<P::Elem>>>::sem(
        &fl,
        append_sem::<P::Elem>(),
    );
    assert(sem =~= (|r: Seq<P::Elem>, t: P::Elem|
        if p(t) {
            r.push(t)
        } else {
            r
        }));
    lemma_fold_filter_append(items, Seq::<P::Elem>::empty(), p);
    assert(Seq::<P::Elem>::empty() + items.filter(p) =~= items.filter(p));
}

/// Law: transducing with a mapping transducer composed with a filtering
/// transducer (the filtering applied to the already-mapped values) maps every
/// element through `f` and keeps, in order, exactly the images satisfying
/// `p`. Note the composition order: the mapping transducer stands first,
/// the filtering transducer second.
pub proof fn lemma_mapping_filtering_transduce<'t, F: Func, P: Pred<Elem = F::Out>>(
    ct: ComposedTransducer<Mapping<'t, F>, Filtering<'t, P>>,
    items: Seq<F::In>,
)
    ensures
        items.fold_left(
            Seq::<F::Out>::empty(),
            <ComposedTransducer<Mapping<'t, F>, Filtering<'t, P>> as Transducer<
                Append<F::Out>,
            >>::sem(&ct, append_sem::<F::Out>()),
        ) == items.map_values(|t: F::In| ct.f.f.eval(t)).filter(
            |u: F::Out| ct.g.p.holds(u),
        ),
{
    let f = |t: F::In| ct.f.f.eval(t);
    let p = |u: F::Out| ct.g.p.holds(u);
    let sem = <ComposedTransducer<Mapping<'t, F>, Filtering<'t, P>> as Transducer<
        Append<F::Out>,
    >>::sem(&ct, append_sem::<F::Out>());
    lemma_fold_map_filter_append(items, Seq::<F::Out>::empty(), f, p);
    assert(sem =~= (|r: Seq<F::Out>, t: F::In|
        if p(f(t)) {
            r.push(f(t))
        } else {
            r
        }));
    assert(Seq::<F::Out>::empty() + items.map_values(f).filter(p) =~= items.map_values(f).filter(
        p,
    ));
}

} // verus!
