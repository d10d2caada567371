//! Composition of plain functions and of transducers.

use vstd::prelude::*;

use crate::{Func, Identity, IdentityStep, StepFn, Transducer, step_sem};

verus! {

/// The function composition `f` after `g`.
pub struct Composed<F, G> {
    /// The outer function, applied second.
    pub f: F,
    /// The inner function, applied first.
    pub g: G,
}

impl<F: Func, G: Func<Out = F::In>> Func for Composed<F, G> {
    type In = G::In;

    type Out = F::Out;

    open spec fn eval(&self, x: G::In) -> F::Out {
        self.f.eval(self.g.eval(x))
    }

    fn call(&self, x: G::In) -> (z: F::Out) {
        let y = self.g.call(x);
        self.f.call(y)
    }
}

/// Composes the functions `f` and `g` to the function `f` after `g`.
pub fn compose<F: Func, G: Func<Out = F::In>>(f: F, g: G) -> (c: Composed<F, G>)
    ensures
        c == (Composed { f, g }),
{
    Composed { f, g }
}

/// The transducer composition `f` after `g`: applying it to a step function
/// wraps the step with `g`'s transformation first and `f`'s around it.
pub struct ComposedTransducer<F, G> {
    /// The outer transducer; its transformation stands nearer the source.
    pub f: F,
    /// The inner transducer; its transformation stands nearer the result.
    pub g: G,
}

impl<S: StepFn, G: Transducer<S>, F: Transducer<G::Applied>> Transducer<S> for ComposedTransducer<
    F,
    G,
> {
    type Applied = F::Applied;

    open spec fn sem(
        &self,
        step: spec_fn(<S::Acc as View>::V, S::Elem) -> <S::Acc as View>::V,
    ) -> spec_fn(<S::Acc as View>::V, <F::Applied as StepFn>::Elem) -> <S::Acc as View>::V {
        self.f.sem(self.g.sem(step))
    }

    fn apply(&self, step: S) -> (out: F::Applied) {
        let ghost given = step;
        let mid = self.g.apply(step);
        proof {
            assert(step_sem(mid) =~= self.g.sem(step_sem(given)));
        }
        self.f.apply(mid)
    }
}

/// Creates a transducer that is the composition `f` after `g`.
pub fn compose_trans<F, G>(f: F, g: G) -> (c: ComposedTransducer<F, G>)
    ensures
        c == (ComposedTransducer { f, g }),
{
    ComposedTransducer { f, g }
}

/// Law: plain-function composition is associative. For all functions `f`,
/// `g`, `h` and every input `x`, composing `f` after `g` and then the result
/// after `h` computes the same value as composing `f` after the composition
/// of `g` after `h`.
pub proof fn lemma_compose_associative<F: Func, G: Func<Out = F::In>, H: Func<Out = G::In>>(
    f: F,
    g: G,
    h: H,
    x: H::In,
)
    ensures
        (Composed { f: Composed { f, g }, g: h }).eval(x) == (Composed {
            f,
            g: Composed { f: g, g: h },
        }).eval(x),
{
}

/// Law: a function that maps every value to itself is a two-sided unit of
/// plain-function composition: composing it before or after `f` gives a
/// function that computes exactly what `f` computes.
pub proof fn lemma_compose_identity<F, L, R>(f: F, id_out: L, id_in: R, x: F::In)
    where
        F: Func,
        L: Func<In = F::Out, Out = F::Out>,
        R: Func<In = F::In, Out = F::In>,
    requires
        forall|y: F::Out| #[trigger] id_out.eval(y) == y,
        forall|y: F::In| #[trigger] id_in.eval(y) == y,
    ensures
        (Composed { f: id_out, g: f }).eval(x) == f.eval(x),
        (Composed { f, g: id_in }).eval(x) == f.eval(x),
{
}

/// Law: transducer composition is associative. However the two compositions
/// of `a` after `b` after `c` are grouped, the composed transducer performs
/// the same transformation on every step function.
pub proof fn lemma_compose_trans_associative<S, A, B, C>(
    left: ComposedTransducer<ComposedTransducer<A, B>, C>,
    right: ComposedTransducer<A, ComposedTransducer<B, C>>,
    step: spec_fn(<S::Acc as View>::V, S::Elem) -> <S::Acc as View>::V,
)
    where
        S: StepFn,
        C: Transducer<S>,
        B: Transducer<C::Applied>,
        A: Transducer<B::Applied>,
    requires
        left.f.f == right.f,
        left.f.g == right.g.f,
        left.g == right.g.g,
    ensures
        <ComposedTransducer<ComposedTransducer<A, B>, C> as Transducer<S>>::sem(&left, step)
            == <ComposedTransducer<A, ComposedTransducer<B, C>> as Transducer<S>>::sem(
            &right,
            step,
        ),
{
}

/// Law: the identity transducer is a unit of transducer composition on the
/// left and on the right: the composition performs, on every step function,
/// exactly the transformation the other transducer performs alone.
pub proof fn lemma_compose_trans_identity<S, T>(
    left: ComposedTransducer<Identity, T>,
    right: ComposedTransducer<T, Identity>,
    step: spec_fn(<S::Acc as View>::V, S::Elem) -> <S::Acc as View>::V,
)
    where
        S: StepFn,
        T: Transducer<S> + Transducer<IdentityStep<S>>,
    ensures
        <ComposedTransducer<Identity, T> as Transducer<S>>::sem(&left, step) == <T as Transducer<
            S,
        >>::sem(&left.g, step),
        <ComposedTransducer<T, Identity> as Transducer<S>>::sem(&right, step) == <T as Transducer<
            IdentityStep<S>,
        >>::sem(&right.f, step),
{
}

} // verus!
