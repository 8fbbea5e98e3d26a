//! The mapping layer: a `Functor` capability for every constructor over
//! `A` whose substitution to `B` is resolved. `map` consumes a
//! reference and a pure element transformation and produces a fresh
//! value of the substituted shape; for constructor-unions it recurses
//! into the populated arm and rewraps under the same tag.

use vstd::prelude::*;
use core::marker::PhantomData;
use crate::cons::CNilK;
use crate::cons::CopK;
use crate::cons::IsCopK;
use crate::cons::IsTypeCons;
use crate::cons::TypeCons;

verus! {

/// The input-output relation admitted by an element transformation
/// `f`: it relates `a` to `b` exactly when `b` is an output `f` admits
/// for the input `a`. `map` promises its result through this relation.
pub open spec fn graph_of<A, B, F: Fn(&A) -> B>(f: F) -> spec_fn(A, B) -> bool {
    |a: A, b: B| call_ensures(f, (&a,), b)
}

/// Mapping capability for a constructor over `A` substitutable to `B`.
///
/// `map_wf` says which receiver values may be mapped: every value of a
/// base container, and every constructor-union value whose populated
/// arm is itself mappable — in particular never the terminal arm, which
/// cannot arise through the exported constructors.
///
/// `map_rel` relates a receiver to a candidate result through an
/// element relation `rel`: the result carries the same tag chain as the
/// receiver, and each element of the result stands in `rel` to the
/// corresponding element of the receiver, element order preserved.
pub trait Functor<A, B>: TypeCons<B> {
    spec fn map_wf(&self) -> bool;

    spec fn map_rel(&self, rel: spec_fn(A, B) -> bool, r: Self::FB) -> bool;

    /// Produces the substituted shape over `B` by applying `f` to every
    /// element the receiver holds, in order, leaving the receiver
    /// untouched.
    fn map<F: Fn(&A) -> B>(&self, f: F) -> (r: Self::FB)
        requires
            self.map_wf(),
            forall|a: &A| call_requires(f, (a,)),
        ensures
            self.map_rel(graph_of(f), r),
    ;
}

impl<A, B> Functor<A, B> for Option<A> {
    open spec fn map_wf(&self) -> bool {
        true
    }

    open spec fn map_rel(&self, rel: spec_fn(A, B) -> bool, r: Option<B>) -> bool {
        match *self {
            Some(a) => r matches Some(b) && rel(a, b),
            None => r is None,
        }
    }

    fn map<F: Fn(&A) -> B>(&self, f: F) -> (r: Option<B>) {
        match self {
            Some(a) => Some(f(a)),
            None => None,
        }
    }
}

impl<A, B> Functor<A, B> for Vec<A> {
    open spec fn map_wf(&self) -> bool {
        true
    }

    open spec fn map_rel(&self, rel: spec_fn(A, B) -> bool, r: Vec<B>) -> bool {
        &&& r.len() == self.len()
        &&& forall|i: int| 0 <= i < self.len() ==> rel(self[i], #[trigger] r[i])
    }

    fn map<F: Fn(&A) -> B>(&self, f: F) -> (r: Vec<B>) {
        let mut v: Vec<B> = Vec::new();
        let mut j: usize = 0;
        while j < self.len()
            invariant
                j <= self.len(),
                v.len() == j,
                forall|a: &A| call_requires(f, (a,)),
                forall|i: int| 0 <= i < j ==> call_ensures(f, (&self[i],), #[trigger] v[i]),
            decreases self.len() - j,
        {
            v.push(f(&self[j]));
            j += 1;
        }
        v
    }
}

impl<A, B, L: IsTypeCons<A> + TypeCons<A> + Functor<A, B>> Functor<A, B> for CopK<
    A,
    L,
    CNilK<A>,
> where <L as TypeCons<B>>::FB: TypeCons<B> {
    open spec fn map_wf(&self) -> bool {
        match self {
            CopK::Inl(l, _) => l.map_wf(),
            CopK::Inr(_, _) => false,
        }
    }

    open spec fn map_rel(&self, rel: spec_fn(A, B) -> bool, r: Self::FB) -> bool {
        match self {
            CopK::Inl(l, _) => r matches CopK::Inl(lb, _) && l.map_rel(rel, lb),
            CopK::Inr(_, _) => false,
        }
    }

    fn map<F: Fn(&A) -> B>(&self, f: F) -> (r: Self::FB) {
        match self {
            CopK::Inl(l, _) => CopK::Inl(l.map(f), PhantomData),
            CopK::Inr(_, _) => vstd::pervasive::unreached(),
        }
    }
}

impl<
    A,
    B,
    L: IsTypeCons<A> + TypeCons<A> + Functor<A, B>,
    R: IsCopK + IsTypeCons<A> + TypeCons<A> + Functor<A, B>,
> Functor<A, B> for CopK<A, L, R> where
    <L as TypeCons<B>>::FB: TypeCons<B>,
    <R as TypeCons<B>>::FB: IsCopK,
 {
    open spec fn map_wf(&self) -> bool {
        match self {
            CopK::Inl(l, _) => l.map_wf(),
            CopK::Inr(rr, _) => rr.map_wf(),
        }
    }

    open spec fn map_rel(&self, rel: spec_fn(A, B) -> bool, r: Self::FB) -> bool {
        match self {
            CopK::Inl(l, _) => r matches CopK::Inl(lb, _) && l.map_rel(rel, lb),
            CopK::Inr(rr, _) => r matches CopK::Inr(rb, _) && rr.map_rel(rel, rb),
        }
    }

    fn map<F: Fn(&A) -> B>(&self, f: F) -> (r: Self::FB) {
        match self {
            CopK::Inl(l, _) => CopK::Inl(l.map(f), PhantomData),
            CopK::Inr(rr, _) => CopK::Inr(rr.map(f), PhantomData),
        }
    }
}

} // verus!
