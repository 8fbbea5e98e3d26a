//! The composition law, derived structurally for every constructor: a
//! trait-level proof obligation, discharged once per base container and
//! once per union form, so that any well-formed constructor-union
//! satisfies it by construction.

use vstd::prelude::*;
use crate::cons::CNilK;
use crate::cons::CopK;
use crate::cons::IsCopK;
use crate::cons::IsTypeCons;
use crate::cons::TypeCons;
use crate::functor::Functor;
use crate::laws::rel_compose;

verus! {

/// Composition law in relational form, carried by every constructor
/// that can map `A` to `B` to `C`: mapping to `B` and then to `C` is
/// one mapping under the composed element relation.
pub trait FunctorCompose<A, B, C>: Functor<A, B> + Functor<A, C> where
    <Self as TypeCons<B>>::FB: Functor<B, C> + TypeCons<C, FB = <Self as TypeCons<C>>::FB>,
 {
    proof fn lemma_map_compose(
        &self,
        rel1: spec_fn(A, B) -> bool,
        r1: <Self as TypeCons<B>>::FB,
        rel2: spec_fn(B, C) -> bool,
        r2: <Self as TypeCons<C>>::FB,
    )
        requires
            self.map_rel(rel1, r1),
            r1.map_rel(rel2, r2),
        ensures
            self.map_rel(rel_compose(rel1, rel2), r2),
    ;
}

impl<A, B, C> FunctorCompose<A, B, C> for Vec<A> {
    proof fn lemma_map_compose(
        &self,
        rel1: spec_fn(A, B) -> bool,
        r1: Vec<B>,
        rel2: spec_fn(B, C) -> bool,
        r2: Vec<C>,
    ) {
        assert forall|i: int| 0 <= i < self.len() implies rel_compose(rel1, rel2)(
            self[i],
            #[trigger] r2[i],
        ) by {
            assert(rel1(self[i], r1[i]));
            assert(rel2(r1[i], r2[i]));
        }
    }
}

impl<A, B, C> FunctorCompose<A, B, C> for Option<A> {
    proof fn lemma_map_compose(
        &self,
        rel1: spec_fn(A, B) -> bool,
        r1: Option<B>,
        rel2: spec_fn(B, C) -> bool,
        r2: Option<C>,
    ) {
    }
}

impl<A, B, C, L> FunctorCompose<A, B, C> for CopK<A, L, CNilK<A>> where
    L: IsTypeCons<A> + TypeCons<A> + Functor<A, B> + Functor<A, C> + FunctorCompose<A, B, C>,
    <L as TypeCons<B>>::FB: TypeCons<B> + Functor<B, C> + TypeCons<
        C,
        FB = <L as TypeCons<C>>::FB,
    >,
    <L as TypeCons<C>>::FB: TypeCons<C>,
 {
    proof fn lemma_map_compose(
        &self,
        rel1: spec_fn(A, B) -> bool,
        r1: CopK<B, <L as TypeCons<B>>::FB, CNilK<B>>,
        rel2: spec_fn(B, C) -> bool,
        r2: CopK<C, <L as TypeCons<C>>::FB, CNilK<C>>,
    ) {
        match self {
            CopK::Inl(l, _) => {
                l.lemma_map_compose(rel1, r1->Inl_0, rel2, r2->Inl_0);
            },
            CopK::Inr(_, _) => {
            },
        }
    }
}

impl<A, B, C, L, R> FunctorCompose<A, B, C> for CopK<A, L, R> where
    L: IsTypeCons<A> + TypeCons<A> + Functor<A, B> + Functor<A, C> + FunctorCompose<A, B, C>,
    R: IsCopK + IsTypeCons<A> + TypeCons<A> + Functor<A, B> + Functor<A, C> + FunctorCompose<
        A,
        B,
        C,
    >,
    <L as TypeCons<B>>::FB: TypeCons<B> + Functor<B, C> + TypeCons<
        C,
        FB = <L as TypeCons<C>>::FB,
    >,
    <R as TypeCons<B>>::FB: IsCopK + TypeCons<B> + Functor<B, C> + TypeCons<
        C,
        FB = <R as TypeCons<C>>::FB,
    >,
    <L as TypeCons<C>>::FB: TypeCons<C>,
    <R as TypeCons<C>>::FB: IsCopK,
 {
    proof fn lemma_map_compose(
        &self,
        rel1: spec_fn(A, B) -> bool,
        r1: CopK<B, <L as TypeCons<B>>::FB, <R as TypeCons<B>>::FB>,
        rel2: spec_fn(B, C) -> bool,
        r2: CopK<C, <L as TypeCons<C>>::FB, <R as TypeCons<C>>::FB>,
    ) {
        match self {
            CopK::Inl(l, _) => {
                l.lemma_map_compose(rel1, r1->Inl_0, rel2, r2->Inl_0);
            },
            CopK::Inr(rr, _) => {
                rr.lemma_map_compose(rel1, r1->Inr_0, rel2, r2->Inr_0);
            },
        }
    }
}

} // verus!
