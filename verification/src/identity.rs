//! The identity law, derived structurally for every constructor: a
//! trait-level proof obligation, discharged once per base container and
//! once per union form, so that any well-formed constructor-union
//! satisfies it by construction.

use vstd::prelude::*;
use vstd::assert_seqs_equal;
use crate::cons::CNilK;
use crate::cons::CopK;
use crate::cons::IsCopK;
use crate::cons::IsTypeCons;
use crate::cons::TypeCons;
use crate::functor::Functor;
use crate::laws::refines_identity;

verus! {

/// Identity law, carried by every constructor that can map `A` to `A`:
/// mapping with a relation that admits only the identity yields a
/// value `alike` the receiver — the same populated arms holding the
/// same contents, element for element.
pub trait FunctorIdentity<A>: Functor<A, A> + Sized where Self: TypeCons<A, FB = Self> {
    spec fn alike(&self, other: Self) -> bool;

    proof fn lemma_map_identity(&self, rel: spec_fn(A, A) -> bool, r: Self)
        requires
            refines_identity(rel),
            self.map_rel(rel, r),
        ensures
            self.alike(r),
    ;
}

impl<A> FunctorIdentity<A> for Vec<A> {
    open spec fn alike(&self, other: Vec<A>) -> bool {
        self@ == other@
    }

    proof fn lemma_map_identity(&self, rel: spec_fn(A, A) -> bool, r: Vec<A>) {
        assert_seqs_equal!(self@ == r@);
    }
}

impl<A> FunctorIdentity<A> for Option<A> {
    open spec fn alike(&self, other: Option<A>) -> bool {
        *self == other
    }

    proof fn lemma_map_identity(&self, rel: spec_fn(A, A) -> bool, r: Option<A>) {
    }
}

impl<A, L> FunctorIdentity<A> for CopK<A, L, CNilK<A>> where
    L: IsTypeCons<A> + TypeCons<A> + Functor<A, A> + FunctorIdentity<A>,
 {
    open spec fn alike(&self, other: CopK<A, L, CNilK<A>>) -> bool {
        match self {
            CopK::Inl(l, _) => other matches CopK::Inl(ol, _) && l.alike(ol),
            CopK::Inr(_, _) => other is Inr,
        }
    }

    proof fn lemma_map_identity(&self, rel: spec_fn(A, A) -> bool, r: CopK<A, L, CNilK<A>>) {
        match self {
            CopK::Inl(l, _) => {
                l.lemma_map_identity(rel, r->Inl_0);
            },
            CopK::Inr(_, _) => {
            },
        }
    }
}

impl<A, L, R> FunctorIdentity<A> for CopK<A, L, R> where
    L: IsTypeCons<A> + TypeCons<A> + Functor<A, A> + FunctorIdentity<A>,
    R: IsCopK + IsTypeCons<A> + TypeCons<A> + Functor<A, A> + FunctorIdentity<A>,
 {
    open spec fn alike(&self, other: CopK<A, L, R>) -> bool {
        match self {
            CopK::Inl(l, _) => other matches CopK::Inl(ol, _) && l.alike(ol),
            CopK::Inr(rr, _) => other matches CopK::Inr(orr, _) && rr.alike(orr),
        }
    }

    proof fn lemma_map_identity(&self, rel: spec_fn(A, A) -> bool, r: CopK<A, L, R>) {
        match self {
            CopK::Inl(l, _) => {
                l.lemma_map_identity(rel, r->Inl_0);
            },
            CopK::Inr(rr, _) => {
                rr.lemma_map_identity(rel, r->Inr_0);
            },
        }
    }
}

} // verus!
