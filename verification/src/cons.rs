//! The constructor layer: a classification of single-argument type
//! constructors (sequence, optional, the empty constructor), a union of
//! constructors over a shared element type, and the substitution
//! relation that names, for a constructor over `A`, the same shape over
//! another element type `B`.

use vstd::prelude::*;
use core::marker::PhantomData;

verus! {

/// The constructor-level terminator: a constructor over `A` with no
/// populated arms. No constructor for it is exported, so the terminal
/// arm of a public constructor-union value can never be reached; the
/// phantom field only binds the element type.
#[derive(Debug, PartialEq, Eq)]
pub struct CNilK<A> {
    _m: PhantomData<A>,
    _priv: bool,
}

/// Marker for single-argument type constructors over `A`: the sequence
/// and optional containers, the empty constructor, and any well-formed
/// constructor-union whose arms are themselves constructors over `A`.
pub trait IsTypeCons<A> {}

/// Marker for well-formed constructor-unions: the right arm must be
/// either the empty constructor or another well-formed
/// constructor-union, so that every chain ends at [`CNilK`].
pub trait IsCopK {}

/// A value holding exactly one of a left-constructor value `L` or a
/// right-constructor value `R`, both over the element type `A`, tagged
/// by which arm is populated. The phantom component keeps `A` part of
/// the static shape even in arms that hold no element.
#[derive(Debug, PartialEq, Eq)]
pub enum CopK<A, L, R> where CopK<A, L, R>: IsCopK {
    Inl(L, PhantomData<A>),
    Inr(R, PhantomData<A>),
}

impl<A> IsTypeCons<A> for Vec<A> {

}

impl<A> IsTypeCons<A> for Option<A> {

}

impl<A> IsTypeCons<A> for CNilK<A> {

}

impl<A, L: IsTypeCons<A>> IsTypeCons<A> for CopK<A, L, CNilK<A>> {

}

impl<A, L: IsTypeCons<A>, R: IsCopK + IsTypeCons<A>> IsTypeCons<A> for CopK<A, L, R> {

}

impl<A, L: IsTypeCons<A>> IsCopK for CopK<A, L, CNilK<A>> {

}

impl<A, L: IsTypeCons<A>, R: IsCopK + IsTypeCons<A>> IsCopK for CopK<A, L, R> {

}

/// The substitution relation: for a constructor shape over some element
/// type `A`, `FB` names the same shape instantiated at `B`, and `A`
/// names the element type currently held. Generic mapping code states
/// its return type through this relation without knowing the shape.
pub trait TypeCons<B> {
    type A;

    type FB: IsTypeCons<B>;
}

impl<T, U> TypeCons<U> for Vec<T> {
    type A = T;

    type FB = Vec<U>;
}

impl<T, U> TypeCons<U> for Option<T> {
    type A = T;

    type FB = Option<U>;
}

impl<A, B> TypeCons<B> for CNilK<A> {
    type A = A;

    type FB = CNilK<B>;
}

impl<A, B, L: IsTypeCons<A> + TypeCons<A> + TypeCons<B>> TypeCons<B> for CopK<A, L, CNilK<A>>
    where <L as TypeCons<B>>::FB: TypeCons<B>,
{
    type A = A;

    type FB = CopK<B, <L as TypeCons<B>>::FB, CNilK<B>>;
}

impl<
    A,
    B,
    L: IsTypeCons<A> + TypeCons<A> + TypeCons<B>,
    R: IsCopK + IsTypeCons<A> + TypeCons<A> + TypeCons<B>,
> TypeCons<B> for CopK<A, L, R>
    where <L as TypeCons<B>>::FB: TypeCons<B>, <R as TypeCons<B>>::FB: IsCopK,
{
    type A = A;

    type FB = CopK<B, <L as TypeCons<B>>::FB, <R as TypeCons<B>>::FB>;
}

/// Builds a constructor-union populated in its left arm.
pub fn copk_inl<A, L, R>(l: L) -> (c: CopK<A, L, R>)
    where CopK<A, L, R>: IsCopK,
    ensures
        c == CopK::<A, L, R>::Inl(l, PhantomData),
{
    CopK::Inl(l, PhantomData)
}

/// Builds a constructor-union populated in its right arm.
pub fn copk_inr<A, L, R>(r: R) -> (c: CopK<A, L, R>)
    where CopK<A, L, R>: IsCopK,
    ensures
        c == CopK::<A, L, R>::Inr(r, PhantomData),
{
    CopK::Inr(r, PhantomData)
}

} // verus!
