//! The plain union layer: a two-armed tagged value whose right arm is
//! constrained, through the marker trait [`IsCop`], to be either the
//! uninhabited terminator [`CNil`] or another well-formed union, so that
//! every union type is a finite chain ending at the terminator.

use vstd::prelude::*;

verus! {

/// The terminator of a union chain. No constructor for it is exported,
/// so no arm of a public union value can ever hold one: it exists only
/// as the type-level end marker of a chain of [`Cop`] arms.
#[derive(Clone, Debug, PartialEq, Eq)]
pub struct CNil {
    _priv: bool,
}

/// Marker for well-formed unions: `Cop<L, CNil>` is well formed for any
/// `L`, and `Cop<L, R>` is well formed whenever `R` is. Any other tail
/// type is rejected at compile time.
pub trait IsCop {}

/// A value holding exactly one of a left `L` or a right `R`, tagged by
/// which arm is populated. The bound keeps ill-formed unions from even
/// being named.
#[derive(Clone, Debug, PartialEq, Eq)]
pub enum Cop<L, R> where Cop<L, R>: IsCop {
    Inl(L),
    Inr(R),
}

impl<L> IsCop for Cop<L, CNil> {

}

impl<L, R: IsCop> IsCop for Cop<L, R> {

}

/// Builds a union populated in its left arm.
pub fn cop_inl<L, R>(l: L) -> (c: Cop<L, R>)
    where Cop<L, R>: IsCop,
    ensures
        c == Cop::<L, R>::Inl(l),
{
    Cop::Inl(l)
}

/// Builds a union populated in its right arm.
pub fn cop_inr<L, R>(r: R) -> (c: Cop<L, R>)
    where Cop<L, R>: IsCop,
    ensures
        c == Cop::<L, R>::Inr(r),
{
    Cop::Inr(r)
}

} // verus!
