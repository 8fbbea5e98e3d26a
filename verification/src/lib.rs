//! Open tagged unions and constructor-level mapping.
//!
//! Two layers: a plain two-armed union whose chains are forced, by a
//! marker trait, to end in an uninhabited terminator; and a union of
//! type constructors (sequence, optional, the empty constructor) over a
//! shared element type, with a generic `map` that rebuilds the same
//! shape over a new element type.
//!
//! The laws of `map` — arm preservation, identity, composition, and
//! the pinning of results by deterministic transformations — are
//! stated and proved in [`laws`], [`identity`] and [`compose`], the
//! identity and composition laws structurally, for every well-formed
//! constructor-union at once.

pub mod compose;
pub mod cons;
pub mod functor;
pub mod identity;
pub mod laws;
pub mod union;

pub use compose::FunctorCompose;
pub use cons::CNilK;
pub use cons::CopK;
pub use cons::IsCopK;
pub use cons::IsTypeCons;
pub use cons::TypeCons;
pub use functor::Functor;
pub use identity::FunctorIdentity;
pub use laws::K3;
pub use union::CNil;
pub use union::Cop;
pub use union::IsCop;
