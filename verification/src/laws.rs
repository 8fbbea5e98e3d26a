//! Relations on elements and the laws of the mapping capability that
//! are stated value by value: a relation that pins a function pins the
//! whole mapping result; the populated arm of a constructor-union is
//! preserved; an empty optional stays empty; and two mappings in a row
//! under pinned functions equal one mapping under the composed
//! function. The identity and composition laws themselves are carried
//! structurally by every constructor, as the proof obligations of
//! [`crate::identity::FunctorIdentity`] and
//! [`crate::compose::FunctorCompose`].

use vstd::prelude::*;
use vstd::assert_seqs_equal;
use crate::cons::CNilK;
use crate::cons::CopK;
use crate::cons::IsCopK;
use crate::cons::IsTypeCons;
use crate::cons::TypeCons;
use crate::functor::Functor;
use crate::functor::graph_of;
use crate::identity::FunctorIdentity;

verus! {

/// A three-armed constructor-union over `A`: a sequence, an optional,
/// and the empty terminator — the shape of the demonstration values.
pub type K3<A> = CopK<A, Vec<A>, CopK<A, Option<A>, CNilK<A>>>;

/// Holds when `rel` admits nothing but the identity: every output it
/// relates to an input is that input itself.
pub open spec fn refines_identity<A>(rel: spec_fn(A, A) -> bool) -> bool {
    forall|a: A, b: A| #[trigger] rel(a, b) ==> b == a
}

/// Holds when `rel` pins the function `fs`: every output it relates to
/// an input `a` is exactly `fs(a)`.
pub open spec fn pins<A, B>(rel: spec_fn(A, B) -> bool, fs: spec_fn(A) -> B) -> bool {
    forall|a: A, b: B| #[trigger] rel(a, b) ==> b == fs(a)
}

/// The relational composition of two element relations: `a` relates to
/// `c` when some intermediate `b` links them.
pub open spec fn rel_compose<A, B, C>(
    rel1: spec_fn(A, B) -> bool,
    rel2: spec_fn(B, C) -> bool,
) -> spec_fn(A, C) -> bool {
    |a: A, c: C| exists|b: B| #[trigger] rel1(a, b) && rel2(b, c)
}

/// An element transformation whose every admitted output is the input
/// itself has a graph that admits only the identity, so `map`'s
/// postcondition feeds the identity law directly.
pub proof fn lemma_graph_of_refines_identity<A, F: Fn(&A) -> A>(f: F)
    requires
        forall|a: &A, b: A| call_ensures(f, (a,), b) ==> b == *a,
    ensures
        refines_identity(graph_of(f)),
{
}

/// An element transformation whose every admitted output is `fs` of
/// the input has a graph that pins `fs`, so `map`'s postcondition
/// feeds the determinism and composition laws directly.
pub proof fn lemma_graph_of_pins<A, B, F: Fn(&A) -> B>(f: F, fs: spec_fn(A) -> B)
    requires
        forall|a: &A, b: B| call_ensures(f, (a,), b) ==> b == fs(*a),
    ensures
        pins(graph_of(f), fs),
{
}

/// The element-wise image of an optional under `fs`.
pub open spec fn opt_value_map<A, B>(o: Option<A>, fs: spec_fn(A) -> B) -> Option<B> {
    match o {
        Some(a) => Some(fs(a)),
        None => None,
    }
}

/// Tag preservation for a multi-armed constructor-union: any mapping
/// result of a value populated in the left (resp. right) arm is itself
/// populated in the left (resp. right) arm.
pub proof fn lemma_copk_tag_preserved<A, B, L, R>(
    v: CopK<A, L, R>,
    rel: spec_fn(A, B) -> bool,
    r: CopK<B, <L as TypeCons<B>>::FB, <R as TypeCons<B>>::FB>,
) where
    L: IsTypeCons<A> + TypeCons<A> + Functor<A, B>,
    R: IsCopK + IsTypeCons<A> + TypeCons<A> + Functor<A, B>,
    <L as TypeCons<B>>::FB: TypeCons<B>,
    <R as TypeCons<B>>::FB: IsCopK,

    requires
        v.map_rel(rel, r),
    ensures
        v is Inl <==> r is Inl,
        v is Inr <==> r is Inr,
{
}

/// Tag preservation for a single-armed constructor-union: only the left
/// arm can be mapped at all, and the result is again in the left arm.
pub proof fn lemma_copk1_tag_preserved<A, B, L>(
    v: CopK<A, L, CNilK<A>>,
    rel: spec_fn(A, B) -> bool,
    r: CopK<B, <L as TypeCons<B>>::FB, CNilK<B>>,
) where
    L: IsTypeCons<A> + TypeCons<A> + Functor<A, B>,
    <L as TypeCons<B>>::FB: TypeCons<B>,

    requires
        v.map_rel(rel, r),
    ensures
        v is Inl,
        r is Inl,
{
}

/// A relation that pins `fs` pins a sequence mapping result whole: it
/// is exactly the element-wise image of the receiver under `fs`, in
/// order and of the same length.
pub proof fn lemma_vec_map_determined<A, B>(
    v: Vec<A>,
    rel: spec_fn(A, B) -> bool,
    fs: spec_fn(A) -> B,
    r: Vec<B>,
)
    requires
        pins(rel, fs),
        v.map_rel(rel, r),
    ensures
        r@ == v@.map_values(fs),
{
    assert_seqs_equal!(r@ == v@.map_values(fs));
}

/// A relation that pins `fs` pins an optional mapping result whole.
pub proof fn lemma_opt_map_determined<A, B>(
    o: Option<A>,
    rel: spec_fn(A, B) -> bool,
    fs: spec_fn(A) -> B,
    r: Option<B>,
)
    requires
        pins(rel, fs),
        o.map_rel(rel, r),
    ensures
        r == opt_value_map(o, fs),
{
}

/// A relation that pins `fs` pins a mapping result of the three-armed
/// demonstration shape whole: each arm is the element-wise image of the
/// receiver's arm under `fs`.
pub proof fn lemma_k3_map_determined<A, B>(
    v: K3<A>,
    rel: spec_fn(A, B) -> bool,
    fs: spec_fn(A) -> B,
    r: K3<B>,
)
    requires
        pins(rel, fs),
        v.map_rel(rel, r),
    ensures
        v matches CopK::Inl(vl, _) ==> r matches CopK::Inl(rl, _) && rl@ == vl@.map_values(fs),
        v matches CopK::Inr(vr, _) ==> r matches CopK::Inr(rr, _)
            && vr matches CopK::Inl(vo, _) && rr matches CopK::Inl(ro, _)
            && ro == opt_value_map(vo, fs),
{
    match v {
        CopK::Inl(vl, _) => {
            lemma_vec_map_determined(vl, rel, fs, r->Inl_0);
        },
        CopK::Inr(vr, _) => {
        },
    }
}

/// Emptiness preservation for optionals: a mapping result of an empty
/// optional is empty, and of a populated one is populated.
pub proof fn lemma_opt_map_emptiness<A, B>(
    o: Option<A>,
    rel: spec_fn(A, B) -> bool,
    r: Option<B>,
)
    requires
        o.map_rel(rel, r),
    ensures
        o is None <==> r is None,
{
}

/// Composition law for sequences, in functional form: when the element
/// relations pin functions, mapping twice gives exactly what one
/// mapping under the composed function gives.
pub proof fn lemma_vec_two_maps_equal_composed<A, B, C>(
    v: Vec<A>,
    rel1: spec_fn(A, B) -> bool,
    fs: spec_fn(A) -> B,
    r1: Vec<B>,
    rel2: spec_fn(B, C) -> bool,
    gs: spec_fn(B) -> C,
    r2: Vec<C>,
    rel3: spec_fn(A, C) -> bool,
    r3: Vec<C>,
)
    requires
        pins(rel1, fs),
        pins(rel2, gs),
        pins(rel3, |a: A| gs(fs(a))),
        v.map_rel(rel1, r1),
        r1.map_rel(rel2, r2),
        v.map_rel(rel3, r3),
    ensures
        r2@ == r3@,
{
    lemma_vec_map_determined(v, rel1, fs, r1);
    lemma_vec_map_determined(r1, rel2, gs, r2);
    lemma_vec_map_determined(v, rel3, |a: A| gs(fs(a)), r3);
    assert_seqs_equal!(r2@ == r3@);
}

/// Composition law for optionals, in functional form.
pub proof fn lemma_opt_two_maps_equal_composed<A, B, C>(
    o: Option<A>,
    rel1: spec_fn(A, B) -> bool,
    fs: spec_fn(A) -> B,
    r1: Option<B>,
    rel2: spec_fn(B, C) -> bool,
    gs: spec_fn(B) -> C,
    r2: Option<C>,
    rel3: spec_fn(A, C) -> bool,
    r3: Option<C>,
)
    requires
        pins(rel1, fs),
        pins(rel2, gs),
        pins(rel3, |a: A| gs(fs(a))),
        o.map_rel(rel1, r1),
        r1.map_rel(rel2, r2),
        o.map_rel(rel3, r3),
    ensures
        r2 == r3,
{
}

/// Composition law for the three-armed demonstration shape, in
/// functional form: mapping twice and mapping once under the composed
/// function build values alike in arm and contents.
pub proof fn lemma_k3_two_maps_equal_composed<A, B, C>(
    v: K3<A>,
    rel1: spec_fn(A, B) -> bool,
    fs: spec_fn(A) -> B,
    r1: K3<B>,
    rel2: spec_fn(B, C) -> bool,
    gs: spec_fn(B) -> C,
    r2: K3<C>,
    rel3: spec_fn(A, C) -> bool,
    r3: K3<C>,
)
    requires
        pins(rel1, fs),
        pins(rel2, gs),
        pins(rel3, |a: A| gs(fs(a))),
        v.map_rel(rel1, r1),
        r1.map_rel(rel2, r2),
        v.map_rel(rel3, r3),
    ensures
        r2.alike(r3),
{
    lemma_k3_map_determined(v, rel1, fs, r1);
    lemma_k3_map_determined(r1, rel2, gs, r2);
    lemma_k3_map_determined(v, rel3, |a: A| gs(fs(a)), r3);
    match v {
        CopK::Inl(vl, _) => {
            assert_seqs_equal!(r2->Inl_0@ == r3->Inl_0@);
        },
        CopK::Inr(vr, _) => {
        },
    }
}

} // verus!
