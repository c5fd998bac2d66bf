use vstd::prelude::*;
use crate::traits::{chains_to, maps_to, Functor, Monad, Pointed};

verus! {

/// `f` returns its argument unchanged.
pub open spec fn is_identity_fn<T, F: Fn(T) -> T>(f: F) -> bool {
    forall|x: T, y: T| #[trigger] f.ensures((x,), y) ==> y == x
}

/// `f` is a function in the mathematical sense: on one argument it can return
/// only one value.
pub open spec fn is_pure_fn<T, U, F: Fn(T) -> U>(f: F) -> bool {
    forall|x: T, y: U, z: U| #[trigger] f.ensures((x,), y) && #[trigger] f.ensures((x,), z) ==> y == z
}

/// `h` is `g` applied after `f`: on every argument `x`, whatever `h` returns
/// equals whatever `g` returns on a value that `f` returns on `x`.
pub open spec fn is_composition<T, U, V, F: Fn(T) -> U, G: Fn(U) -> V, H: Fn(T) -> V>(
    h: H,
    f: F,
    g: G,
) -> bool {
    forall|x: T, y: U, z: V, w: V|
        #[trigger] f.ensures((x,), y) && #[trigger] g.ensures((y,), z) && #[trigger] h.ensures((x,), w)
            ==> w == z
}

/// `h` is `f` followed by a chain of `g`: on every argument `x`, whatever `h`
/// returns equals whatever chaining `g` after a container that `f` returns on
/// `x` gives.
pub open spec fn is_chain_composition<T, B: Pointed, C, F: Fn(T) -> B, G: Fn(B::Unit) -> C, H: Fn(T) -> C>(
    h: H,
    f: F,
    g: G,
) -> bool {
    forall|x: T, y: B, z: C, w: C|
        #[trigger] f.ensures((x,), y) && #[trigger] chains_to(y, g, z) && #[trigger] h.ensures((x,), w)
            ==> w == z
}

/// `f` behaves as the constructor `of` of `P`.
pub open spec fn acts_as_of<P: Pointed, F: Fn(P::Unit) -> P>(f: F) -> bool {
    forall|u: P::Unit, m: P| #[trigger] f.ensures((u,), m) ==> m == P::wrap(u)
}

/// Unwrapping the container built from `x` gives back `x`.
pub proof fn law_of_unwrap<P: Pointed>(x: P::Unit)
    ensures
        P::wrap(x).held() == x,
{
    P::lemma_held_wrap(x);
}

/// Mapping the identity function over a container gives that same container.
pub proof fn law_map_identity<P: Functor, F: Fn(P::Unit) -> P::Unit>(c: P, f: F, r: P)
    requires
        is_identity_fn(f),
        maps_to(c, f, r),
    ensures
        r == c,
{
    P::lemma_wrap_held(c);
    P::lemma_wrap_held(r);
}

/// Mapping `f` and then `g` gives the same container as mapping once with
/// `h`, the composition of `g` after `f`.
pub proof fn law_map_composition<
    A: Functor,
    B: Functor,
    C: Pointed,
    F: Fn(A::Unit) -> B::Unit,
    G: Fn(B::Unit) -> C::Unit,
    H: Fn(A::Unit) -> C::Unit,
>(c: A, f: F, g: G, h: H, mid: B, r: C, s: C)
    requires
        is_composition(h, f, g),
        maps_to(c, f, mid),
        maps_to(mid, g, r),
        maps_to(c, h, s),
    ensures
        r == s,
{
    assert(r.held() == s.held());
    C::lemma_wrap_held(r);
    C::lemma_wrap_held(s);
}

/// Chaining `f` after the container built from `x` gives what `f` gives on `x`.
pub proof fn law_chain_left_identity<A: Monad, M, F: Fn(A::Unit) -> M>(x: A::Unit, f: F, r: M, s: M)
    requires
        is_pure_fn(f),
        chains_to(A::wrap(x), f, r),
        f.ensures((x,), s),
    ensures
        r == s,
{
    A::lemma_held_wrap(x);
}

/// Chaining the constructor `of` after a container gives that same container.
pub proof fn law_chain_right_identity<P: Monad, F: Fn(P::Unit) -> P>(m: P, f: F, r: P)
    requires
        acts_as_of::<P, F>(f),
        chains_to(m, f, r),
    ensures
        r == m,
{
    P::lemma_wrap_held(m);
}

/// Chaining `f` and then `g` gives the same container as chaining once with
/// `h`, which chains `g` after what `f` returns.
pub proof fn law_chain_associative<
    A: Monad,
    B: Monad,
    C,
    F: Fn(A::Unit) -> B,
    G: Fn(B::Unit) -> C,
    H: Fn(A::Unit) -> C,
>(m: A, f: F, g: G, h: H, mid: B, r: C, s: C)
    requires
        is_chain_composition(h, f, g),
        chains_to(m, f, mid),
        chains_to(mid, g, r),
        chains_to(m, h, s),
    ensures
        r == s,
{
}

} // verus!
