use vstd::prelude::*;

verus! {

/// A container that can be built from one unit value and give it back.
///
/// `held` is the unit value that a container stands for, and `wrap` is the
/// container that stands for a given unit value. The two are inverse to each
/// other, which every implementation proves.
pub trait Pointed where Self: Sized {
    type Unit;

    /// The unit value held by this container.
    spec fn held(&self) -> Self::Unit;

    /// The container that holds `unit`.
    spec fn wrap(unit: Self::Unit) -> Self;

    /// Wrapping a unit value and reading it back gives that value.
    proof fn lemma_held_wrap(unit: Self::Unit)
        ensures
            Self::wrap(unit).held() == unit,
    ;

    /// A container is the wrapping of the value it holds.
    proof fn lemma_wrap_held(c: Self)
        ensures
            Self::wrap(c.held()) == c,
    ;

    /// Builds the container that holds `unit`.
    fn of(unit: Self::Unit) -> (r: Self)
        ensures
            r == Self::wrap(unit),
    ;

    /// Consumes the container and returns the unit value it holds.
    fn unwrap(self) -> (r: Self::Unit)
        ensures
            r == self.held(),
    ;
}

/// `r` is a possible result of mapping `f` over `c`: `f` may return, on the
/// value `c` holds, the value `r` holds.
pub open spec fn maps_to<A: Pointed, C: Pointed, F: Fn(A::Unit) -> C::Unit>(
    c: A,
    f: F,
    r: C,
) -> bool {
    f.ensures((c.held(),), r.held())
}

/// `r` is a possible result of chaining `f` after `c`: `f` may return `r` on
/// the value `c` holds.
pub open spec fn chains_to<A: Pointed, M, F: Fn(A::Unit) -> M>(c: A, f: F, r: M) -> bool {
    f.ensures((c.held(),), r)
}

/// A container whose unit value can be transformed by a function, giving a
/// container of the target type that holds the function's result.
pub trait Functor: Pointed {
    /// Applies `f` to the held value and wraps the result in a `C`.
    fn map<C: Pointed, F: Fn(Self::Unit) -> C::Unit>(self, f: F) -> (r: C)
        requires
            f.requires((self.held(),)),
        ensures
            maps_to(self, f, r),
    {
        let v = f(self.unwrap());
        proof {
            C::lemma_held_wrap(v);
        }
        C::of(v)
    }
}

/// A container whose unit value can be fed to a function that itself returns
/// a container, which is the result as it stands, with no wrapping around it.
pub trait Monad: Functor {
    /// Applies `f` to the held value and returns the container it produces.
    fn chain<M: Pointed, F: Fn(Self::Unit) -> M>(self, f: F) -> (r: M)
        requires
            f.requires((self.held(),)),
        ensures
            chains_to(self, f, r),
    {
        f(self.unwrap())
    }
}

} // verus!
