use vstd::prelude::*;
use crate::traits::{Functor, Monad, Pointed};

verus! {

/// A container of two values, whose unit value is the pair of them.
#[derive(Copy, Clone, Debug, PartialEq, Eq)]
pub struct Pair<A, B>(pub A, pub B);

impl<A, B> Pointed for Pair<A, B> {
    type Unit = (A, B);

    open spec fn held(&self) -> (A, B) {
        (self.0, self.1)
    }

    open spec fn wrap(unit: (A, B)) -> Self {
        Pair(unit.0, unit.1)
    }

    proof fn lemma_held_wrap(unit: (A, B)) {
    }

    proof fn lemma_wrap_held(c: Self) {
    }

    fn of(unit: (A, B)) -> (r: Self) {
        Pair(unit.0, unit.1)
    }

    fn unwrap(self) -> (r: (A, B)) {
        (self.0, self.1)
    }
}

impl<A, B> Functor for Pair<A, B> {
}

impl<A, B> Monad for Pair<A, B> {
}

} // verus!
