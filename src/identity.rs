use vstd::prelude::*;
use crate::traits::{Functor, Monad, Pointed};

verus! {

/// A container of exactly one value.
#[derive(Copy, Clone, Debug, PartialEq, Eq)]
pub struct Identity<T>(pub T);

impl<T> Pointed for Identity<T> {
    type Unit = T;

    open spec fn held(&self) -> T {
        self.0
    }

    open spec fn wrap(unit: T) -> Self {
        Identity(unit)
    }

    proof fn lemma_held_wrap(unit: T) {
    }

    proof fn lemma_wrap_held(c: Self) {
    }

    fn of(unit: T) -> (r: Self) {
        Identity(unit)
    }

    fn unwrap(self) -> (r: T) {
        self.0
    }
}

impl<T> Functor for Identity<T> {
}

impl<T> Monad for Identity<T> {
}

} // verus!
