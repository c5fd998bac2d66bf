use vstd::prelude::*;
use crate::identity::Identity;
use crate::pair::Pair;
use crate::traits::{Functor, Monad, Pointed};

verus! {

/// Builds `Identity(5)`, maps it with `x -> x * 3`, then chains
/// `x -> Identity(x - 3)` after the result, and returns the three states.
pub fn identity_steps() -> (r: (Identity<i32>, Identity<i32>, Identity<i32>))
    ensures
        r.0 == Identity(5i32),
        r.1 == Identity(15i32),
        r.2 == Identity(12i32),
{
    let id1: Identity<i32> = Identity::of(5);
    let triple = |x: i32| -> (y: i32)
        requires
            x == 5,
        ensures
            y == x * 3,
        { x * 3 };
    let id2: Identity<i32> = id1.map(triple);
    let step_down = |x: i32| -> (m: Identity<i32>)
        requires
            x == 15,
        ensures
            m.0 == x - 3,
        { Identity::of(x - 3) };
    let id3: Identity<i32> = id2.chain(step_down);
    (id1, id2, id3)
}

/// Builds `Pair(1, 2)`, maps it with `(a, b) -> (a * 2, b + 3)`, then chains
/// `(a, b) -> Pair(b, a)` after the result, and returns the three states.
pub fn pair_steps() -> (r: (Pair<u32, u32>, Pair<u32, u32>, Pair<u32, u32>))
    ensures
        r.0 == Pair(1u32, 2u32),
        r.1 == Pair(2u32, 5u32),
        r.2 == Pair(5u32, 2u32),
{
    let p1: Pair<u32, u32> = Pair::of((1, 2));
    let scale = |ab: (u32, u32)| -> (cd: (u32, u32))
        requires
            ab == (1u32, 2u32),
        ensures
            cd.0 == ab.0 * 2,
            cd.1 == ab.1 + 3,
        { (ab.0 * 2, ab.1 + 3) };
    let p2: Pair<u32, u32> = p1.map(scale);
    let swap = |ab: (u32, u32)| -> (m: Pair<u32, u32>)
        ensures
            m == Pair(ab.1, ab.0),
        { Pair::of((ab.1, ab.0)) };
    let p3: Pair<u32, u32> = p2.chain(swap);
    (p1, p2, p3)
}

} // verus!
