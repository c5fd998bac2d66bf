use functors::{Functor, Identity, Monad, Pair, Pointed};

#[test]
fn identity_round_trip() {
    assert_eq!(Identity::of(42).unwrap(), 42);
    assert_eq!(Identity::of("text").unwrap(), "text");
}

#[test]
fn pair_round_trip() {
    assert_eq!(Pair::of((7, 'x')).unwrap(), (7, 'x'));
    assert_eq!(Pair::of((1u8, 2u8)), Pair(1u8, 2u8));
}

#[test]
fn identity_scenario() {
    let id1 = Identity::of(5);
    let id2: Identity<i32> = id1.map(|x| x * 3);
    let id3 = id2.chain(|x| Identity::of(x - 3));
    assert_eq!(id1, Identity(5));
    assert_eq!(id2, Identity(15));
    assert_eq!(id3, Identity(12));
}

#[test]
fn pair_scenario() {
    let p1 = Pair::of((1, 2));
    let p2: Pair<u32, u32> = p1.map(|(a, b)| (a * 2, b + 3));
    let p3 = p2.chain(|(a, b)| Pair::of((b, a)));
    assert_eq!(p1, Pair(1, 2));
    assert_eq!(p2, Pair(2, 5));
    assert_eq!(p3, Pair(5, 2));
}

#[test]
fn map_identity_function_keeps_container() {
    let c = Identity(9i64);
    let r: Identity<i64> = c.map(|x| x);
    assert_eq!(r, c);
    let p = Pair(3u8, -4i16);
    let q: Pair<u8, i16> = p.map(|u| u);
    assert_eq!(q, p);
}

#[test]
fn map_composes() {
    let f = |x: i32| x + 1;
    let g = |x: i32| x * 10;
    let c = Identity(4);
    let twice: Identity<i32> = c.map::<Identity<i32>, _>(f).map(g);
    let once: Identity<i32> = c.map(|x| g(f(x)));
    assert_eq!(twice, once);
    assert_eq!(once, Identity(50));
}

#[test]
fn map_changes_container_type() {
    let c = Identity(6u32);
    let p: Pair<u32, bool> = c.map(|x| (x / 2, x % 2 == 0));
    assert_eq!(p, Pair(3, true));
    let back: Identity<u32> = p.map(|(a, _)| a + 1);
    assert_eq!(back, Identity(4));
}

#[test]
fn chain_left_identity() {
    let f = |x: u32| Pair::of((x, x + 1));
    assert_eq!(Identity::of(10u32).chain(f), f(10));
    assert_eq!(Identity::of(10u32).chain(f), Pair(10, 11));
}

#[test]
fn chain_right_identity() {
    let m = Pair(8i32, 'q');
    assert_eq!(m.chain(Pair::of), m);
    let n = Identity(-2i32);
    assert_eq!(n.chain(Identity::of), n);
}

#[test]
fn chain_associative() {
    let f = |x: i32| Identity::of(x - 1);
    let g = |x: i32| Pair::of((x, x * x));
    let m = Identity(5);
    let left = m.chain(f).chain(g);
    let right = m.chain(|x| f(x).chain(g));
    assert_eq!(left, right);
    assert_eq!(right, Pair(4, 16));
}
