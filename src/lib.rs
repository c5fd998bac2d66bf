//! Pointed, functor and monad interfaces over value containers, with two
//! containers that implement them and the laws that every implementation obeys.

pub mod traits;
pub mod identity;
pub mod pair;
pub mod laws;
pub mod demo;

pub use traits::{Functor, Monad, Pointed};
pub use identity::Identity;
pub use pair::Pair;
