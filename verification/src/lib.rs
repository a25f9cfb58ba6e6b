//! Rate limiting by the generic cell rate algorithm.
//!
//! A [`Quota`] says how fast capacity comes back and how much of it a bucket
//! holds. A [`Gcra`] decides under that quota whether a cell, or a batch of
//! cells, that arrives at some instant conforms, from one span of state per
//! key, which a [`StateStore`] keeps. What a decision hands back to the
//! caller is up to a [`RateLimitingMiddleware`]; a denial is a [`NotUntil`],
//! which tells how long to wait.
pub mod admission;
pub mod clock;
pub mod errors;
pub mod gcra;
pub mod middleware;
pub mod nanos;
pub mod quota;
pub mod state;

pub use crate::clock::Reference;
pub use crate::errors::InsufficientCapacity;
pub use crate::gcra::{Gcra, NotUntil};
pub use crate::middleware::{
    NoOpMiddleware, RateLimitingMiddleware, StateInformationMiddleware, StateSnapshot,
};
pub use crate::nanos::Nanos;
pub use crate::quota::{InvalidQuota, Quota};
pub use crate::state::{HashMapStateStore, InMemoryState, NotKeyed, StateStore};
