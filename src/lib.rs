//! A growable, contiguous, owning array with an explicit capacity policy.
//!
//! `MVec<T>` keeps its elements in one buffer reserved for `capacity` slots,
//! of which the first `len` hold live values. The buffer is reserved lazily on
//! the first append (four slots) and doubled whenever an append finds it full;
//! elements move to the new buffer without being copied or dropped.
//!
//! `state` holds the mathematical model of the container and the laws proved
//! of it; `vector` holds the executable container, whose operations are
//! specified over that model.
pub mod state;
pub mod vector;

pub use vector::MVec;
pub use state::{grown_capacity, ArrayState, Operation, INITIAL_CAPACITY};
