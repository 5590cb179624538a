//! Cookie-aware HTTP fetch core: a pool of reusable clients, each bundling a
//! shared cookie jar and a mutable redirect policy, plus the per-request
//! decision logic that drives one fetch (cookie injection, redirect hops,
//! body decoding mode) as a state machine over plain values.

pub mod client;
pub mod executor;
pub mod jar;
pub mod net;
pub mod options;
pub mod policy;
pub mod pool;
