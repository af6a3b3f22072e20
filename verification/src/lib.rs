//! Execution layer of an algorithmic trading engine.
//!
//! Unifies heterogeneous exchange trading APIs behind one strongly-typed
//! interface: a typestate order lifecycle, an `ExecutionClient` contract that
//! every exchange adapter implements, and a batched dispatch protocol that
//! guarantees one result per request with per-order failure isolation.

pub mod balance;
pub mod cerebrum;
pub mod client;
pub mod dispatch;
pub mod dup;
pub mod error;
pub mod event;
pub mod ids;
pub mod mock;
pub mod order;
pub mod portfolio;
pub mod trade;
