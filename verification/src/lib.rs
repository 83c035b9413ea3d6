//! A test-suite execution engine: a fixed batch of independent test tasks
//! shares setup and teardown data through a typed, lifecycle-scoped store,
//! runs under a sequential or a parallel scheduler, and reports one
//! aggregated pass/fail outcome with per-task failure isolation.

pub mod fixture;
pub mod hook;
pub mod laws;
pub mod store;
pub mod suite;
