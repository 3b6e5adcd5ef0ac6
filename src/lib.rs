//! A delayed-execution engine: batches of delegated calls are proposed,
//! sealed, approved by a timelock's administrator, and run one call at a time
//! once the timelock's delay has strictly elapsed, unless vetoed before.

pub mod execution;
pub mod identity;
pub mod laws;
pub mod lifecycle;
pub mod state;
