//! A control-transfer layer between a stack-based bytecode engine and the
//! driver that performs its sub-calls, together with the block-range
//! bookkeeping and object-key naming used by the import tools around it.
//!
//! - [`cps_executor`]: the layer itself, its interrupts, its feedback and its
//!   phases.
//! - [`host`]: the executor of the `evm` crate that the layer forwards to,
//!   behind contracts taken on trust.
//! - [`meta`]: which blocks a machine imports next, and the queries against
//!   the table that records what is done.
//! - [`incremental`] and [`context`]: the keys of a network's snapshot in
//!   the object store.
//! - [`text`]: decimal text of block numbers.

pub mod context;
pub mod cps_executor;
pub mod host;
pub mod incremental;
pub mod meta;
pub mod text;
