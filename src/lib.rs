//! Transaction-lifecycle core of a cross-chain message relayer: the
//! operation contract and its status model, the scheduling order of queued
//! operations, and gas-cost attribution for batched submissions.

pub mod cost;
pub mod h256;
pub mod lifecycle;
pub mod operation;
pub mod ordering;
pub mod status;
pub mod u256;
