//! Decision logic for driving a ZeroTier device from blocking code.
//!
//! A caller that lives on an ordinary thread wants to run one asynchronous
//! request against the local agent or the management service and get a plain
//! result back, or a timeout. The waiting itself (a runtime, a channel, a
//! clock) cannot be reasoned about statically, so it is left to the caller.
//! This crate holds every decision that the waiting and the requests involve,
//! as functions from what was observed to what has to happen next.

pub mod bridge;
pub mod call;
pub mod config;
pub mod flags;
pub mod operation;
pub mod records;
pub mod sync;
