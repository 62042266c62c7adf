//! Poll-driven file reads and writes whose blocking system calls run on a pool
//! of worker threads.
//!
//! This crate holds the decisions: the read-stream and write-sink state
//! machines, the choice of a read buffer size, and the options that describe
//! how a file is opened. The caller runs the worker pool and the system calls,
//! and hands each outcome back to the machine.
use vstd::prelude::*;

pub mod buf;
pub mod read;
pub mod write;

verus! {

/// Worker count of a pool that is built without an explicit count.
pub const DEFAULT_THREADS: usize = 4;

} // verus!
