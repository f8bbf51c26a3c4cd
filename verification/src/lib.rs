//! Verified core of a per-CPU ring-buffer multiplexer.
//!
//! One kernel ring buffer is opened per active core, and the routing table
//! that tells the in-kernel side which buffer to use is populated with one
//! 4-byte descriptor cell per core. Opening buffers, writing table cells and
//! advancing table keys are native calls that an unverified driver performs;
//! the decisions between those calls - what to do next, what each cell must
//! hold, and when initialization has succeeded or failed - live here, as a
//! verified state machine.

pub mod cell;
pub mod init;
