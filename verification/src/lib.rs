//! State machine of a picker that lets the user choose one open buffer to
//! diff against the active buffer.
//!
//! The library decides; the host acts. Every operation that touches the
//! outside world returns the list of effects the host has to perform, in
//! order, and takes what the host observed as plain values.

pub mod delegate;
pub mod diff_task;
pub mod effect;
pub mod file_match;
pub mod filter;
pub mod handle;
pub mod model;
pub mod picker;
pub mod picker_proofs;
pub mod subsequence;
pub mod task_proofs;
pub mod text;
