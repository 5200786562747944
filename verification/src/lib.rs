//! Decision core of a sandboxed program launcher for an online-judge worker.
//!
//! The crate holds the rules by which a job is sequenced, a child is
//! supervised against its deadline, its output is captured under a cap
//! while it runs, and its termination is turned into a verdict. Every rule
//! is stated as a contract and proved.

pub mod child;
pub mod collector;
pub mod coordinator;
pub mod invariants;
pub mod mounts;
pub mod progress;
pub mod protocol;
pub mod supervisor;
pub mod traces;
pub mod types;
pub mod verdict;
pub mod wait_status;

pub use crate::types::{Language, LaunchOption, LaunchResult, LaunchStatus, Mount, Sandbox};
