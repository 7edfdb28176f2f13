//! A vanity Bitcoin address searcher: workers generate random keypairs and
//! race to find one whose encoded address matches a user-supplied pattern.
//!
//! The crate has three pieces. [`address`] generates candidate keypairs
//! through the external elliptic-curve and encoding libraries and tests
//! their encoded addresses against regex patterns. [`worker`] is the
//! per-worker state machine that coordinates early termination through a
//! shared stop signal, together with a session-level model of a whole
//! multi-worker run. [`search`] drives one worker's bounded search loop.

pub mod address;
pub mod search;
pub mod worker;
