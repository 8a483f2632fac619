//! Integrity-verified batch transfer of game-content files, and the launcher's supporting rules.
//!
//! The batch engine is a state machine ([`batch::Batch`]) that a runtime drives: it hands out
//! permits under a concurrency bound, records each job's [`outcome::Outcome`], and reduces them
//! to one status. Downloads are verified by SHA-1 before anything is written ([`worker`]).
pub mod batch;
pub mod digest;
pub mod job;
pub mod outcome;
pub mod release;
pub mod setup;
pub mod text;
pub mod worker;
