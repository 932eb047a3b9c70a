//! Corpus scheduling and coverage-feedback core of a coverage-guided fuzzer.
//!
//! The crate answers the two questions a fuzzing engine asks after every
//! execution of the target: was the last input interesting enough to retain
//! (map feedback against a persistent history map), and which retained input
//! should be mutated next (a family of corpus schedulers with per-testcase
//! scheduling metadata).

use vstd::prelude::*;

pub mod corpus;
pub mod feedbacks;
pub mod hashing;
pub mod observers;
pub mod prob_map;
pub mod probabilistic_sampling;
pub mod rands;
pub mod schedulers;
pub mod state;
pub mod testcase_score;

verus! {

/// A stable, opaque identifier of a testcase stored in the corpus.
#[derive(Clone, Copy, Debug, PartialEq, Eq, Hash, Structural)]
pub struct CorpusId(pub u64);

/// The error kinds surfaced by the scheduling and feedback core.
#[derive(Clone, Copy, Debug, PartialEq, Eq, Structural)]
pub enum Error {
    /// `next` was called on an empty corpus.
    Empty,
    /// A required observer, metadata entry or corpus entry is missing.
    KeyNotFound,
    /// A history map and an observation disagree on their length.
    SizeMismatch,
    /// A score or a running total left its permitted range.
    InvariantViolation,
}

} // verus!
